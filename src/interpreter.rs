//! The sighash types, also reachable from the interpreter's side.

pub use crate::signature::SignatureType;
