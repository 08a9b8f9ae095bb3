//! Codec and interpreter for a stack-based script bytecode modeled on
//! Bitcoin Script: the CompactSize length codec, the opcode table, the
//! script term codec, a small stack interpreter and the signature tag codec.

pub mod block;
pub mod hash;
pub mod interpreter;
pub mod opcode;
pub mod script;
pub mod signature;
pub mod transaction;
pub mod utils;
