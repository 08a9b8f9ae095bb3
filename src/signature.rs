//! The signature tag codec: a raw signature followed by one sighash byte.

use vstd::prelude::*;

verus! {

/// Signature hash type: which parts of a transaction a signature commits to.
#[allow(non_camel_case_types)]
#[derive(Debug, Clone, Copy, PartialEq, Eq, Structural)]
pub enum SignatureType {
    SIGHASH_ALL,
    SIGHASH_NONE,
    SIGHASH_SINGLE,
    SIGHASH_ANYONECANPAY,
    /// Taproot only; implied when the sighash byte is missing, and equivalent
    /// to `SIGHASH_ALL`. Has no tag byte here.
    SIGHASH_DEFAULT,
    /// Has no tag byte here.
    SIGHASH_OUTPUT_MASK,
    /// Has no tag byte here.
    SIGHASH_INPUT_MASK,
}

/// A raw signature and its sighash type.
#[derive(Debug, Clone, PartialEq, Eq)]
pub struct Signature(pub Vec<u8>, pub SignatureType);

/// Why a signature could not be encoded or decoded.
#[derive(Debug, Clone, Copy, PartialEq, Eq, Structural)]
pub enum SignatureError {
    /// The sighash type has no tag byte.
    UnsupportedType(SignatureType),
    /// There are no bytes, so no tag byte.
    Empty,
    /// The last byte is not one of `0x01`, `0x02`, `0x03`, `0x80`.
    InvalidTypeByte(u8),
}

/// The tag byte of a sighash type, for the four that have one.
pub open spec fn sighash_byte(t: SignatureType) -> Option<u8> {
    match t {
        SignatureType::SIGHASH_ALL => Some(0x01u8),
        SignatureType::SIGHASH_NONE => Some(0x02u8),
        SignatureType::SIGHASH_SINGLE => Some(0x03u8),
        SignatureType::SIGHASH_ANYONECANPAY => Some(0x80u8),
        _ => None,
    }
}

/// The sighash type that a tag byte selects.
pub open spec fn sighash_of_byte(b: u8) -> Option<SignatureType> {
    if b == 0x01 {
        Some(SignatureType::SIGHASH_ALL)
    } else if b == 0x02 {
        Some(SignatureType::SIGHASH_NONE)
    } else if b == 0x03 {
        Some(SignatureType::SIGHASH_SINGLE)
    } else if b == 0x80 {
        Some(SignatureType::SIGHASH_ANYONECANPAY)
    } else {
        None
    }
}

/// The bytes of a signature: the raw bytes, then the tag byte.
pub open spec fn signature_encoding(raw: Seq<u8>, t: SignatureType) -> Result<Seq<u8>, SignatureError> {
    match sighash_byte(t) {
        Some(b) => Ok(raw.push(b)),
        None => Err(SignatureError::UnsupportedType(t)),
    }
}

/// The raw bytes and sighash type that `s` decodes to: the last byte selects
/// the type, the bytes before it are the signature.
pub open spec fn signature_decoding(s: Seq<u8>) -> Result<(Seq<u8>, SignatureType), SignatureError> {
    if s.len() == 0 {
        Err(SignatureError::Empty)
    } else {
        match sighash_of_byte(s.last()) {
            Some(t) => Ok((s.drop_last(), t)),
            None => Err(SignatureError::InvalidTypeByte(s.last())),
        }
    }
}

/// A signature of any of the four types with a tag byte decodes back from
/// its encoding.
pub proof fn lemma_signature_round_trip(raw: Seq<u8>, t: SignatureType)
    requires
        sighash_byte(t) is Some,
    ensures
        signature_encoding(raw, t) is Ok,
        signature_decoding(signature_encoding(raw, t)->Ok_0) == Ok::<(Seq<u8>, SignatureType), SignatureError>((raw, t)),
{
    assert(raw.push(sighash_byte(t)->Some_0).drop_last() =~= raw);
}

impl View for Signature {
    type V = (Seq<u8>, SignatureType);

    open spec fn view(&self) -> (Seq<u8>, SignatureType) {
        (self.0@, self.1)
    }
}

impl Signature {
    /// Encodes the signature as its raw bytes followed by the tag byte. Fails
    /// for a type with no tag byte.
    pub fn to_bytes(&self) -> (r: Result<Vec<u8>, SignatureError>)
        ensures
            match r {
                Ok(b) => signature_encoding(self.0@, self.1) == Ok::<Seq<u8>, SignatureError>(b@),
                Err(e) => signature_encoding(self.0@, self.1) == Err::<Seq<u8>, SignatureError>(e),
            },
    {
        let tag: u8 = match self.1 {
            SignatureType::SIGHASH_ALL => 0x01,
            SignatureType::SIGHASH_NONE => 0x02,
            SignatureType::SIGHASH_SINGLE => 0x03,
            SignatureType::SIGHASH_ANYONECANPAY => 0x80,
            _ => {
                return Err(SignatureError::UnsupportedType(self.1));
            },
        };
        let mut out: Vec<u8> = Vec::new();
        let mut i: usize = 0;
        while i < self.0.len()
            invariant
                i <= self.0@.len(),
                out@ == self.0@.take(i as int),
            decreases self.0@.len() - i,
        {
            out.push(self.0[i]);
            i = i + 1;
            assert(out@ =~= self.0@.take(i as int));
        }
        assert(self.0@.take(i as int) =~= self.0@);
        out.push(tag);
        Ok(out)
    }

    /// Decodes a signature: the last byte selects the type, the bytes before
    /// it are the signature. Fails on no bytes, or on a last byte that selects
    /// no type.
    pub fn of_bytes(bytes: Vec<u8>) -> (r: Result<Signature, SignatureError>)
        ensures
            match r {
                Ok(sig) => signature_decoding(bytes@) == Ok::<(Seq<u8>, SignatureType), SignatureError>(sig@),
                Err(e) => signature_decoding(bytes@) == Err::<(Seq<u8>, SignatureType), SignatureError>(e),
            },
    {
        let mut bytes = bytes;
        let last = match bytes.pop() {
            Some(b) => b,
            None => {
                return Err(SignatureError::Empty);
            },
        };
        let t = if last == 0x01 {
            SignatureType::SIGHASH_ALL
        } else if last == 0x02 {
            SignatureType::SIGHASH_NONE
        } else if last == 0x03 {
            SignatureType::SIGHASH_SINGLE
        } else if last == 0x80 {
            SignatureType::SIGHASH_ANYONECANPAY
        } else {
            return Err(SignatureError::InvalidTypeByte(last));
        };
        Ok(Signature(bytes, t))
    }
}

} // verus!
