//! The CompactSize codec: an unsigned integer stored in 1, 3, 5 or 9 bytes,
//! the width chosen by magnitude.

use vstd::arithmetic::div_mod::lemma_fundamental_div_mod;
use vstd::prelude::*;

verus! {

/// Marker byte that announces a 2-byte payload.
pub const MARKER_B2: u8 = 0xfd;

/// Marker byte that announces a 4-byte payload.
pub const MARKER_B4: u8 = 0xfe;

/// Marker byte that announces an 8-byte payload.
pub const MARKER_B8: u8 = 0xff;

/// `256` to the power `n`.
pub open spec fn pow256(n: nat) -> nat
    decreases n,
{
    if n == 0 {
        1
    } else {
        256 * pow256((n - 1) as nat)
    }
}

/// The value of a byte string read least significant byte first.
pub open spec fn le_value(s: Seq<u8>) -> nat
    decreases s.len(),
{
    if s.len() == 0 {
        0
    } else {
        s[0] as nat + 256 * le_value(s.drop_first())
    }
}

/// The `n` low-order bytes of `v`, least significant first.
pub open spec fn le_bytes(v: nat, n: nat) -> Seq<u8>
    decreases n,
{
    if n == 0 {
        Seq::empty()
    } else {
        seq![(v % 256) as u8] + le_bytes(v / 256, (n - 1) as nat)
    }
}

/// The shortest CompactSize encoding of `v`.
pub open spec fn compact_encoding(v: u64) -> Seq<u8> {
    if v <= 252 {
        seq![v as u8]
    } else if v <= 0xffff {
        seq![MARKER_B2] + le_bytes(v as nat, 2)
    } else if v <= 0xffff_ffff {
        seq![MARKER_B4] + le_bytes(v as nat, 4)
    } else {
        seq![MARKER_B8] + le_bytes(v as nat, 8)
    }
}

/// What is wrong with `s` as a CompactSize field, or `None` if it is one.
pub open spec fn compact_check(s: Seq<u8>) -> Option<CompactSizeError> {
    if s.len() == 1 {
        None
    } else if s.len() == 3 || s.len() == 5 || s.len() == 9 {
        let expected = if s.len() == 3 {
            MARKER_B2
        } else if s.len() == 5 {
            MARKER_B4
        } else {
            MARKER_B8
        };
        if s[0] == expected {
            None
        } else {
            Some(CompactSizeError::MarkerMismatch { expected, found: s[0] })
        }
    } else {
        Some(CompactSizeError::UnsupportedLength(s.len() as usize))
    }
}

/// The bytes of a CompactSize field that carry its value.
pub open spec fn compact_payload(s: Seq<u8>) -> Seq<u8> {
    if s.len() == 1 {
        s
    } else {
        s.drop_first()
    }
}

/// The value that the bytes `s` decode to, or the reason they do not.
pub open spec fn compact_decode(s: Seq<u8>) -> Result<u64, CompactSizeError> {
    match compact_check(s) {
        Some(e) => Err(e),
        None => Ok(le_value(compact_payload(s)) as u64),
    }
}

/// `le_bytes(v, n)` has `n` bytes.
pub proof fn lemma_le_bytes_len(v: nat, n: nat)
    ensures
        le_bytes(v, n).len() == n,
    decreases n,
{
    if n > 0 {
        lemma_le_bytes_len(v / 256, (n - 1) as nat);
    }
}

/// `256^a <= 256^b` for `a <= b`.
pub proof fn lemma_pow256_monotone(a: nat, b: nat)
    requires
        a <= b,
    ensures
        pow256(a) <= pow256(b),
    decreases b,
{
    if a < b {
        lemma_pow256_monotone(a, (b - 1) as nat);
    }
}

/// A byte string of length `n` reads as a value below `256^n`.
pub proof fn lemma_le_value_bound(s: Seq<u8>)
    ensures
        le_value(s) < pow256(s.len()),
    decreases s.len(),
{
    if s.len() > 0 {
        lemma_le_value_bound(s.drop_first());
    }
}

/// Reading back the `n` low-order bytes of a value below `256^n` gives the value.
pub proof fn lemma_le_round_trip(v: nat, n: nat)
    requires
        v < pow256(n),
    ensures
        le_value(le_bytes(v, n)) == v,
    decreases n,
{
    if n > 0 {
        let rest = le_bytes(v / 256, (n - 1) as nat);
        assert((seq![(v % 256) as u8] + rest).drop_first() =~= rest);
        lemma_fundamental_div_mod(v as int, 256);
        assert(v / 256 < pow256((n - 1) as nat));
        lemma_le_round_trip(v / 256, (n - 1) as nat);
    } else {
        assert(v == 0);
    }
}

/// The powers of 256 that the widths of the codec need.
pub proof fn lemma_pow256_values()
    ensures
        pow256(2) == 0x1_0000,
        pow256(4) == 0x1_0000_0000,
        pow256(7) == 0x100_0000_0000_0000,
        pow256(8) == 0x1_0000_0000_0000_0000,
{
    reveal_with_fuel(pow256, 9);
}

/// Errors of the CompactSize decoder.
#[derive(Debug, Clone, Copy, PartialEq, Eq, Structural)]
pub enum CompactSizeError {
    /// The leading byte is not the marker that the input's length calls for.
    MarkerMismatch { expected: u8, found: u8 },
    /// The input is not 1, 3, 5 or 9 bytes long.
    UnsupportedLength(usize),
}

/// The `n` low-order bytes of `v`, least significant first.
fn le_encode(v: u64, n: usize) -> (r: Vec<u8>)
    ensures
        r@ == le_bytes(v as nat, n as nat),
{
    let mut out: Vec<u8> = Vec::new();
    let mut x: u64 = v;
    let mut i: usize = 0;
    while i < n
        invariant
            i <= n,
            out@ + le_bytes(x as nat, (n - i) as nat) == le_bytes(v as nat, n as nat),
        decreases n - i,
    {
        let ghost before = out@;
        let ghost x0 = x as nat;
        let ghost rest = le_bytes(x0 / 256, (n - i - 1) as nat);
        assert(le_bytes(x0, (n - i) as nat) == seq![(x0 % 256) as u8] + rest);
        out.push((x % 256) as u8);
        x = x / 256;
        i = i + 1;
        assert(before + (seq![(x0 % 256) as u8] + rest) =~= out@ + rest);
    }
    assert(out@ + Seq::<u8>::empty() =~= out@);
    out
}


/// The value of `s` read least significant byte first.
fn le_decode(s: &[u8]) -> (r: u64)
    requires
        s@.len() <= 8,
    ensures
        r as nat == le_value(s@),
{
    let n = s.len();
    let mut acc: u64 = 0;
    let mut i: usize = n;
    while i > 0
        invariant
            i <= n == s@.len() <= 8,
            acc as nat == le_value(s@.subrange(i as int, n as int)),
        decreases i,
    {
        i = i - 1;
        proof {
            let tail = s@.subrange(i + 1, n as int);
            assert(s@.subrange(i as int, n as int).drop_first() =~= tail);
            lemma_le_value_bound(tail);
            lemma_pow256_monotone(tail.len(), 7);
            lemma_pow256_values();
        }
        acc = s[i] as u64 + 256 * acc;
    }
    assert(s@.subrange(0, n as int) =~= s@);
    acc
}

/// A CompactSize field: a value with the width that carries it.
#[derive(Debug, PartialEq, Eq)]
pub enum CompactBytes {
    /// A value up to 252, stored directly.
    B1(u8),
    /// A 2-byte little-endian value after the marker `0xfd`.
    B2([u8; 2]),
    /// A 4-byte little-endian value after the marker `0xfe`.
    B4([u8; 4]),
    /// An 8-byte little-endian value after the marker `0xff`.
    B8([u8; 8]),
}

impl CompactBytes {
    /// The bytes of the field on the wire.
    pub open spec fn spec_bytes(&self) -> Seq<u8> {
        match self {
            CompactBytes::B1(b) => seq![*b],
            CompactBytes::B2(b) => seq![MARKER_B2] + b@,
            CompactBytes::B4(b) => seq![MARKER_B4] + b@,
            CompactBytes::B8(b) => seq![MARKER_B8] + b@,
        }
    }

    /// The value that the field carries.
    pub open spec fn spec_value(&self) -> nat {
        le_value(compact_payload(self.spec_bytes()))
    }

    /// The field as bytes: the marker, if any, then the payload.
    pub fn to_bytes(&self) -> (r: Vec<u8>)
        ensures
            r@ == self.spec_bytes(),
    {
        let r = match self {
            CompactBytes::B1(b) => vec![*b],
            CompactBytes::B2(b) => vec![MARKER_B2, b[0], b[1]],
            CompactBytes::B4(b) => vec![MARKER_B4, b[0], b[1], b[2], b[3]],
            CompactBytes::B8(b) => vec![MARKER_B8, b[0], b[1], b[2], b[3], b[4], b[5], b[6], b[7]],
        };
        assert(r@ =~= self.spec_bytes());
        r
    }

    /// Reads a field from exactly its bytes. Fails when the length is not
    /// 1, 3, 5 or 9, or when the leading byte is not the marker for that length.
    pub fn of_bytes(bytes: Vec<u8>) -> (r: Result<CompactBytes, CompactSizeError>)
        ensures
            r is Ok <==> compact_check(bytes@) is None,
            r matches Ok(c) ==> c.spec_bytes() == bytes@,
            r matches Err(e) ==> compact_check(bytes@) == Some(e),
    {
        let n = bytes.len();
        if n == 1 {
            let r = CompactBytes::B1(bytes[0]);
            assert(r.spec_bytes() =~= bytes@);
            Ok(r)
        } else if n == 3 {
            if bytes[0] != MARKER_B2 {
                return Err(CompactSizeError::MarkerMismatch { expected: MARKER_B2, found: bytes[0] });
            }
            let r = CompactBytes::B2([bytes[1], bytes[2]]);
            assert(r.spec_bytes() =~= bytes@);
            Ok(r)
        } else if n == 5 {
            if bytes[0] != MARKER_B4 {
                return Err(CompactSizeError::MarkerMismatch { expected: MARKER_B4, found: bytes[0] });
            }
            let r = CompactBytes::B4([bytes[1], bytes[2], bytes[3], bytes[4]]);
            assert(r.spec_bytes() =~= bytes@);
            Ok(r)
        } else if n == 9 {
            if bytes[0] != MARKER_B8 {
                return Err(CompactSizeError::MarkerMismatch { expected: MARKER_B8, found: bytes[0] });
            }
            let r = CompactBytes::B8(
                [bytes[1], bytes[2], bytes[3], bytes[4], bytes[5], bytes[6], bytes[7], bytes[8]],
            );
            assert(r.spec_bytes() =~= bytes@);
            Ok(r)
        } else {
            Err(CompactSizeError::UnsupportedLength(n))
        }
    }

    /// The value that the field carries.
    pub fn value(&self) -> (r: u64)
        ensures
            r as nat == self.spec_value(),
    {
        let bytes = self.to_bytes();
        if bytes.len() == 1 {
            assert(bytes@.drop_first() =~= Seq::<u8>::empty());
            assert(le_value(bytes@) == bytes@[0] as nat + 256 * le_value(bytes@.drop_first()));
            bytes[0] as u64
        } else {
            assert(compact_payload(bytes@) =~= bytes@.subrange(1, bytes@.len() as int));
            le_decode(bytes.as_slice().split_at(1).1)
        }
    }

    /// The shortest field that carries `v`.
    pub fn from_value(v: u64) -> (r: CompactBytes)
        ensures
            r.spec_bytes() == compact_encoding(v),
            r.spec_value() == v as nat,
    {
        proof {
            lemma_compact_round_trip(v);
        }
        if v <= 252 {
            CompactBytes::B1(v as u8)
        } else if v <= 0xffff {
            let b = le_encode(v, 2);
            proof { lemma_le_bytes_len(v as nat, 2); }
            let r = CompactBytes::B2([b[0], b[1]]);
            assert(r.spec_bytes() =~= compact_encoding(v));
            r
        } else if v <= 0xffff_ffff {
            let b = le_encode(v, 4);
            proof { lemma_le_bytes_len(v as nat, 4); }
            let r = CompactBytes::B4([b[0], b[1], b[2], b[3]]);
            assert(r.spec_bytes() =~= compact_encoding(v));
            r
        } else {
            let b = le_encode(v, 8);
            proof { lemma_le_bytes_len(v as nat, 8); }
            let r = CompactBytes::B8([b[0], b[1], b[2], b[3], b[4], b[5], b[6], b[7]]);
            assert(r.spec_bytes() =~= compact_encoding(v));
            r
        }
    }

    /// Encodes `v` in the smallest of the four widths that holds it.
    pub fn encode(v: u64) -> (r: Vec<u8>)
        ensures
            r@ == compact_encoding(v),
    {
        CompactBytes::from_value(v).to_bytes()
    }

    /// Decodes a value from exactly the bytes of one field.
    pub fn decode(bytes: Vec<u8>) -> (r: Result<u64, CompactSizeError>)
        ensures
            r == compact_decode(bytes@),
    {
        match CompactBytes::of_bytes(bytes) {
            Ok(c) => {
                proof {
                    lemma_le_value_bound(compact_payload(c.spec_bytes()));
                    lemma_pow256_monotone(compact_payload(c.spec_bytes()).len(), 8);
                    lemma_pow256_values();
                }
                Ok(c.value())
            },
            Err(e) => Err(e),
        }
    }
}

/// Every `u64` survives a CompactSize encode and decode, and its encoding is
/// 1, 3, 5 or 9 bytes long.
pub proof fn lemma_compact_round_trip(v: u64)
    ensures
        compact_decode(compact_encoding(v)) == Ok::<u64, CompactSizeError>(v),
        le_value(compact_payload(compact_encoding(v))) == v,
        compact_encoding(v).len() == 1 || compact_encoding(v).len() == 3
            || compact_encoding(v).len() == 5 || compact_encoding(v).len() == 9,
{
    lemma_pow256_values();
    let s = compact_encoding(v);
    if v <= 252 {
        assert(s.drop_first() =~= Seq::<u8>::empty());
        assert(le_value(s) == s[0] as nat + 256 * le_value(s.drop_first()));
    } else {
        let n: nat = if v <= 0xffff {
            2
        } else if v <= 0xffff_ffff {
            4
        } else {
            8
        };
        lemma_le_bytes_len(v as nat, n);
        assert(s.drop_first() =~= le_bytes(v as nat, n));
        lemma_le_round_trip(v as nat, n);
    }
}

} // verus!
