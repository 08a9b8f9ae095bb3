//! Scripts: the term codec, the assembly rendering and the stack interpreter.

use crate::hash::ripemd160;
use crate::hash::ripemd160_of;
use crate::hash::sha256;
use crate::hash::sha256_of;
use crate::opcode::byte_of_opcode;
use crate::opcode::hex_char;
use crate::opcode::lemma_byte_round_trip;
use crate::opcode::opcode_name;
use crate::opcode::opcode_of_byte;
pub use crate::opcode::Opcode;
use vstd::prelude::*;

verus! {

/// Why a script could not be encoded, decoded or run.
#[derive(Debug, Clone, Copy, PartialEq, Eq)]
pub enum ScriptError {
    /// A tag byte that no opcode has (`0xbb..=0xfe`).
    InvalidOpcode(u8),
    /// `OP_PUSHBYTES(n)` with `n` outside `1..=75` has no tag byte.
    InvalidPushBytes(u8),
    /// A push announces more bytes than the input still holds.
    Truncated,
    /// `OP_PUSHDATA1` announces fewer than 76 bytes.
    PushData1TooShort(u8),
    /// The interpreter does not implement this opcode.
    UnsupportedOpcode(Opcode),
}

/// A term of a script: an instruction, or the bytes that the push
/// instruction before it announced.
#[derive(Debug, Clone, PartialEq, Eq)]
pub enum Term {
    Instruction(Opcode),
    Data(Vec<u8>),
}

/// The value of a [`Term`], with its bytes as a sequence.
pub enum TermView {
    Instruction(Opcode),
    Data(Seq<u8>),
}

impl View for Term {
    type V = TermView;

    open spec fn view(&self) -> TermView {
        match self {
            Term::Instruction(op) => TermView::Instruction(*op),
            Term::Data(d) => TermView::Data(d@),
        }
    }
}

/// The values of a sequence of terms.
pub open spec fn terms_view(ts: Seq<Term>) -> Seq<TermView> {
    ts.map_values(|t: Term| t@)
}

/// A script: its terms in order.
#[derive(Debug, PartialEq, Eq)]
pub struct Script(pub Vec<Term>);

impl View for Script {
    type V = Seq<TermView>;

    open spec fn view(&self) -> Seq<TermView> {
        terms_view(self.0@)
    }
}

/// `r` with the terms `p` put in front of its terms, or its error.
pub open spec fn with_prefix(
    p: Seq<TermView>,
    r: Result<Seq<TermView>, ScriptError>,
) -> Result<Seq<TermView>, ScriptError> {
    match r {
        Ok(ts) => Ok(p + ts),
        Err(e) => Err(e),
    }
}

/// The data length that `OP_PUSHDATA2` announces with the bytes `b1 b2`:
/// `(b1 << 16) | (b2 << 8)`.
pub open spec fn pushdata2_len(b1: u8, b2: u8) -> nat {
    (b1 as nat * 256 + b2 as nat) * 256
}

/// The data length that `OP_PUSHDATA4` announces with the bytes `b1 b2 b3 b4`:
/// `(b1 << 32) | (b2 << 24) | (b3 << 16) | (b4 << 8)`.
pub open spec fn pushdata4_len(b1: u8, b2: u8, b3: u8, b4: u8) -> nat {
    (((b1 as nat * 256 + b2 as nat) * 256 + b3 as nat) * 256 + b4 as nat) * 256
}

/// The terms that the first step of a scan of `s` produces, with the number
/// of bytes it consumes, or the reason it fails. `s` is not empty.
pub open spec fn decode_head(s: Seq<u8>) -> Result<(Seq<TermView>, int), ScriptError> {
    let b = s[0];
    if b == 0 {
        Ok((seq![TermView::Instruction(Opcode::OP_0)], 1))
    } else if b <= 0x4b {
        let n = b as int;
        if s.len() < 1 + n {
            Err(ScriptError::Truncated)
        } else {
            Ok(
                (
                    seq![
                        TermView::Instruction(Opcode::OP_PUSHBYTES(b)),
                        TermView::Data(s.subrange(1, 1 + n)),
                    ],
                    1 + n,
                ),
            )
        }
    } else if b == 0x4c {
        if s.len() < 2 {
            Err(ScriptError::Truncated)
        } else if s[1] < 76 {
            Err(ScriptError::PushData1TooShort(s[1]))
        } else {
            let n = s[1] as int;
            if s.len() < 2 + n {
                Err(ScriptError::Truncated)
            } else {
                Ok(
                    (
                        seq![
                            TermView::Instruction(Opcode::OP_PUSHDATA1(s[1])),
                            TermView::Data(s.subrange(2, 2 + n)),
                        ],
                        2 + n,
                    ),
                )
            }
        }
    } else if b == 0x4d {
        if s.len() < 3 {
            Err(ScriptError::Truncated)
        } else {
            let n = pushdata2_len(s[1], s[2]) as int;
            if s.len() < 3 + n {
                Err(ScriptError::Truncated)
            } else {
                Ok(
                    (
                        seq![
                            TermView::Instruction(Opcode::OP_PUSHDATA2([s[1], s[2]])),
                            TermView::Data(s.subrange(3, 3 + n)),
                        ],
                        3 + n,
                    ),
                )
            }
        }
    } else if b == 0x4e {
        if s.len() < 5 {
            Err(ScriptError::Truncated)
        } else {
            let n = pushdata4_len(s[1], s[2], s[3], s[4]) as int;
            if s.len() < 5 + n {
                Err(ScriptError::Truncated)
            } else {
                Ok(
                    (
                        seq![
                            TermView::Instruction(Opcode::OP_PUSHDATA4([s[1], s[2], s[3], s[4]])),
                            TermView::Data(s.subrange(5, 5 + n)),
                        ],
                        5 + n,
                    ),
                )
            }
        }
    } else {
        match opcode_of_byte(b) {
            Some(op) => Ok((seq![TermView::Instruction(op)], 1)),
            None => Err(ScriptError::InvalidOpcode(b)),
        }
    }
}

/// The terms that the bytes `s` decode to, scanning from the left, or the
/// first reason they do not.
pub open spec fn decode_terms(s: Seq<u8>) -> Result<Seq<TermView>, ScriptError>
    decreases s.len(),
{
    if s.len() == 0 {
        Ok(Seq::empty())
    } else {
        match decode_head(s) {
            Err(e) => Err(e),
            // a step always consumes between 1 and s.len() bytes
            // (lemma_decode_head_consumes); the test keeps the recursion finite
            Ok((ts, k)) => if 1 <= k <= s.len() {
                with_prefix(ts, decode_terms(s.skip(k)))
            } else {
                Err(ScriptError::Truncated)
            },
        }
    }
}

/// A successful first step consumes at least one byte and no more than there are.
pub proof fn lemma_decode_head_consumes(s: Seq<u8>)
    requires
        s.len() > 0,
    ensures
        decode_head(s) matches Ok((_, k)) ==> 1 <= k <= s.len(),
{
}

/// The bytes of one term: the tag byte and the stored length bytes of an
/// instruction, or the data as it stands.
pub open spec fn term_bytes(t: TermView) -> Result<Seq<u8>, ScriptError> {
    match t {
        TermView::Data(d) => Ok(d),
        TermView::Instruction(op) => match op {
            Opcode::OP_PUSHDATA1(l) => Ok(seq![0x4cu8, l]),
            Opcode::OP_PUSHDATA2(l) => Ok(seq![0x4du8] + l@),
            Opcode::OP_PUSHDATA4(l) => Ok(seq![0x4eu8] + l@),
            _ => match byte_of_opcode(op) {
                Ok(b) => Ok(seq![b]),
                Err(e) => Err(e),
            },
        },
    }
}

/// The bytes of a sequence of terms, or the error of the first term that
/// has none.
pub open spec fn encode_terms(ts: Seq<TermView>) -> Result<Seq<u8>, ScriptError>
    decreases ts.len(),
{
    if ts.len() == 0 {
        Ok(Seq::empty())
    } else {
        match encode_terms(ts.drop_last()) {
            Err(e) => Err(e),
            Ok(p) => match term_bytes(ts.last()) {
                Ok(b) => Ok(p + b),
                Err(e) => Err(e),
            },
        }
    }
}

/// Once a prefix of the terms fails to encode, the whole sequence fails with
/// the same error.
pub proof fn lemma_encode_error_extends(ts: Seq<TermView>, i: int)
    requires
        0 <= i <= ts.len(),
        encode_terms(ts.take(i)) is Err,
    ensures
        encode_terms(ts) == encode_terms(ts.take(i)),
    decreases ts.len(),
{
    if ts.len() > i {
        assert(ts.drop_last().take(i) =~= ts.take(i));
        lemma_encode_error_extends(ts.drop_last(), i);
    } else {
        assert(ts.take(i) =~= ts);
    }
}

/// Putting `b` and then `a` in front is putting `a + b` in front.
pub proof fn lemma_with_prefix_twice(
    a: Seq<TermView>,
    b: Seq<TermView>,
    r: Result<Seq<TermView>, ScriptError>,
)
    ensures
        with_prefix(a, with_prefix(b, r)) == with_prefix(a + b, r),
{
    if let Ok(ts) = r {
        assert(a + (b + ts) =~= (a + b) + ts);
    }
}

/// The bytes of `a + b` are the bytes of `a` followed by those of `b`.
pub proof fn lemma_encode_append(a: Seq<TermView>, b: Seq<TermView>)
    requires
        encode_terms(a) is Ok,
        encode_terms(b) is Ok,
    ensures
        encode_terms(a + b) == Ok::<Seq<u8>, ScriptError>(
            encode_terms(a)->Ok_0 + encode_terms(b)->Ok_0,
        ),
    decreases b.len(),
{
    if b.len() == 0 {
        assert(a + b =~= a);
        assert(encode_terms(a)->Ok_0 + Seq::<u8>::empty() =~= encode_terms(a)->Ok_0);
    } else {
        assert((a + b).drop_last() =~= a + b.drop_last());
        assert((a + b).last() == b.last());
        lemma_encode_append(a, b.drop_last());
        let pa = encode_terms(a)->Ok_0;
        let pb = encode_terms(b.drop_last())->Ok_0;
        let x = term_bytes(b.last())->Ok_0;
        assert(pa + pb + x =~= pa + (pb + x));
    }
}

/// The bytes of one or two terms.
pub proof fn lemma_encode_short(x: TermView, y: TermView)
    ensures
        encode_terms(seq![x]) == (match term_bytes(x) {
            Ok(bx) => Ok(bx),
            Err(e) => Err::<Seq<u8>, ScriptError>(e),
        }),
        term_bytes(x) is Ok && term_bytes(y) is Ok ==> encode_terms(seq![x, y])
            == Ok::<Seq<u8>, ScriptError>(term_bytes(x)->Ok_0 + term_bytes(y)->Ok_0),
{
    reveal_with_fuel(encode_terms, 3);
    assert(seq![x].drop_last() =~= Seq::<TermView>::empty());
    assert(seq![x, y].drop_last() =~= seq![x]);
    if let Ok(bx) = term_bytes(x) {
        assert(Seq::<u8>::empty() + bx =~= bx);
    }
}

/// Re-encoding the terms that a byte string decodes to gives that byte
/// string back.
pub proof fn lemma_decode_encode(s: Seq<u8>)
    requires
        decode_terms(s) is Ok,
    ensures
        encode_terms(decode_terms(s)->Ok_0) == Ok::<Seq<u8>, ScriptError>(s),
    decreases s.len(),
{
    if s.len() == 0 {
        assert(encode_terms(Seq::<TermView>::empty()) == Ok::<Seq<u8>, ScriptError>(Seq::<u8>::empty()));
        assert(s =~= Seq::<u8>::empty());
    } else {
        lemma_decode_head_consumes(s);
        let (h, k) = decode_head(s)->Ok_0;
        let rest = s.skip(k);
        lemma_decode_encode(rest);
        let b = s[0];
        if b == 0 || b > 0x4e {
            if b > 0x4e {
                lemma_byte_round_trip(b);
            }
            lemma_encode_short(h[0], h[0]);
            assert(seq![b] =~= s.take(k));
        } else {
            lemma_encode_short(h[0], h[1]);
            if b <= 0x4b {
                assert(seq![b] + s.subrange(1, k) =~= s.take(k));
            } else if b == 0x4c {
                assert(seq![0x4cu8, s[1]] + s.subrange(2, k) =~= s.take(k));
            } else if b == 0x4d {
                assert(seq![0x4du8] + [s[1], s[2]]@ + s.subrange(3, k) =~= s.take(k));
            } else {
                assert(seq![0x4eu8] + [s[1], s[2], s[3], s[4]]@ + s.subrange(5, k) =~= s.take(k));
            }
        }
        assert(h =~= seq![h[0]] || h =~= seq![h[0], h[1]]);
        lemma_encode_append(h, decode_terms(rest)->Ok_0);
        assert(s.take(k) + rest =~= s);
    }
}

/// A stack of byte strings; the last item is the top.
#[derive(Clone)]
pub struct Stack(Vec<Vec<u8>>);

impl View for Stack {
    type V = Seq<Seq<u8>>;

    closed spec fn view(&self) -> Seq<Seq<u8>> {
        items_view(self.0@)
    }
}

/// The values of a sequence of stack items.
pub open spec fn items_view(items: Seq<Vec<u8>>) -> Seq<Seq<u8>> {
    items.map_values(|v: Vec<u8>| v@)
}

/// Which stack item `OP_DUP` copies.
#[derive(Debug, Clone, Copy, PartialEq, Eq, Structural)]
pub enum DupFrom {
    /// The bottom item, at index 0.
    Bottom,
    /// The top item.
    Top,
}

/// The digest that `OP_HASH160` pushes: RIPEMD-160 of SHA-256.
pub open spec fn hash160_of(data: Seq<u8>) -> Seq<u8> {
    ripemd160_of(sha256_of(data))
}

/// The verdict of running the terms `ts` on `stack`, with `expected` the
/// length that the last push instruction announced and that no data term has
/// used yet. A data term with no announced length or of another length, and
/// an opcode that finds too few items, end the run with `false`. An opcode
/// other than `OP_0`, `OP_FALSE`, `OP_PUSHBYTES`, `OP_DUP`, `OP_HASH160` and
/// `OP_EQUALVERIFY` is an error. At the end the script holds iff the stack is
/// empty.
pub open spec fn run_terms(
    stack: Seq<Seq<u8>>,
    expected: Option<u8>,
    ts: Seq<TermView>,
    dup: DupFrom,
) -> Result<bool, ScriptError>
    decreases ts.len(),
{
    if ts.len() == 0 {
        Ok(stack.len() == 0)
    } else {
        let rest = ts.drop_first();
        match ts[0] {
            TermView::Data(d) => match expected {
                None => Ok(false),
                Some(n) => if d.len() != n as nat {
                    Ok(false)
                } else {
                    run_terms(stack.push(d), None, rest, dup)
                },
            },
            TermView::Instruction(op) => match op {
                Opcode::OP_0 | Opcode::OP_FALSE => run_terms(stack.push(seq![0u8]), expected, rest, dup),
                Opcode::OP_PUSHBYTES(n) => run_terms(stack, Some(n), rest, dup),
                Opcode::OP_DUP => if stack.len() == 0 {
                    Ok(false)
                } else {
                    let item = match dup {
                        DupFrom::Bottom => stack[0],
                        DupFrom::Top => stack.last(),
                    };
                    run_terms(stack.push(item), expected, rest, dup)
                },
                Opcode::OP_HASH160 => if stack.len() == 0 {
                    Ok(false)
                } else {
                    run_terms(stack.drop_last().push(hash160_of(stack.last())), expected, rest, dup)
                },
                Opcode::OP_EQUALVERIFY => if stack.len() < 2 {
                    Ok(false)
                } else if stack.last() == stack[stack.len() - 2] {
                    run_terms(stack.drop_last().drop_last(), expected, rest, dup)
                } else {
                    Ok(false)
                },
                _ => Err(ScriptError::UnsupportedOpcode(op)),
            },
        }
    }
}

/// A script whose first term is data, with no push instruction before it,
/// fails, whatever the stack and the rest of the script.
pub proof fn lemma_leading_data_fails(
    stack: Seq<Seq<u8>>,
    d: Seq<u8>,
    rest: Seq<TermView>,
    dup: DupFrom,
)
    ensures
        run_terms(stack, None, seq![TermView::Data(d)] + rest, dup) == Ok::<bool, ScriptError>(false),
{
}

/// Whether two byte strings are equal, length and content.
fn bytes_equal(a: &Vec<u8>, b: &Vec<u8>) -> (r: bool)
    ensures
        r == (a@ == b@),
{
    if a.len() != b.len() {
        return false;
    }
    let mut i: usize = 0;
    while i < a.len()
        invariant
            i <= a@.len() == b@.len(),
            a@.take(i as int) == b@.take(i as int),
        decreases a@.len() - i,
    {
        if a[i] != b[i] {
            assert(a@[i as int] != b@[i as int]);
            return false;
        }
        i = i + 1;
        assert(a@.take(i as int) =~= a@.take(i - 1).push(a@[i - 1]));
        assert(b@.take(i as int) =~= b@.take(i - 1).push(b@[i - 1]));
    }
    assert(a@ =~= a@.take(i as int));
    assert(b@ =~= b@.take(i as int));
    true
}

impl Stack {
    /// An empty stack.
    pub fn new() -> (r: Self)
        ensures
            r@ == Seq::<Seq<u8>>::empty(),
    {
        let r = Self(Vec::new());
        assert(r@ =~= Seq::<Seq<u8>>::empty());
        r
    }

    /// Puts `v` on top of the stack.
    pub fn push(&mut self, v: Vec<u8>)
        ensures
            final(self)@ == old(self)@.push(v@),
    {
        self.0.push(v);
        assert(self@ =~= old(self)@.push(v@));
    }
}

impl Default for Stack {
    fn default() -> (r: Self)
        ensures
            r@ == Seq::<Seq<u8>>::empty(),
    {
        Self::new()
    }
}

/// A byte string in hex: two lower-case digits per byte, high nibble first.
pub open spec fn hex_of(data: Seq<u8>) -> Seq<char>
    decreases data.len(),
{
    if data.len() == 0 {
        Seq::empty()
    } else {
        seq![hex_char(data[0] as nat / 16), hex_char(data[0] as nat % 16)] + hex_of(data.drop_first())
    }
}

/// How one term reads in assembly: the opcode's name, or `0x` and the data in hex.
pub open spec fn term_word(t: TermView) -> Seq<char> {
    match t {
        TermView::Instruction(op) => opcode_name(op),
        TermView::Data(d) => "0x"@ + hex_of(d),
    }
}

/// A script in assembly: its terms' words, separated by single spaces.
pub open spec fn script_asm(ts: Seq<TermView>) -> Seq<char>
    decreases ts.len(),
{
    if ts.len() == 0 {
        Seq::empty()
    } else if ts.len() == 1 {
        term_word(ts[0])
    } else {
        script_asm(ts.drop_last()) + " "@ + term_word(ts.last())
    }
}

/// Relies on `hex::encode`: two lower-case hex digits per byte, high nibble
/// first.
#[verifier::external_body]
fn to_hex(data: &Vec<u8>) -> (r: String)
    ensures
        r@ == hex_of(data@),
{
    hex::encode(data)
}

/// The bytes `v[lo..hi]` as a new vector.
fn copy_range(v: &Vec<u8>, lo: usize, hi: usize) -> (r: Vec<u8>)
    requires
        lo <= hi <= v@.len(),
    ensures
        r@ == v@.subrange(lo as int, hi as int),
{
    let mut out: Vec<u8> = Vec::new();
    let mut i: usize = lo;
    while i < hi
        invariant
            lo <= i <= hi <= v@.len(),
            out@ == v@.subrange(lo as int, i as int),
        decreases hi - i,
    {
        out.push(v[i]);
        i = i + 1;
        assert(out@ =~= v@.subrange(lo as int, i as int));
    }
    out
}

/// Decodes the terms that start at `bytes[i]`, appends them to `terms` and
/// returns the number of bytes they take.
fn decode_step(bytes: &Vec<u8>, i: usize, terms: &mut Vec<Term>) -> (r: Result<usize, ScriptError>)
    requires
        i < bytes@.len(),
    ensures
        match r {
            Ok(k) => {
                &&& decode_head(bytes@.skip(i as int)) matches Ok((ts, kk))
                &&& kk == k
                &&& terms_view(final(terms)@) == terms_view(old(terms)@) + ts
            },
            Err(e) => decode_head(bytes@.skip(i as int)) == Err::<(Seq<TermView>, int), ScriptError>(e),
        },
{
    let ghost s = bytes@.skip(i as int);
    let n = bytes.len();
    let b = bytes[i];
    if b == 0 {
        terms.push(Term::Instruction(Opcode::OP_0));
        assert(terms_view(terms@) =~= terms_view(old(terms)@) + seq![TermView::Instruction(Opcode::OP_0)]);
        return Ok(1);
    }
    if b > 0x4e {
        let op = match Opcode::from_byte(b) {
            Ok(op) => op,
            Err(e) => {
                return Err(e);
            },
        };
        terms.push(Term::Instruction(op));
        assert(terms_view(terms@) =~= terms_view(old(terms)@) + seq![TermView::Instruction(op)]);
        return Ok(1);
    }
    // bytes before the data, and length of the data
    let (head, len): (usize, usize) = if b <= 0x4b {
        (1, b as usize)
    } else if b == 0x4c {
        if n - i < 2 {
            return Err(ScriptError::Truncated);
        }
        if bytes[i + 1] < 76 {
            return Err(ScriptError::PushData1TooShort(bytes[i + 1]));
        }
        (2, bytes[i + 1] as usize)
    } else if b == 0x4d {
        if n - i < 3 {
            return Err(ScriptError::Truncated);
        }
        let l: u64 = (bytes[i + 1] as u64 * 256 + bytes[i + 2] as u64) * 256;
        if ((n - i - 3) as u64) < l {
            return Err(ScriptError::Truncated);
        }
        (3, l as usize)
    } else {
        if n - i < 5 {
            return Err(ScriptError::Truncated);
        }
        let l: u64 = (((bytes[i + 1] as u64 * 256 + bytes[i + 2] as u64) * 256 + bytes[i + 3] as u64)
            * 256 + bytes[i + 4] as u64) * 256;
        if ((n - i - 5) as u64) < l {
            return Err(ScriptError::Truncated);
        }
        (5, l as usize)
    };
    if n - i - head < len {
        return Err(ScriptError::Truncated);
    }
    let op = if b <= 0x4b {
        Opcode::OP_PUSHBYTES(b)
    } else if b == 0x4c {
        Opcode::OP_PUSHDATA1(bytes[i + 1])
    } else if b == 0x4d {
        Opcode::OP_PUSHDATA2([bytes[i + 1], bytes[i + 2]])
    } else {
        Opcode::OP_PUSHDATA4([bytes[i + 1], bytes[i + 2], bytes[i + 3], bytes[i + 4]])
    };
    let data = copy_range(bytes, i + head, i + head + len);
    assert(data@ =~= s.subrange(head as int, (head + len) as int));
    terms.push(Term::Instruction(op));
    terms.push(Term::Data(data));
    assert(terms_view(terms@) =~= terms_view(old(terms)@) + seq![
        TermView::Instruction(op),
        TermView::Data(data@),
    ]);
    Ok(head + len)
}

impl Script {
    /// A script made of the given terms.
    pub fn new(instr: Vec<Term>) -> (r: Self)
        ensures
            r@ == terms_view(instr@),
    {
        Self(instr)
    }

    /// Encodes the script: per instruction its tag byte, followed by the length
    /// bytes that a push-data instruction stores; per data term its bytes. The
    /// stored lengths are written as they stand, not taken from the data that
    /// follows. Fails on the first `OP_PUSHBYTES(n)` with `n` outside `1..=75`.
    pub fn to_bytes(&self) -> (r: Result<Vec<u8>, ScriptError>)
        ensures
            match r {
                Ok(b) => encode_terms(self@) == Ok::<Seq<u8>, ScriptError>(b@),
                Err(e) => encode_terms(self@) == Err::<Seq<u8>, ScriptError>(e),
            },
    {
        let mut out: Vec<u8> = Vec::new();
        let mut i: usize = 0;
        while i < self.0.len()
            invariant
                i <= self.0@.len(),
                encode_terms(self@.take(i as int)) == Ok::<Seq<u8>, ScriptError>(out@),
            decreases self.0@.len() - i,
        {
            let ghost before = out@;
            assert(self@.take(i + 1).drop_last() =~= self@.take(i as int));
            match &self.0[i] {
                Term::Data(d) => {
                    let mut j: usize = 0;
                    while j < d.len()
                        invariant
                            j <= d@.len(),
                            out@ == before + d@.take(j as int),
                        decreases d@.len() - j,
                    {
                        out.push(d[j]);
                        j = j + 1;
                        assert(out@ =~= before + d@.take(j as int));
                    }
                    assert(d@.take(d@.len() as int) =~= d@);
                },
                Term::Instruction(op) => {
                    let b = match op.to_byte() {
                        Ok(b) => b,
                        Err(e) => {
                            proof {
                                lemma_encode_error_extends(self@, i + 1);
                            }
                            return Err(e);
                        },
                    };
                    out.push(b);
                    match op {
                        Opcode::OP_PUSHDATA1(l) => {
                            out.push(*l);
                        },
                        Opcode::OP_PUSHDATA2(l) => {
                            out.push(l[0]);
                            out.push(l[1]);
                        },
                        Opcode::OP_PUSHDATA4(l) => {
                            out.push(l[0]);
                            out.push(l[1]);
                            out.push(l[2]);
                            out.push(l[3]);
                        },
                        _ => {},
                    }
                    assert(out@ =~= before + term_bytes(self@[i as int])->Ok_0);
                },
            }
            i = i + 1;
        }
        assert(self@.take(self.0@.len() as int) =~= self@);
        Ok(out)
    }

    /// The script in assembly: each instruction by its display name, each
    /// data term as `0x` and its bytes in hex, separated by single spaces.
    pub fn to_string(&self) -> (r: String)
        ensures
            r@ == script_asm(self@),
    {
        let mut s = String::new();
        let mut i: usize = 0;
        while i < self.0.len()
            invariant
                i <= self.0@.len(),
                s@ == script_asm(self@.take(i as int)),
            decreases self.0@.len() - i,
        {
            let ghost before = s@;
            assert(self@.take(i + 1).drop_last() =~= self@.take(i as int));
            if i > 0 {
                s.append(" ");
            }
            match &self.0[i] {
                Term::Instruction(op) => {
                    let name = op.display_name();
                    s.append(name.as_str());
                },
                Term::Data(d) => {
                    s.append("0x");
                    let h = to_hex(d);
                    s.append(h.as_str());
                },
            }
            if i == 0 {
                assert(s@ =~= term_word(self@[0]));
            } else {
                assert(s@ =~= before + " "@ + term_word(self@[i as int]));
            }
            i = i + 1;
        }
        assert(self@.take(self.0@.len() as int) =~= self@);
        s
    }

    /// Runs the script on `stack`, with `OP_DUP` copying the bottom item.
    /// `Ok(true)` when the stack ends empty, `Ok(false)` when the script
    /// fails, and an error at the first opcode that is not implemented.
    pub fn interpret(&self, stack: Stack) -> (r: Result<bool, ScriptError>)
        ensures
            r == run_terms(stack@, None, self@, DupFrom::Bottom),
    {
        self.interpret_with(stack, DupFrom::Bottom)
    }

    /// Runs the script on `stack`, with `OP_DUP` copying the item that `dup`
    /// names.
    pub fn interpret_with(&self, stack: Stack, dup: DupFrom) -> (r: Result<bool, ScriptError>)
        ensures
            r == run_terms(stack@, None, self@, dup),
    {
        let mut st = stack.0;
        let mut expected: Option<u8> = None;
        let mut i: usize = 0;
        assert(self@.skip(0) =~= self@);
        while i < self.0.len()
            invariant
                i <= self.0@.len(),
                run_terms(stack@, None, self@, dup) == run_terms(
                    items_view(st@),
                    expected,
                    self@.skip(i as int),
                    dup,
                ),
            decreases self.0@.len() - i,
        {
            let ghost before = items_view(st@);
            assert(self@.skip(i as int).drop_first() =~= self@.skip(i + 1));
            match &self.0[i] {
                Term::Data(d) => {
                    match expected {
                        None => {
                            return Ok(false);
                        },
                        Some(n) => {
                            if d.len() != n as usize {
                                return Ok(false);
                            }
                            let item = copy_range(d, 0, d.len());
                            assert(item@ =~= d@);
                            st.push(item);
                            assert(items_view(st@) =~= before.push(d@));
                            expected = None;
                        },
                    }
                },
                Term::Instruction(op) => {
                    match op {
                        Opcode::OP_0 | Opcode::OP_FALSE => {
                            let item = vec![0u8];
                            assert(item@ =~= seq![0u8]);
                            st.push(item);
                            assert(items_view(st@) =~= before.push(seq![0u8]));
                        },
                        Opcode::OP_PUSHBYTES(n) => {
                            expected = Some(*n);
                        },
                        Opcode::OP_DUP => {
                            if st.len() == 0 {
                                return Ok(false);
                            }
                            let at = match dup {
                                DupFrom::Bottom => 0,
                                DupFrom::Top => st.len() - 1,
                            };
                            let item = copy_range(&st[at], 0, st[at].len());
                            assert(item@ =~= before[at as int]);
                            st.push(item);
                            assert(items_view(st@) =~= before.push(before[at as int]));
                        },
                        Opcode::OP_HASH160 => {
                            if st.len() == 0 {
                                return Ok(false);
                            }
                            let top = st.pop().unwrap();
                            let digest = ripemd160(&sha256(&top));
                            st.push(digest);
                            assert(items_view(st@) =~= before.drop_last().push(hash160_of(before.last())));
                        },
                        Opcode::OP_EQUALVERIFY => {
                            if st.len() < 2 {
                                return Ok(false);
                            }
                            let lhs = st.pop().unwrap();
                            let rhs = st.pop().unwrap();
                            assert(items_view(st@) =~= before.drop_last().drop_last());
                            if !bytes_equal(&lhs, &rhs) {
                                return Ok(false);
                            }
                        },
                        _ => {
                            return Err(ScriptError::UnsupportedOpcode(*op));
                        },
                    }
                },
            }
            i = i + 1;
        }
        Ok(st.len() == 0)
    }

    /// Decodes a script from its bytes. Fails with the first error that a
    /// left-to-right scan meets: a reserved tag byte, an `OP_PUSHDATA1`
    /// length below 76, or a push that announces more bytes than are left.
    pub fn of_bytes(bytes: Vec<u8>) -> (r: Result<Self, ScriptError>)
        ensures
            match r {
                Ok(script) => decode_terms(bytes@) == Ok::<Seq<TermView>, ScriptError>(script@),
                Err(e) => decode_terms(bytes@) == Err::<Seq<TermView>, ScriptError>(e),
            },
    {
        let n = bytes.len();
        let mut terms: Vec<Term> = Vec::new();
        let mut i: usize = 0;
        assert(bytes@.skip(0) =~= bytes@);
        assert(terms_view(terms@) + decode_terms(bytes@)->Ok_0 =~= decode_terms(bytes@)->Ok_0);
        while i < n
            invariant
                i <= n == bytes@.len(),
                decode_terms(bytes@) == with_prefix(
                    terms_view(terms@),
                    decode_terms(bytes@.skip(i as int)),
                ),
            decreases n - i,
        {
            let ghost rest = bytes@.skip(i as int);
            let ghost before = terms_view(terms@);
            let k = match decode_step(&bytes, i, &mut terms) {
                Ok(k) => k,
                Err(e) => {
                    return Err(e);
                },
            };
            proof {
                lemma_decode_head_consumes(rest);
                let ts = decode_head(rest)->Ok_0.0;
                assert(rest.skip(k as int) =~= bytes@.skip(i + k));
                assert(decode_terms(rest) == with_prefix(ts, decode_terms(bytes@.skip(i + k))));
                lemma_with_prefix_twice(before, ts, decode_terms(bytes@.skip(i + k)));
            }
            i = i + k;
        }
        assert(bytes@.skip(n as int) =~= Seq::<u8>::empty());
        assert(terms_view(terms@) + Seq::<TermView>::empty() =~= terms_view(terms@));
        Ok(Script(terms))
    }

}

} // verus!
