//! The opcode table: tag bytes, mnemonics and display names.

use crate::script::ScriptError;
use vstd::prelude::*;

verus! {

/// An instruction of the script language.
#[allow(non_camel_case_types)]
#[derive(Debug, Clone, Copy, PartialEq, Eq)]
pub enum Opcode {
    // push value
    /// Pushes the one-byte item `[0]`; tag `0x00`.
    OP_0,
    /// Alias of `OP_0`.
    OP_FALSE,
    /// Announces that the next `n` bytes are pushed; its tag byte is `n`, valid for `1..=75`.
    OP_PUSHBYTES(u8),
    /// Tag `0x4c`, followed by one length byte, kept here.
    OP_PUSHDATA1(u8),
    /// Tag `0x4d`, followed by two length bytes, kept here as they stand.
    OP_PUSHDATA2([u8; 2]),
    /// Tag `0x4e`, followed by four length bytes, kept here as they stand.
    OP_PUSHDATA4([u8; 4]),
    OP_1NEGATE,
    OP_RESERVED,
    OP_1,
    /// Alias of `OP_1`.
    OP_TRUE,
    OP_2,
    OP_3,
    OP_4,
    OP_5,
    OP_6,
    OP_7,
    OP_8,
    OP_9,
    OP_10,
    OP_11,
    OP_12,
    OP_13,
    OP_14,
    OP_15,
    OP_16,

    // control
    OP_NOP,
    OP_VER,
    OP_IF,
    OP_NOTIF,
    OP_VERIF,
    OP_VERNOTIF,
    OP_ELSE,
    OP_ENDIF,
    OP_VERIFY,
    OP_RETURN,

    // stack operations
    OP_TOALTSTACK,
    OP_FROMALTSTACK,
    OP_2DROP,
    OP_2DUP,
    OP_3DUP,
    OP_2OVER,
    OP_2ROT,
    OP_2SWAP,
    OP_IFDUP,
    OP_DEPTH,
    OP_DROP,
    OP_DUP,
    OP_NIP,
    OP_OVER,
    OP_PICK,
    OP_ROLL,
    OP_ROT,
    OP_SWAP,
    OP_TUCK,

    // splice
    OP_CAT,
    OP_SUBSTR,
    OP_LEFT,
    OP_RIGHT,
    OP_SIZE,

    // bit logic
    OP_INVERT,
    OP_AND,
    OP_OR,
    OP_XOR,
    OP_EQUAL,
    OP_EQUALVERIFY,
    OP_RESERVED1,
    OP_RESERVED2,

    // arithmetic
    OP_1ADD,
    OP_1SUB,
    OP_2MUL,
    OP_2DIV,
    OP_NEGATE,
    OP_ABS,
    OP_NOT,
    OP_0NOTEQUAL,
    OP_ADD,
    OP_SUB,
    OP_MUL,
    OP_DIV,
    OP_MOD,
    OP_LSHIFT,
    OP_RSHIFT,
    OP_BOOLAND,
    OP_BOOLOR,
    OP_NUMEQUAL,
    OP_NUMEQUALVERIFY,
    OP_NUMNOTEQUAL,
    OP_LESSTHAN,
    OP_GREATERTHAN,
    OP_LESSTHANOREQUAL,
    OP_GREATERTHANOREQUAL,
    OP_MIN,
    OP_MAX,
    OP_WITHIN,

    // crypto
    OP_RIPEMD160,
    OP_SHA1,
    OP_SHA256,
    OP_HASH160,
    OP_HASH256,
    OP_CODESEPARATOR,
    OP_CHECKSIG,
    OP_CHECKSIGVERIFY,
    OP_CHECKMULTISIG,
    OP_CHECKMULTISIGVERIFY,

    // expansion
    OP_NOP1,
    OP_CHECKLOCKTIMEVERIFY,
    /// Former name of `OP_CHECKLOCKTIMEVERIFY`; encodes to `0xb1`.
    OP_NOP2,
    OP_CHECKSEQUENCEVERIFY,
    /// Former name of `OP_CHECKSEQUENCEVERIFY`; encodes to `0xb2`.
    OP_NOP3,
    OP_NOP4,
    OP_NOP5,
    OP_NOP6,
    OP_NOP7,
    OP_NOP8,
    OP_NOP9,
    OP_NOP10,

    // added by BIP 342 (Tapscript)
    OP_CHECKSIGADD,

    // sentinel
    /// The explicit invalid opcode, tag `0xff`.
    OP_INVALIDOPCODE,
}

/// The opcode that a tag byte stands for on its own, or `None` for the
/// reserved bytes `0xbb..=0xfe`. The three push-data tags get a zero length
/// here: their true length follows the tag in the stream.
pub open spec fn opcode_of_byte(b: u8) -> Option<Opcode> {
    if 0x01 <= b <= 0x4b {
        Some(Opcode::OP_PUSHBYTES(b))
    } else {
        match b {
            0x00 => Some(Opcode::OP_0),
            0x4c => Some(Opcode::OP_PUSHDATA1(0)),
            0x4d => Some(Opcode::OP_PUSHDATA2([0, 0])),
            0x4e => Some(Opcode::OP_PUSHDATA4([0, 0, 0, 0])),
            0x4f => Some(Opcode::OP_1NEGATE),
            0x50 => Some(Opcode::OP_RESERVED),
            0x51 => Some(Opcode::OP_1),
            0x52 => Some(Opcode::OP_2),
            0x53 => Some(Opcode::OP_3),
            0x54 => Some(Opcode::OP_4),
            0x55 => Some(Opcode::OP_5),
            0x56 => Some(Opcode::OP_6),
            0x57 => Some(Opcode::OP_7),
            0x58 => Some(Opcode::OP_8),
            0x59 => Some(Opcode::OP_9),
            0x5a => Some(Opcode::OP_10),
            0x5b => Some(Opcode::OP_11),
            0x5c => Some(Opcode::OP_12),
            0x5d => Some(Opcode::OP_13),
            0x5e => Some(Opcode::OP_14),
            0x5f => Some(Opcode::OP_15),
            0x60 => Some(Opcode::OP_16),
            0x61 => Some(Opcode::OP_NOP),
            0x62 => Some(Opcode::OP_VER),
            0x63 => Some(Opcode::OP_IF),
            0x64 => Some(Opcode::OP_NOTIF),
            0x65 => Some(Opcode::OP_VERIF),
            0x66 => Some(Opcode::OP_VERNOTIF),
            0x67 => Some(Opcode::OP_ELSE),
            0x68 => Some(Opcode::OP_ENDIF),
            0x69 => Some(Opcode::OP_VERIFY),
            0x6a => Some(Opcode::OP_RETURN),
            0x6b => Some(Opcode::OP_TOALTSTACK),
            0x6c => Some(Opcode::OP_FROMALTSTACK),
            0x6d => Some(Opcode::OP_2DROP),
            0x6e => Some(Opcode::OP_2DUP),
            0x6f => Some(Opcode::OP_3DUP),
            0x70 => Some(Opcode::OP_2OVER),
            0x71 => Some(Opcode::OP_2ROT),
            0x72 => Some(Opcode::OP_2SWAP),
            0x73 => Some(Opcode::OP_IFDUP),
            0x74 => Some(Opcode::OP_DEPTH),
            0x75 => Some(Opcode::OP_DROP),
            0x76 => Some(Opcode::OP_DUP),
            0x77 => Some(Opcode::OP_NIP),
            0x78 => Some(Opcode::OP_OVER),
            0x79 => Some(Opcode::OP_PICK),
            0x7a => Some(Opcode::OP_ROLL),
            0x7b => Some(Opcode::OP_ROT),
            0x7c => Some(Opcode::OP_SWAP),
            0x7d => Some(Opcode::OP_TUCK),
            0x7e => Some(Opcode::OP_CAT),
            0x7f => Some(Opcode::OP_SUBSTR),
            0x80 => Some(Opcode::OP_LEFT),
            0x81 => Some(Opcode::OP_RIGHT),
            0x82 => Some(Opcode::OP_SIZE),
            0x83 => Some(Opcode::OP_INVERT),
            0x84 => Some(Opcode::OP_AND),
            0x85 => Some(Opcode::OP_OR),
            0x86 => Some(Opcode::OP_XOR),
            0x87 => Some(Opcode::OP_EQUAL),
            0x88 => Some(Opcode::OP_EQUALVERIFY),
            0x89 => Some(Opcode::OP_RESERVED1),
            0x8a => Some(Opcode::OP_RESERVED2),
            0x8b => Some(Opcode::OP_1ADD),
            0x8c => Some(Opcode::OP_1SUB),
            0x8d => Some(Opcode::OP_2MUL),
            0x8e => Some(Opcode::OP_2DIV),
            0x8f => Some(Opcode::OP_NEGATE),
            0x90 => Some(Opcode::OP_ABS),
            0x91 => Some(Opcode::OP_NOT),
            0x92 => Some(Opcode::OP_0NOTEQUAL),
            0x93 => Some(Opcode::OP_ADD),
            0x94 => Some(Opcode::OP_SUB),
            0x95 => Some(Opcode::OP_MUL),
            0x96 => Some(Opcode::OP_DIV),
            0x97 => Some(Opcode::OP_MOD),
            0x98 => Some(Opcode::OP_LSHIFT),
            0x99 => Some(Opcode::OP_RSHIFT),
            0x9a => Some(Opcode::OP_BOOLAND),
            0x9b => Some(Opcode::OP_BOOLOR),
            0x9c => Some(Opcode::OP_NUMEQUAL),
            0x9d => Some(Opcode::OP_NUMEQUALVERIFY),
            0x9e => Some(Opcode::OP_NUMNOTEQUAL),
            0x9f => Some(Opcode::OP_LESSTHAN),
            0xa0 => Some(Opcode::OP_GREATERTHAN),
            0xa1 => Some(Opcode::OP_LESSTHANOREQUAL),
            0xa2 => Some(Opcode::OP_GREATERTHANOREQUAL),
            0xa3 => Some(Opcode::OP_MIN),
            0xa4 => Some(Opcode::OP_MAX),
            0xa5 => Some(Opcode::OP_WITHIN),
            0xa6 => Some(Opcode::OP_RIPEMD160),
            0xa7 => Some(Opcode::OP_SHA1),
            0xa8 => Some(Opcode::OP_SHA256),
            0xa9 => Some(Opcode::OP_HASH160),
            0xaa => Some(Opcode::OP_HASH256),
            0xab => Some(Opcode::OP_CODESEPARATOR),
            0xac => Some(Opcode::OP_CHECKSIG),
            0xad => Some(Opcode::OP_CHECKSIGVERIFY),
            0xae => Some(Opcode::OP_CHECKMULTISIG),
            0xaf => Some(Opcode::OP_CHECKMULTISIGVERIFY),
            0xb0 => Some(Opcode::OP_NOP1),
            0xb1 => Some(Opcode::OP_CHECKLOCKTIMEVERIFY),
            0xb2 => Some(Opcode::OP_CHECKSEQUENCEVERIFY),
            0xb3 => Some(Opcode::OP_NOP4),
            0xb4 => Some(Opcode::OP_NOP5),
            0xb5 => Some(Opcode::OP_NOP6),
            0xb6 => Some(Opcode::OP_NOP7),
            0xb7 => Some(Opcode::OP_NOP8),
            0xb8 => Some(Opcode::OP_NOP9),
            0xb9 => Some(Opcode::OP_NOP10),
            0xba => Some(Opcode::OP_CHECKSIGADD),
            0xff => Some(Opcode::OP_INVALIDOPCODE),
            _ => None,
        }
    }
}

/// The tag byte of an opcode. `OP_PUSHBYTES(n)` has one only for `1 <= n <= 75`.
pub open spec fn byte_of_opcode(op: Opcode) -> Result<u8, ScriptError> {
    match op {
        Opcode::OP_PUSHBYTES(n) => if 1 <= n <= 75 {
            Ok(n)
        } else {
            Err(ScriptError::InvalidPushBytes(n))
        },
        Opcode::OP_PUSHDATA1(_) => Ok(0x4c),
        Opcode::OP_PUSHDATA2(_) => Ok(0x4d),
        Opcode::OP_PUSHDATA4(_) => Ok(0x4e),
        Opcode::OP_0 => Ok(0x00),
        Opcode::OP_FALSE => Ok(0x00),
        Opcode::OP_1NEGATE => Ok(0x4f),
        Opcode::OP_RESERVED => Ok(0x50),
        Opcode::OP_1 => Ok(0x51),
        Opcode::OP_TRUE => Ok(0x51),
        Opcode::OP_2 => Ok(0x52),
        Opcode::OP_3 => Ok(0x53),
        Opcode::OP_4 => Ok(0x54),
        Opcode::OP_5 => Ok(0x55),
        Opcode::OP_6 => Ok(0x56),
        Opcode::OP_7 => Ok(0x57),
        Opcode::OP_8 => Ok(0x58),
        Opcode::OP_9 => Ok(0x59),
        Opcode::OP_10 => Ok(0x5a),
        Opcode::OP_11 => Ok(0x5b),
        Opcode::OP_12 => Ok(0x5c),
        Opcode::OP_13 => Ok(0x5d),
        Opcode::OP_14 => Ok(0x5e),
        Opcode::OP_15 => Ok(0x5f),
        Opcode::OP_16 => Ok(0x60),
        Opcode::OP_NOP => Ok(0x61),
        Opcode::OP_VER => Ok(0x62),
        Opcode::OP_IF => Ok(0x63),
        Opcode::OP_NOTIF => Ok(0x64),
        Opcode::OP_VERIF => Ok(0x65),
        Opcode::OP_VERNOTIF => Ok(0x66),
        Opcode::OP_ELSE => Ok(0x67),
        Opcode::OP_ENDIF => Ok(0x68),
        Opcode::OP_VERIFY => Ok(0x69),
        Opcode::OP_RETURN => Ok(0x6a),
        Opcode::OP_TOALTSTACK => Ok(0x6b),
        Opcode::OP_FROMALTSTACK => Ok(0x6c),
        Opcode::OP_2DROP => Ok(0x6d),
        Opcode::OP_2DUP => Ok(0x6e),
        Opcode::OP_3DUP => Ok(0x6f),
        Opcode::OP_2OVER => Ok(0x70),
        Opcode::OP_2ROT => Ok(0x71),
        Opcode::OP_2SWAP => Ok(0x72),
        Opcode::OP_IFDUP => Ok(0x73),
        Opcode::OP_DEPTH => Ok(0x74),
        Opcode::OP_DROP => Ok(0x75),
        Opcode::OP_DUP => Ok(0x76),
        Opcode::OP_NIP => Ok(0x77),
        Opcode::OP_OVER => Ok(0x78),
        Opcode::OP_PICK => Ok(0x79),
        Opcode::OP_ROLL => Ok(0x7a),
        Opcode::OP_ROT => Ok(0x7b),
        Opcode::OP_SWAP => Ok(0x7c),
        Opcode::OP_TUCK => Ok(0x7d),
        Opcode::OP_CAT => Ok(0x7e),
        Opcode::OP_SUBSTR => Ok(0x7f),
        Opcode::OP_LEFT => Ok(0x80),
        Opcode::OP_RIGHT => Ok(0x81),
        Opcode::OP_SIZE => Ok(0x82),
        Opcode::OP_INVERT => Ok(0x83),
        Opcode::OP_AND => Ok(0x84),
        Opcode::OP_OR => Ok(0x85),
        Opcode::OP_XOR => Ok(0x86),
        Opcode::OP_EQUAL => Ok(0x87),
        Opcode::OP_EQUALVERIFY => Ok(0x88),
        Opcode::OP_RESERVED1 => Ok(0x89),
        Opcode::OP_RESERVED2 => Ok(0x8a),
        Opcode::OP_1ADD => Ok(0x8b),
        Opcode::OP_1SUB => Ok(0x8c),
        Opcode::OP_2MUL => Ok(0x8d),
        Opcode::OP_2DIV => Ok(0x8e),
        Opcode::OP_NEGATE => Ok(0x8f),
        Opcode::OP_ABS => Ok(0x90),
        Opcode::OP_NOT => Ok(0x91),
        Opcode::OP_0NOTEQUAL => Ok(0x92),
        Opcode::OP_ADD => Ok(0x93),
        Opcode::OP_SUB => Ok(0x94),
        Opcode::OP_MUL => Ok(0x95),
        Opcode::OP_DIV => Ok(0x96),
        Opcode::OP_MOD => Ok(0x97),
        Opcode::OP_LSHIFT => Ok(0x98),
        Opcode::OP_RSHIFT => Ok(0x99),
        Opcode::OP_BOOLAND => Ok(0x9a),
        Opcode::OP_BOOLOR => Ok(0x9b),
        Opcode::OP_NUMEQUAL => Ok(0x9c),
        Opcode::OP_NUMEQUALVERIFY => Ok(0x9d),
        Opcode::OP_NUMNOTEQUAL => Ok(0x9e),
        Opcode::OP_LESSTHAN => Ok(0x9f),
        Opcode::OP_GREATERTHAN => Ok(0xa0),
        Opcode::OP_LESSTHANOREQUAL => Ok(0xa1),
        Opcode::OP_GREATERTHANOREQUAL => Ok(0xa2),
        Opcode::OP_MIN => Ok(0xa3),
        Opcode::OP_MAX => Ok(0xa4),
        Opcode::OP_WITHIN => Ok(0xa5),
        Opcode::OP_RIPEMD160 => Ok(0xa6),
        Opcode::OP_SHA1 => Ok(0xa7),
        Opcode::OP_SHA256 => Ok(0xa8),
        Opcode::OP_HASH160 => Ok(0xa9),
        Opcode::OP_HASH256 => Ok(0xaa),
        Opcode::OP_CODESEPARATOR => Ok(0xab),
        Opcode::OP_CHECKSIG => Ok(0xac),
        Opcode::OP_CHECKSIGVERIFY => Ok(0xad),
        Opcode::OP_CHECKMULTISIG => Ok(0xae),
        Opcode::OP_CHECKMULTISIGVERIFY => Ok(0xaf),
        Opcode::OP_NOP1 => Ok(0xb0),
        Opcode::OP_CHECKLOCKTIMEVERIFY => Ok(0xb1),
        Opcode::OP_NOP2 => Ok(0xb1),
        Opcode::OP_CHECKSEQUENCEVERIFY => Ok(0xb2),
        Opcode::OP_NOP3 => Ok(0xb2),
        Opcode::OP_NOP4 => Ok(0xb3),
        Opcode::OP_NOP5 => Ok(0xb4),
        Opcode::OP_NOP6 => Ok(0xb5),
        Opcode::OP_NOP7 => Ok(0xb6),
        Opcode::OP_NOP8 => Ok(0xb7),
        Opcode::OP_NOP9 => Ok(0xb8),
        Opcode::OP_NOP10 => Ok(0xb9),
        Opcode::OP_CHECKSIGADD => Ok(0xba),
        Opcode::OP_INVALIDOPCODE => Ok(0xff),
    }
}

/// The mnemonic of an opcode, without its payload.
pub open spec fn opcode_mnemonic(op: Opcode) -> Seq<char> {
    match op {
        Opcode::OP_PUSHBYTES(_) => "OP_PUSHBYTES"@,
        Opcode::OP_PUSHDATA1(_) => "OP_PUSHDATA1 "@,
        Opcode::OP_PUSHDATA2(_) => "OP_PUSHDATA2 "@,
        Opcode::OP_PUSHDATA4(_) => "OP_PUSHDATA4 "@,
        Opcode::OP_0 => "OP_0"@,
        Opcode::OP_FALSE => "OP_FALSE"@,
        Opcode::OP_1NEGATE => "OP_1NEGATE"@,
        Opcode::OP_RESERVED => "OP_RESERVED"@,
        Opcode::OP_1 => "OP_1"@,
        Opcode::OP_TRUE => "OP_TRUE"@,
        Opcode::OP_2 => "OP_2"@,
        Opcode::OP_3 => "OP_3"@,
        Opcode::OP_4 => "OP_4"@,
        Opcode::OP_5 => "OP_5"@,
        Opcode::OP_6 => "OP_6"@,
        Opcode::OP_7 => "OP_7"@,
        Opcode::OP_8 => "OP_8"@,
        Opcode::OP_9 => "OP_9"@,
        Opcode::OP_10 => "OP_10"@,
        Opcode::OP_11 => "OP_11"@,
        Opcode::OP_12 => "OP_12"@,
        Opcode::OP_13 => "OP_13"@,
        Opcode::OP_14 => "OP_14"@,
        Opcode::OP_15 => "OP_15"@,
        Opcode::OP_16 => "OP_16"@,
        Opcode::OP_NOP => "OP_NOP"@,
        Opcode::OP_VER => "OP_VER"@,
        Opcode::OP_IF => "OP_IF"@,
        Opcode::OP_NOTIF => "OP_NOTIF"@,
        Opcode::OP_VERIF => "OP_VERIF"@,
        Opcode::OP_VERNOTIF => "OP_VERNOTIF"@,
        Opcode::OP_ELSE => "OP_ELSE"@,
        Opcode::OP_ENDIF => "OP_ENDIF"@,
        Opcode::OP_VERIFY => "OP_VERIFY"@,
        Opcode::OP_RETURN => "OP_RETURN"@,
        Opcode::OP_TOALTSTACK => "OP_TOALTSTACK"@,
        Opcode::OP_FROMALTSTACK => "OP_FROMALTSTACK"@,
        Opcode::OP_2DROP => "OP_2DROP"@,
        Opcode::OP_2DUP => "OP_2DUP"@,
        Opcode::OP_3DUP => "OP_3DUP"@,
        Opcode::OP_2OVER => "OP_2OVER"@,
        Opcode::OP_2ROT => "OP_2ROT"@,
        Opcode::OP_2SWAP => "OP_2SWAP"@,
        Opcode::OP_IFDUP => "OP_IFDUP"@,
        Opcode::OP_DEPTH => "OP_DEPTH"@,
        Opcode::OP_DROP => "OP_DROP"@,
        Opcode::OP_DUP => "OP_DUP"@,
        Opcode::OP_NIP => "OP_NIP"@,
        Opcode::OP_OVER => "OP_OVER"@,
        Opcode::OP_PICK => "OP_PICK"@,
        Opcode::OP_ROLL => "OP_ROLL"@,
        Opcode::OP_ROT => "OP_ROT"@,
        Opcode::OP_SWAP => "OP_SWAP"@,
        Opcode::OP_TUCK => "OP_TUCK"@,
        Opcode::OP_CAT => "OP_CAT"@,
        Opcode::OP_SUBSTR => "OP_SUBSTR"@,
        Opcode::OP_LEFT => "OP_LEFT"@,
        Opcode::OP_RIGHT => "OP_RIGHT"@,
        Opcode::OP_SIZE => "OP_SIZE"@,
        Opcode::OP_INVERT => "OP_INVERT"@,
        Opcode::OP_AND => "OP_AND"@,
        Opcode::OP_OR => "OP_OR"@,
        Opcode::OP_XOR => "OP_XOR"@,
        Opcode::OP_EQUAL => "OP_EQUAL"@,
        Opcode::OP_EQUALVERIFY => "OP_EQUALVERIFY"@,
        Opcode::OP_RESERVED1 => "OP_RESERVED1"@,
        Opcode::OP_RESERVED2 => "OP_RESERVED2"@,
        Opcode::OP_1ADD => "OP_1ADD"@,
        Opcode::OP_1SUB => "OP_1SUB"@,
        Opcode::OP_2MUL => "OP_2MUL"@,
        Opcode::OP_2DIV => "OP_2DIV"@,
        Opcode::OP_NEGATE => "OP_NEGATE"@,
        Opcode::OP_ABS => "OP_ABS"@,
        Opcode::OP_NOT => "OP_NOT"@,
        Opcode::OP_0NOTEQUAL => "OP_0NOTEQUAL"@,
        Opcode::OP_ADD => "OP_ADD"@,
        Opcode::OP_SUB => "OP_SUB"@,
        Opcode::OP_MUL => "OP_MUL"@,
        Opcode::OP_DIV => "OP_DIV"@,
        Opcode::OP_MOD => "OP_MOD"@,
        Opcode::OP_LSHIFT => "OP_LSHIFT"@,
        Opcode::OP_RSHIFT => "OP_RSHIFT"@,
        Opcode::OP_BOOLAND => "OP_BOOLAND"@,
        Opcode::OP_BOOLOR => "OP_BOOLOR"@,
        Opcode::OP_NUMEQUAL => "OP_NUMEQUAL"@,
        Opcode::OP_NUMEQUALVERIFY => "OP_NUMEQUALVERIFY"@,
        Opcode::OP_NUMNOTEQUAL => "OP_NUMNOTEQUAL"@,
        Opcode::OP_LESSTHAN => "OP_LESSTHAN"@,
        Opcode::OP_GREATERTHAN => "OP_GREATERTHAN"@,
        Opcode::OP_LESSTHANOREQUAL => "OP_LESSTHANOREQUAL"@,
        Opcode::OP_GREATERTHANOREQUAL => "OP_GREATERTHANOREQUAL"@,
        Opcode::OP_MIN => "OP_MIN"@,
        Opcode::OP_MAX => "OP_MAX"@,
        Opcode::OP_WITHIN => "OP_WITHIN"@,
        Opcode::OP_RIPEMD160 => "OP_RIPEMD160"@,
        Opcode::OP_SHA1 => "OP_SHA1"@,
        Opcode::OP_SHA256 => "OP_SHA256"@,
        Opcode::OP_HASH160 => "OP_HASH160"@,
        Opcode::OP_HASH256 => "OP_HASH256"@,
        Opcode::OP_CODESEPARATOR => "OP_CODESEPARATOR"@,
        Opcode::OP_CHECKSIG => "OP_CHECKSIG"@,
        Opcode::OP_CHECKSIGVERIFY => "OP_CHECKSIGVERIFY"@,
        Opcode::OP_CHECKMULTISIG => "OP_CHECKMULTISIG"@,
        Opcode::OP_CHECKMULTISIGVERIFY => "OP_CHECKMULTISIGVERIFY"@,
        Opcode::OP_NOP1 => "OP_NOP1"@,
        Opcode::OP_CHECKLOCKTIMEVERIFY => "OP_CHECKLOCKTIMEVERIFY"@,
        Opcode::OP_NOP2 => "OP_NOP2"@,
        Opcode::OP_CHECKSEQUENCEVERIFY => "OP_CHECKSEQUENCEVERIFY"@,
        Opcode::OP_NOP3 => "OP_NOP3"@,
        Opcode::OP_NOP4 => "OP_NOP4"@,
        Opcode::OP_NOP5 => "OP_NOP5"@,
        Opcode::OP_NOP6 => "OP_NOP6"@,
        Opcode::OP_NOP7 => "OP_NOP7"@,
        Opcode::OP_NOP8 => "OP_NOP8"@,
        Opcode::OP_NOP9 => "OP_NOP9"@,
        Opcode::OP_NOP10 => "OP_NOP10"@,
        Opcode::OP_CHECKSIGADD => "OP_CHECKSIGADD"@,
        Opcode::OP_INVALIDOPCODE => "OP_INVALIDOPCODE"@,
    }
}

/// The opcodes that are disabled.
pub open spec fn opcode_is_disabled(op: Opcode) -> bool {
        ||| op is OP_CAT
        ||| op is OP_SUBSTR
        ||| op is OP_LEFT
        ||| op is OP_RIGHT
        ||| op is OP_INVERT
        ||| op is OP_AND
        ||| op is OP_OR
        ||| op is OP_XOR
        ||| op is OP_2MUL
        ||| op is OP_2DIV
        ||| op is OP_MUL
        ||| op is OP_DIV
        ||| op is OP_MOD
        ||| op is OP_LSHIFT
        ||| op is OP_RSHIFT
        ||| op is OP_CHECKMULTISIG
        ||| op is OP_CHECKMULTISIGVERIFY
}

/// Every byte that stands for an opcode on its own, but the three push-data
/// tags, is the tag byte of that opcode.
pub proof fn lemma_byte_round_trip(b: u8)
    requires
        opcode_of_byte(b) is Some,
        b != 0x4c && b != 0x4d && b != 0x4e,
    ensures
        byte_of_opcode(opcode_of_byte(b)->Some_0) == Ok::<u8, ScriptError>(b),
{
}

/// The opcode that the tag byte of `op` reads back as: aliases become the
/// opcode they stand for, and push-data opcodes lose their stored length.
pub open spec fn canonical_opcode(op: Opcode) -> Opcode {
    match op {
        Opcode::OP_FALSE => Opcode::OP_0,
        Opcode::OP_TRUE => Opcode::OP_1,
        Opcode::OP_NOP2 => Opcode::OP_CHECKLOCKTIMEVERIFY,
        Opcode::OP_NOP3 => Opcode::OP_CHECKSEQUENCEVERIFY,
        Opcode::OP_PUSHDATA1(_) => Opcode::OP_PUSHDATA1(0),
        Opcode::OP_PUSHDATA2(_) => Opcode::OP_PUSHDATA2([0, 0]),
        Opcode::OP_PUSHDATA4(_) => Opcode::OP_PUSHDATA4([0, 0, 0, 0]),
        _ => op,
    }
}

/// Every opcode with a tag byte reads back from it as itself, up to aliases
/// and the stored length of a push-data opcode.
pub proof fn lemma_opcode_round_trip(op: Opcode)
    requires
        byte_of_opcode(op) is Ok,
    ensures
        opcode_of_byte(byte_of_opcode(op)->Ok_0) == Some(canonical_opcode(op)),
{
}

/// The character of a hex digit `d < 16`, lower case.
pub open spec fn hex_char(d: nat) -> char {
    if d == 0 {
        '0'
    } else if d == 1 {
        '1'
    } else if d == 2 {
        '2'
    } else if d == 3 {
        '3'
    } else if d == 4 {
        '4'
    } else if d == 5 {
        '5'
    } else if d == 6 {
        '6'
    } else if d == 7 {
        '7'
    } else if d == 8 {
        '8'
    } else if d == 9 {
        '9'
    } else if d == 10 {
        'a'
    } else if d == 11 {
        'b'
    } else if d == 12 {
        'c'
    } else if d == 13 {
        'd'
    } else if d == 14 {
        'e'
    } else {
        'f'
    }
}

/// `n` in decimal, without leading zeros.
pub open spec fn decimal_of(n: nat) -> Seq<char>
    decreases n,
{
    if n < 10 {
        seq![hex_char(n)]
    } else {
        decimal_of(n / 10) + seq![hex_char(n % 10)]
    }
}

/// A byte in hex, lower case, without a leading zero.
pub open spec fn hex_unpadded(b: u8) -> Seq<char> {
    if b < 16 {
        seq![hex_char(b as nat)]
    } else {
        seq![hex_char(b as nat / 16), hex_char(b as nat % 16)]
    }
}

/// The display name of an opcode: its mnemonic, then the count of
/// `OP_PUSHBYTES` in decimal, or the length bytes of a push-data opcode each
/// in hex.
pub open spec fn opcode_name(op: Opcode) -> Seq<char> {
    opcode_mnemonic(op) + match op {
        Opcode::OP_PUSHBYTES(n) => decimal_of(n as nat),
        Opcode::OP_PUSHDATA1(l) => hex_unpadded(l),
        Opcode::OP_PUSHDATA2(l) => hex_unpadded(l[0]) + hex_unpadded(l[1]),
        Opcode::OP_PUSHDATA4(l) => hex_unpadded(l[0]) + hex_unpadded(l[1]) + hex_unpadded(l[2])
            + hex_unpadded(l[3]),
        _ => Seq::empty(),
    }
}

/// The hex digit `d < 16` as a string.
fn hex_digit(d: u8) -> (r: &'static str)
    requires
        d < 16,
    ensures
        r@ == seq![hex_char(d as nat)],
{
    match d {
        0 => {
            proof {
                reveal_strlit("0");
            }
            "0"
        },
        1 => {
            proof {
                reveal_strlit("1");
            }
            "1"
        },
        2 => {
            proof {
                reveal_strlit("2");
            }
            "2"
        },
        3 => {
            proof {
                reveal_strlit("3");
            }
            "3"
        },
        4 => {
            proof {
                reveal_strlit("4");
            }
            "4"
        },
        5 => {
            proof {
                reveal_strlit("5");
            }
            "5"
        },
        6 => {
            proof {
                reveal_strlit("6");
            }
            "6"
        },
        7 => {
            proof {
                reveal_strlit("7");
            }
            "7"
        },
        8 => {
            proof {
                reveal_strlit("8");
            }
            "8"
        },
        9 => {
            proof {
                reveal_strlit("9");
            }
            "9"
        },
        10 => {
            proof {
                reveal_strlit("a");
            }
            "a"
        },
        11 => {
            proof {
                reveal_strlit("b");
            }
            "b"
        },
        12 => {
            proof {
                reveal_strlit("c");
            }
            "c"
        },
        13 => {
            proof {
                reveal_strlit("d");
            }
            "d"
        },
        14 => {
            proof {
                reveal_strlit("e");
            }
            "e"
        },
        _ => {
            proof {
                reveal_strlit("f");
            }
            "f"
        },
    }
}

/// Appends `n` in decimal to `s`.
fn push_decimal(s: &mut String, n: u8)
    ensures
        final(s)@ == old(s)@ + decimal_of(n as nat),
{
    reveal_with_fuel(decimal_of, 3);
    if n >= 100 {
        s.append(hex_digit(n / 100));
    }
    if n >= 10 {
        s.append(hex_digit((n / 10) % 10));
    }
    s.append(hex_digit(n % 10));
    if n >= 100 {
        assert(decimal_of(n as nat) =~= seq![hex_char(n as nat / 100)] + seq![hex_char((n as nat / 10) % 10)] + seq![hex_char(n as nat % 10)]);
    } else if n >= 10 {
        assert(decimal_of(n as nat) =~= seq![hex_char(n as nat / 10)] + seq![hex_char(n as nat % 10)]);
    }
    assert(final(s)@ =~= old(s)@ + decimal_of(n as nat));
}

/// Appends `b` in hex, without a leading zero, to `s`.
fn push_hex_unpadded(s: &mut String, b: u8)
    ensures
        final(s)@ == old(s)@ + hex_unpadded(b),
{
    if b >= 16 {
        s.append(hex_digit(b / 16));
    }
    s.append(hex_digit(b % 16));
    assert(final(s)@ =~= old(s)@ + hex_unpadded(b));
}

impl Opcode {
    /// The opcode that a tag byte stands for on its own. The push-data tags
    /// `0x4c`, `0x4d`, `0x4e` get a zero length: the script decoder reads the
    /// true one from the bytes that follow.
    pub fn from_byte(b: u8) -> (r: Result<Opcode, ScriptError>)
        ensures
            r == match opcode_of_byte(b) {
                Some(op) => Ok(op),
                None => Err(ScriptError::InvalidOpcode(b)),
            },
    {
        if 0x01 <= b && b <= 0x4b {
            return Ok(Opcode::OP_PUSHBYTES(b));
        }
        let op = match b {
            0x00 => Opcode::OP_0,
            0x4c => Opcode::OP_PUSHDATA1(0),
            0x4d => Opcode::OP_PUSHDATA2([0, 0]),
            0x4e => Opcode::OP_PUSHDATA4([0, 0, 0, 0]),
            0x4f => Opcode::OP_1NEGATE,
            0x50 => Opcode::OP_RESERVED,
            0x51 => Opcode::OP_1,
            0x52 => Opcode::OP_2,
            0x53 => Opcode::OP_3,
            0x54 => Opcode::OP_4,
            0x55 => Opcode::OP_5,
            0x56 => Opcode::OP_6,
            0x57 => Opcode::OP_7,
            0x58 => Opcode::OP_8,
            0x59 => Opcode::OP_9,
            0x5a => Opcode::OP_10,
            0x5b => Opcode::OP_11,
            0x5c => Opcode::OP_12,
            0x5d => Opcode::OP_13,
            0x5e => Opcode::OP_14,
            0x5f => Opcode::OP_15,
            0x60 => Opcode::OP_16,
            0x61 => Opcode::OP_NOP,
            0x62 => Opcode::OP_VER,
            0x63 => Opcode::OP_IF,
            0x64 => Opcode::OP_NOTIF,
            0x65 => Opcode::OP_VERIF,
            0x66 => Opcode::OP_VERNOTIF,
            0x67 => Opcode::OP_ELSE,
            0x68 => Opcode::OP_ENDIF,
            0x69 => Opcode::OP_VERIFY,
            0x6a => Opcode::OP_RETURN,
            0x6b => Opcode::OP_TOALTSTACK,
            0x6c => Opcode::OP_FROMALTSTACK,
            0x6d => Opcode::OP_2DROP,
            0x6e => Opcode::OP_2DUP,
            0x6f => Opcode::OP_3DUP,
            0x70 => Opcode::OP_2OVER,
            0x71 => Opcode::OP_2ROT,
            0x72 => Opcode::OP_2SWAP,
            0x73 => Opcode::OP_IFDUP,
            0x74 => Opcode::OP_DEPTH,
            0x75 => Opcode::OP_DROP,
            0x76 => Opcode::OP_DUP,
            0x77 => Opcode::OP_NIP,
            0x78 => Opcode::OP_OVER,
            0x79 => Opcode::OP_PICK,
            0x7a => Opcode::OP_ROLL,
            0x7b => Opcode::OP_ROT,
            0x7c => Opcode::OP_SWAP,
            0x7d => Opcode::OP_TUCK,
            0x7e => Opcode::OP_CAT,
            0x7f => Opcode::OP_SUBSTR,
            0x80 => Opcode::OP_LEFT,
            0x81 => Opcode::OP_RIGHT,
            0x82 => Opcode::OP_SIZE,
            0x83 => Opcode::OP_INVERT,
            0x84 => Opcode::OP_AND,
            0x85 => Opcode::OP_OR,
            0x86 => Opcode::OP_XOR,
            0x87 => Opcode::OP_EQUAL,
            0x88 => Opcode::OP_EQUALVERIFY,
            0x89 => Opcode::OP_RESERVED1,
            0x8a => Opcode::OP_RESERVED2,
            0x8b => Opcode::OP_1ADD,
            0x8c => Opcode::OP_1SUB,
            0x8d => Opcode::OP_2MUL,
            0x8e => Opcode::OP_2DIV,
            0x8f => Opcode::OP_NEGATE,
            0x90 => Opcode::OP_ABS,
            0x91 => Opcode::OP_NOT,
            0x92 => Opcode::OP_0NOTEQUAL,
            0x93 => Opcode::OP_ADD,
            0x94 => Opcode::OP_SUB,
            0x95 => Opcode::OP_MUL,
            0x96 => Opcode::OP_DIV,
            0x97 => Opcode::OP_MOD,
            0x98 => Opcode::OP_LSHIFT,
            0x99 => Opcode::OP_RSHIFT,
            0x9a => Opcode::OP_BOOLAND,
            0x9b => Opcode::OP_BOOLOR,
            0x9c => Opcode::OP_NUMEQUAL,
            0x9d => Opcode::OP_NUMEQUALVERIFY,
            0x9e => Opcode::OP_NUMNOTEQUAL,
            0x9f => Opcode::OP_LESSTHAN,
            0xa0 => Opcode::OP_GREATERTHAN,
            0xa1 => Opcode::OP_LESSTHANOREQUAL,
            0xa2 => Opcode::OP_GREATERTHANOREQUAL,
            0xa3 => Opcode::OP_MIN,
            0xa4 => Opcode::OP_MAX,
            0xa5 => Opcode::OP_WITHIN,
            0xa6 => Opcode::OP_RIPEMD160,
            0xa7 => Opcode::OP_SHA1,
            0xa8 => Opcode::OP_SHA256,
            0xa9 => Opcode::OP_HASH160,
            0xaa => Opcode::OP_HASH256,
            0xab => Opcode::OP_CODESEPARATOR,
            0xac => Opcode::OP_CHECKSIG,
            0xad => Opcode::OP_CHECKSIGVERIFY,
            0xae => Opcode::OP_CHECKMULTISIG,
            0xaf => Opcode::OP_CHECKMULTISIGVERIFY,
            0xb0 => Opcode::OP_NOP1,
            0xb1 => Opcode::OP_CHECKLOCKTIMEVERIFY,
            0xb2 => Opcode::OP_CHECKSEQUENCEVERIFY,
            0xb3 => Opcode::OP_NOP4,
            0xb4 => Opcode::OP_NOP5,
            0xb5 => Opcode::OP_NOP6,
            0xb6 => Opcode::OP_NOP7,
            0xb7 => Opcode::OP_NOP8,
            0xb8 => Opcode::OP_NOP9,
            0xb9 => Opcode::OP_NOP10,
            0xba => Opcode::OP_CHECKSIGADD,
            0xff => Opcode::OP_INVALIDOPCODE,
            _ => {
                return Err(ScriptError::InvalidOpcode(b));
            },
        };
        Ok(op)
    }

    /// The tag byte of the opcode. Fails for `OP_PUSHBYTES(n)` unless
    /// `1 <= n <= 75`.
    pub fn to_byte(self) -> (r: Result<u8, ScriptError>)
        ensures
            r == byte_of_opcode(self),
    {
        let b: u8 = match self {
            Opcode::OP_PUSHBYTES(n) => {
                if n == 0 || n >= 76 {
                    return Err(ScriptError::InvalidPushBytes(n));
                }
                n
            },
            Opcode::OP_PUSHDATA1(_) => 0x4c,
            Opcode::OP_PUSHDATA2(_) => 0x4d,
            Opcode::OP_PUSHDATA4(_) => 0x4e,
            Opcode::OP_0 => 0x00,
            Opcode::OP_FALSE => 0x00,
            Opcode::OP_1NEGATE => 0x4f,
            Opcode::OP_RESERVED => 0x50,
            Opcode::OP_1 => 0x51,
            Opcode::OP_TRUE => 0x51,
            Opcode::OP_2 => 0x52,
            Opcode::OP_3 => 0x53,
            Opcode::OP_4 => 0x54,
            Opcode::OP_5 => 0x55,
            Opcode::OP_6 => 0x56,
            Opcode::OP_7 => 0x57,
            Opcode::OP_8 => 0x58,
            Opcode::OP_9 => 0x59,
            Opcode::OP_10 => 0x5a,
            Opcode::OP_11 => 0x5b,
            Opcode::OP_12 => 0x5c,
            Opcode::OP_13 => 0x5d,
            Opcode::OP_14 => 0x5e,
            Opcode::OP_15 => 0x5f,
            Opcode::OP_16 => 0x60,
            Opcode::OP_NOP => 0x61,
            Opcode::OP_VER => 0x62,
            Opcode::OP_IF => 0x63,
            Opcode::OP_NOTIF => 0x64,
            Opcode::OP_VERIF => 0x65,
            Opcode::OP_VERNOTIF => 0x66,
            Opcode::OP_ELSE => 0x67,
            Opcode::OP_ENDIF => 0x68,
            Opcode::OP_VERIFY => 0x69,
            Opcode::OP_RETURN => 0x6a,
            Opcode::OP_TOALTSTACK => 0x6b,
            Opcode::OP_FROMALTSTACK => 0x6c,
            Opcode::OP_2DROP => 0x6d,
            Opcode::OP_2DUP => 0x6e,
            Opcode::OP_3DUP => 0x6f,
            Opcode::OP_2OVER => 0x70,
            Opcode::OP_2ROT => 0x71,
            Opcode::OP_2SWAP => 0x72,
            Opcode::OP_IFDUP => 0x73,
            Opcode::OP_DEPTH => 0x74,
            Opcode::OP_DROP => 0x75,
            Opcode::OP_DUP => 0x76,
            Opcode::OP_NIP => 0x77,
            Opcode::OP_OVER => 0x78,
            Opcode::OP_PICK => 0x79,
            Opcode::OP_ROLL => 0x7a,
            Opcode::OP_ROT => 0x7b,
            Opcode::OP_SWAP => 0x7c,
            Opcode::OP_TUCK => 0x7d,
            Opcode::OP_CAT => 0x7e,
            Opcode::OP_SUBSTR => 0x7f,
            Opcode::OP_LEFT => 0x80,
            Opcode::OP_RIGHT => 0x81,
            Opcode::OP_SIZE => 0x82,
            Opcode::OP_INVERT => 0x83,
            Opcode::OP_AND => 0x84,
            Opcode::OP_OR => 0x85,
            Opcode::OP_XOR => 0x86,
            Opcode::OP_EQUAL => 0x87,
            Opcode::OP_EQUALVERIFY => 0x88,
            Opcode::OP_RESERVED1 => 0x89,
            Opcode::OP_RESERVED2 => 0x8a,
            Opcode::OP_1ADD => 0x8b,
            Opcode::OP_1SUB => 0x8c,
            Opcode::OP_2MUL => 0x8d,
            Opcode::OP_2DIV => 0x8e,
            Opcode::OP_NEGATE => 0x8f,
            Opcode::OP_ABS => 0x90,
            Opcode::OP_NOT => 0x91,
            Opcode::OP_0NOTEQUAL => 0x92,
            Opcode::OP_ADD => 0x93,
            Opcode::OP_SUB => 0x94,
            Opcode::OP_MUL => 0x95,
            Opcode::OP_DIV => 0x96,
            Opcode::OP_MOD => 0x97,
            Opcode::OP_LSHIFT => 0x98,
            Opcode::OP_RSHIFT => 0x99,
            Opcode::OP_BOOLAND => 0x9a,
            Opcode::OP_BOOLOR => 0x9b,
            Opcode::OP_NUMEQUAL => 0x9c,
            Opcode::OP_NUMEQUALVERIFY => 0x9d,
            Opcode::OP_NUMNOTEQUAL => 0x9e,
            Opcode::OP_LESSTHAN => 0x9f,
            Opcode::OP_GREATERTHAN => 0xa0,
            Opcode::OP_LESSTHANOREQUAL => 0xa1,
            Opcode::OP_GREATERTHANOREQUAL => 0xa2,
            Opcode::OP_MIN => 0xa3,
            Opcode::OP_MAX => 0xa4,
            Opcode::OP_WITHIN => 0xa5,
            Opcode::OP_RIPEMD160 => 0xa6,
            Opcode::OP_SHA1 => 0xa7,
            Opcode::OP_SHA256 => 0xa8,
            Opcode::OP_HASH160 => 0xa9,
            Opcode::OP_HASH256 => 0xaa,
            Opcode::OP_CODESEPARATOR => 0xab,
            Opcode::OP_CHECKSIG => 0xac,
            Opcode::OP_CHECKSIGVERIFY => 0xad,
            Opcode::OP_CHECKMULTISIG => 0xae,
            Opcode::OP_CHECKMULTISIGVERIFY => 0xaf,
            Opcode::OP_NOP1 => 0xb0,
            Opcode::OP_CHECKLOCKTIMEVERIFY => 0xb1,
            Opcode::OP_NOP2 => 0xb1,
            Opcode::OP_CHECKSEQUENCEVERIFY => 0xb2,
            Opcode::OP_NOP3 => 0xb2,
            Opcode::OP_NOP4 => 0xb3,
            Opcode::OP_NOP5 => 0xb4,
            Opcode::OP_NOP6 => 0xb5,
            Opcode::OP_NOP7 => 0xb6,
            Opcode::OP_NOP8 => 0xb7,
            Opcode::OP_NOP9 => 0xb8,
            Opcode::OP_NOP10 => 0xb9,
            Opcode::OP_CHECKSIGADD => 0xba,
            Opcode::OP_INVALIDOPCODE => 0xff,
        };
        Ok(b)
    }

    /// The mnemonic of the opcode, without its payload.
    pub fn mnemonic(&self) -> (r: &'static str)
        ensures
            r@ == opcode_mnemonic(*self),
    {
        match self {
            Opcode::OP_PUSHBYTES(_) => "OP_PUSHBYTES",
            Opcode::OP_PUSHDATA1(_) => "OP_PUSHDATA1 ",
            Opcode::OP_PUSHDATA2(_) => "OP_PUSHDATA2 ",
            Opcode::OP_PUSHDATA4(_) => "OP_PUSHDATA4 ",
            Opcode::OP_0 => "OP_0",
            Opcode::OP_FALSE => "OP_FALSE",
            Opcode::OP_1NEGATE => "OP_1NEGATE",
            Opcode::OP_RESERVED => "OP_RESERVED",
            Opcode::OP_1 => "OP_1",
            Opcode::OP_TRUE => "OP_TRUE",
            Opcode::OP_2 => "OP_2",
            Opcode::OP_3 => "OP_3",
            Opcode::OP_4 => "OP_4",
            Opcode::OP_5 => "OP_5",
            Opcode::OP_6 => "OP_6",
            Opcode::OP_7 => "OP_7",
            Opcode::OP_8 => "OP_8",
            Opcode::OP_9 => "OP_9",
            Opcode::OP_10 => "OP_10",
            Opcode::OP_11 => "OP_11",
            Opcode::OP_12 => "OP_12",
            Opcode::OP_13 => "OP_13",
            Opcode::OP_14 => "OP_14",
            Opcode::OP_15 => "OP_15",
            Opcode::OP_16 => "OP_16",
            Opcode::OP_NOP => "OP_NOP",
            Opcode::OP_VER => "OP_VER",
            Opcode::OP_IF => "OP_IF",
            Opcode::OP_NOTIF => "OP_NOTIF",
            Opcode::OP_VERIF => "OP_VERIF",
            Opcode::OP_VERNOTIF => "OP_VERNOTIF",
            Opcode::OP_ELSE => "OP_ELSE",
            Opcode::OP_ENDIF => "OP_ENDIF",
            Opcode::OP_VERIFY => "OP_VERIFY",
            Opcode::OP_RETURN => "OP_RETURN",
            Opcode::OP_TOALTSTACK => "OP_TOALTSTACK",
            Opcode::OP_FROMALTSTACK => "OP_FROMALTSTACK",
            Opcode::OP_2DROP => "OP_2DROP",
            Opcode::OP_2DUP => "OP_2DUP",
            Opcode::OP_3DUP => "OP_3DUP",
            Opcode::OP_2OVER => "OP_2OVER",
            Opcode::OP_2ROT => "OP_2ROT",
            Opcode::OP_2SWAP => "OP_2SWAP",
            Opcode::OP_IFDUP => "OP_IFDUP",
            Opcode::OP_DEPTH => "OP_DEPTH",
            Opcode::OP_DROP => "OP_DROP",
            Opcode::OP_DUP => "OP_DUP",
            Opcode::OP_NIP => "OP_NIP",
            Opcode::OP_OVER => "OP_OVER",
            Opcode::OP_PICK => "OP_PICK",
            Opcode::OP_ROLL => "OP_ROLL",
            Opcode::OP_ROT => "OP_ROT",
            Opcode::OP_SWAP => "OP_SWAP",
            Opcode::OP_TUCK => "OP_TUCK",
            Opcode::OP_CAT => "OP_CAT",
            Opcode::OP_SUBSTR => "OP_SUBSTR",
            Opcode::OP_LEFT => "OP_LEFT",
            Opcode::OP_RIGHT => "OP_RIGHT",
            Opcode::OP_SIZE => "OP_SIZE",
            Opcode::OP_INVERT => "OP_INVERT",
            Opcode::OP_AND => "OP_AND",
            Opcode::OP_OR => "OP_OR",
            Opcode::OP_XOR => "OP_XOR",
            Opcode::OP_EQUAL => "OP_EQUAL",
            Opcode::OP_EQUALVERIFY => "OP_EQUALVERIFY",
            Opcode::OP_RESERVED1 => "OP_RESERVED1",
            Opcode::OP_RESERVED2 => "OP_RESERVED2",
            Opcode::OP_1ADD => "OP_1ADD",
            Opcode::OP_1SUB => "OP_1SUB",
            Opcode::OP_2MUL => "OP_2MUL",
            Opcode::OP_2DIV => "OP_2DIV",
            Opcode::OP_NEGATE => "OP_NEGATE",
            Opcode::OP_ABS => "OP_ABS",
            Opcode::OP_NOT => "OP_NOT",
            Opcode::OP_0NOTEQUAL => "OP_0NOTEQUAL",
            Opcode::OP_ADD => "OP_ADD",
            Opcode::OP_SUB => "OP_SUB",
            Opcode::OP_MUL => "OP_MUL",
            Opcode::OP_DIV => "OP_DIV",
            Opcode::OP_MOD => "OP_MOD",
            Opcode::OP_LSHIFT => "OP_LSHIFT",
            Opcode::OP_RSHIFT => "OP_RSHIFT",
            Opcode::OP_BOOLAND => "OP_BOOLAND",
            Opcode::OP_BOOLOR => "OP_BOOLOR",
            Opcode::OP_NUMEQUAL => "OP_NUMEQUAL",
            Opcode::OP_NUMEQUALVERIFY => "OP_NUMEQUALVERIFY",
            Opcode::OP_NUMNOTEQUAL => "OP_NUMNOTEQUAL",
            Opcode::OP_LESSTHAN => "OP_LESSTHAN",
            Opcode::OP_GREATERTHAN => "OP_GREATERTHAN",
            Opcode::OP_LESSTHANOREQUAL => "OP_LESSTHANOREQUAL",
            Opcode::OP_GREATERTHANOREQUAL => "OP_GREATERTHANOREQUAL",
            Opcode::OP_MIN => "OP_MIN",
            Opcode::OP_MAX => "OP_MAX",
            Opcode::OP_WITHIN => "OP_WITHIN",
            Opcode::OP_RIPEMD160 => "OP_RIPEMD160",
            Opcode::OP_SHA1 => "OP_SHA1",
            Opcode::OP_SHA256 => "OP_SHA256",
            Opcode::OP_HASH160 => "OP_HASH160",
            Opcode::OP_HASH256 => "OP_HASH256",
            Opcode::OP_CODESEPARATOR => "OP_CODESEPARATOR",
            Opcode::OP_CHECKSIG => "OP_CHECKSIG",
            Opcode::OP_CHECKSIGVERIFY => "OP_CHECKSIGVERIFY",
            Opcode::OP_CHECKMULTISIG => "OP_CHECKMULTISIG",
            Opcode::OP_CHECKMULTISIGVERIFY => "OP_CHECKMULTISIGVERIFY",
            Opcode::OP_NOP1 => "OP_NOP1",
            Opcode::OP_CHECKLOCKTIMEVERIFY => "OP_CHECKLOCKTIMEVERIFY",
            Opcode::OP_NOP2 => "OP_NOP2",
            Opcode::OP_CHECKSEQUENCEVERIFY => "OP_CHECKSEQUENCEVERIFY",
            Opcode::OP_NOP3 => "OP_NOP3",
            Opcode::OP_NOP4 => "OP_NOP4",
            Opcode::OP_NOP5 => "OP_NOP5",
            Opcode::OP_NOP6 => "OP_NOP6",
            Opcode::OP_NOP7 => "OP_NOP7",
            Opcode::OP_NOP8 => "OP_NOP8",
            Opcode::OP_NOP9 => "OP_NOP9",
            Opcode::OP_NOP10 => "OP_NOP10",
            Opcode::OP_CHECKSIGADD => "OP_CHECKSIGADD",
            Opcode::OP_INVALIDOPCODE => "OP_INVALIDOPCODE",
        }
    }

    /// The display name: the mnemonic, then the count of `OP_PUSHBYTES` in
    /// decimal, or the stored length bytes of a push-data opcode in hex.
    pub fn display_name(&self) -> (r: String)
        ensures
            r@ == opcode_name(*self),
    {
        let mut s = String::new();
        s.append(self.mnemonic());
        match self {
            Opcode::OP_PUSHBYTES(n) => push_decimal(&mut s, *n),
            Opcode::OP_PUSHDATA1(l) => push_hex_unpadded(&mut s, *l),
            Opcode::OP_PUSHDATA2(l) => {
                push_hex_unpadded(&mut s, l[0]);
                push_hex_unpadded(&mut s, l[1]);
            },
            Opcode::OP_PUSHDATA4(l) => {
                push_hex_unpadded(&mut s, l[0]);
                push_hex_unpadded(&mut s, l[1]);
                push_hex_unpadded(&mut s, l[2]);
                push_hex_unpadded(&mut s, l[3]);
            },
            _ => {},
        }
        assert(s@ =~= opcode_name(*self));
        s
    }

    /// Whether the opcode is activated, that is not one of the disabled ones.
    pub fn is_activated(self) -> (r: bool)
        ensures
            r == !opcode_is_disabled(self),
    {
        !matches!(
            self,
            Opcode::OP_CAT
                | Opcode::OP_SUBSTR
                | Opcode::OP_LEFT
                | Opcode::OP_RIGHT
                | Opcode::OP_INVERT
                | Opcode::OP_AND
                | Opcode::OP_OR
                | Opcode::OP_XOR
                | Opcode::OP_2MUL
                | Opcode::OP_2DIV
                | Opcode::OP_MUL
                | Opcode::OP_DIV
                | Opcode::OP_MOD
                | Opcode::OP_LSHIFT
                | Opcode::OP_RSHIFT
                | Opcode::OP_CHECKMULTISIG
                | Opcode::OP_CHECKMULTISIGVERIFY
        )
    }
}

} // verus!
