use btc_script::opcode::Opcode;
use btc_script::script::ScriptError;

#[test]
fn byte_round_trip_for_every_tag() {
    for b in 0u8..=255 {
        match Opcode::from_byte(b) {
            Ok(op) => {
                if b != 0x4c && b != 0x4d && b != 0x4e {
                    assert_eq!(op.to_byte(), Ok(b));
                }
            }
            Err(e) => {
                assert!((0xbb..=0xfe).contains(&b));
                assert_eq!(e, ScriptError::InvalidOpcode(b));
            }
        }
    }
}

#[test]
fn pushbytes_zero_and_76_have_no_byte() {
    assert_eq!(Opcode::OP_PUSHBYTES(0).to_byte(), Err(ScriptError::InvalidPushBytes(0)));
    assert_eq!(Opcode::OP_PUSHBYTES(76).to_byte(), Err(ScriptError::InvalidPushBytes(76)));
    assert_eq!(Opcode::OP_PUSHBYTES(75).to_byte(), Ok(75));
    assert_eq!(Opcode::OP_PUSHBYTES(1).to_byte(), Ok(1));
}

#[test]
fn aliases_and_push_data_tags() {
    assert_eq!(Opcode::OP_FALSE.to_byte(), Ok(0x00));
    assert_eq!(Opcode::OP_TRUE.to_byte(), Ok(0x51));
    assert_eq!(Opcode::OP_NOP2.to_byte(), Ok(0xb1));
    assert_eq!(Opcode::OP_NOP3.to_byte(), Ok(0xb2));
    assert_eq!(Opcode::OP_PUSHDATA1(7).to_byte(), Ok(0x4c));
    assert_eq!(Opcode::OP_PUSHDATA2([1, 2]).to_byte(), Ok(0x4d));
    assert_eq!(Opcode::OP_PUSHDATA4([1, 2, 3, 4]).to_byte(), Ok(0x4e));
    assert_eq!(Opcode::from_byte(0x4c), Ok(Opcode::OP_PUSHDATA1(0)));
    assert_eq!(Opcode::from_byte(0x4d), Ok(Opcode::OP_PUSHDATA2([0, 0])));
    assert_eq!(Opcode::from_byte(0x4e), Ok(Opcode::OP_PUSHDATA4([0, 0, 0, 0])));
    assert_eq!(Opcode::from_byte(0xb1), Ok(Opcode::OP_CHECKLOCKTIMEVERIFY));
    assert_eq!(Opcode::from_byte(0xff), Ok(Opcode::OP_INVALIDOPCODE));
    assert_eq!(Opcode::from_byte(0x76), Ok(Opcode::OP_DUP));
    assert_eq!(Opcode::from_byte(0xbb), Err(ScriptError::InvalidOpcode(0xbb)));
}

#[test]
fn display_names() {
    assert_eq!(Opcode::OP_0.display_name(), "OP_0");
    assert_eq!(Opcode::OP_CHECKSIG.display_name(), "OP_CHECKSIG");
    assert_eq!(Opcode::OP_PUSHBYTES(4).display_name(), "OP_PUSHBYTES4");
    assert_eq!(Opcode::OP_PUSHBYTES(69).display_name(), "OP_PUSHBYTES69");
    assert_eq!(Opcode::OP_PUSHBYTES(200).display_name(), "OP_PUSHBYTES200");
    assert_eq!(Opcode::OP_PUSHDATA1(0x4c).display_name(), "OP_PUSHDATA1 4c");
    assert_eq!(Opcode::OP_PUSHDATA2([0x00, 0x01]).display_name(), "OP_PUSHDATA2 01");
    assert_eq!(Opcode::OP_PUSHDATA4([0x00, 0x00, 0x01, 0xab]).display_name(), "OP_PUSHDATA4 001ab");
}

#[test]
fn activation() {
    assert!(!Opcode::OP_CAT.is_activated());
    assert!(!Opcode::OP_CHECKMULTISIGVERIFY.is_activated());
    assert!(!Opcode::OP_2MUL.is_activated());
    assert!(Opcode::OP_DUP.is_activated());
    assert!(Opcode::OP_CHECKSIG.is_activated());
    assert!(Opcode::OP_PUSHBYTES(3).is_activated());
}
