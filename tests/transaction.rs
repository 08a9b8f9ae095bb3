use btc_script::script::Opcode;
use btc_script::script::Script;
use btc_script::script::ScriptError;
use btc_script::script::Term;
use btc_script::transaction::TransactionInput;
use btc_script::utils::CompactBytes;

#[test]
fn input_bytes() {
    let input = TransactionInput {
        txid: [0x11; 32],
        vout: [1, 0, 0, 0],
        script_sig_size: CompactBytes::B1(2),
        script_sig: Script::new(vec![Term::Instruction(Opcode::OP_PUSHBYTES(1)), Term::Data(vec![0x42])]),
        sequence: [0xff; 4],
    };
    let mut expected = vec![0x11; 32];
    expected.extend([1, 0, 0, 0, 2, 0x01, 0x42]);
    assert_eq!(input.to_bytes(), Ok(expected));
    let bad = TransactionInput {
        txid: [0; 32],
        vout: [0; 4],
        script_sig_size: CompactBytes::B1(1),
        script_sig: Script::new(vec![Term::Instruction(Opcode::OP_PUSHBYTES(80))]),
        sequence: [0; 4],
    };
    assert_eq!(bad.to_bytes(), Err(ScriptError::InvalidPushBytes(80)));
}
