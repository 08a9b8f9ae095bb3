use btc_script::script::DupFrom;
use btc_script::script::Opcode;
use btc_script::script::Script;
use btc_script::script::ScriptError;
use btc_script::script::Stack;
use btc_script::script::Term;

#[test]
fn test_to_bytes() {
    // P2PKH
    {
        let data = "3045022100c233c3a8a510e03ad18b0a24694ef00c78101bfd5ac075b8c1037952ce26e91e02205aa5f8f88f29bb4ad5808ebc12abfd26bd791256f367b04c6d955f01f28a772401";
        let hex_data: Vec<u8> = hex::decode(data).unwrap();
        let data2 = "03f0609c81a45f8cab67fc2d050c21b1acd3d37c7acfd54041be6601ab4cef4f31";
        let hex_data2: Vec<u8> = hex::decode(data2).unwrap();
        let script = Script(vec![
            Term::Instruction(Opcode::OP_PUSHBYTES(72)),
            Term::Data(hex_data),
            Term::Instruction(Opcode::OP_PUSHBYTES(33)),
            Term::Data(hex_data2),
        ]);

        let exp_output = "483045022100c233c3a8a510e03ad18b0a24694ef00c78101bfd5ac075b8c1037952ce26e91e02205aa5f8f88f29bb4ad5808ebc12abfd26bd791256f367b04c6d955f01f28a7724012103f0609c81a45f8cab67fc2d050c21b1acd3d37c7acfd54041be6601ab4cef4f31";
        let exp_output = hex::decode(exp_output).unwrap();
        assert_eq!(exp_output, script.to_bytes().unwrap());
    }
    // P2PK
    {
        let data = "30440220576497b7e6f9b553c0aba0d8929432550e092db9c130aae37b84b545e7f4a36c022066cb982ed80608372c139d7bb9af335423d5280350fe3e06bd510e695480914f01";
        let data: Vec<u8> = hex::decode(data).unwrap();
        let script = Script(vec![
            Term::Instruction(Opcode::OP_PUSHBYTES(71)),
            Term::Data(data),
        ]);
        let exp_output = "4730440220576497b7e6f9b553c0aba0d8929432550e092db9c130aae37b84b545e7f4a36c022066cb982ed80608372c139d7bb9af335423d5280350fe3e06bd510e695480914f01";
        let exp_output = hex::decode(exp_output).unwrap();
        assert_eq!(exp_output, script.to_bytes().unwrap());
    }
    // P2MS
    {
        let data = "304502204aa764d2b30f572cc4ef17c8ed8536c46f595a08ba41a611b14f32c60282c150022100ede45011be565dc225cc9be292638cf7270b129934fe8758634716b8f7a34c0701";
        let data = hex::decode(data).unwrap();
        let script = Script(vec![
            Term::Instruction(Opcode::OP_0),
            Term::Instruction(Opcode::OP_PUSHBYTES(72)),
            Term::Data(data),
        ]);
        let exp_output = "0048304502204aa764d2b30f572cc4ef17c8ed8536c46f595a08ba41a611b14f32c60282c150022100ede45011be565dc225cc9be292638cf7270b129934fe8758634716b8f7a34c0701";
        let exp_output = hex::decode(exp_output).unwrap();
        assert_eq!(exp_output, script.to_bytes().unwrap());
    }
    // P2SH
    {
        let data = "3044022100d0ed946330182916da16a6149cd313a4b1a7b41591ee52fb3e79d64e36139d66021f6ccf173040ef24cb45c4db3e9c771c938a1ba2cf8d2404416f70886e360af401";
        let data = hex::decode(data).unwrap();

        let data2 = "5121022afc20bf379bc96a2f4e9e63ffceb8652b2b6a097f63fbee6ecec2a49a48010e2103a767c7221e9f15f870f1ad9311f5ab937d79fcaeee15bb2c722bca515581b4c052ae";
        let data2 = hex::decode(data2).unwrap();
        let script = Script(vec![
            Term::Instruction(Opcode::OP_0),
            Term::Instruction(Opcode::OP_PUSHBYTES(71)),
            Term::Data(data),
            Term::Instruction(Opcode::OP_PUSHBYTES(71)),
            Term::Data(data2),
        ]);
        let exp_output = "00473044022100d0ed946330182916da16a6149cd313a4b1a7b41591ee52fb3e79d64e36139d66021f6ccf173040ef24cb45c4db3e9c771c938a1ba2cf8d2404416f70886e360af401475121022afc20bf379bc96a2f4e9e63ffceb8652b2b6a097f63fbee6ecec2a49a48010e2103a767c7221e9f15f870f1ad9311f5ab937d79fcaeee15bb2c722bca515581b4c052ae";
        let exp_output = hex::decode(exp_output).unwrap();
        assert_eq!(exp_output, script.to_bytes().unwrap());
    }
    // Genesis bloc - coinbase
    {
        let data = "5468652054696d65732030332f4a616e2f32303039204368616e63656c6c6f72206f6e206272696e6b206f66207365636f6e64206261696c6f757420666f722062616e6b73";
        let data = hex::decode(data).unwrap();
        let script = Script(vec![
            Term::Instruction(Opcode::OP_PUSHBYTES(4)),
            Term::Data(hex::decode("ffff001d").unwrap()),
            Term::Instruction(Opcode::OP_PUSHBYTES(1)),
            Term::Data(hex::decode("04").unwrap()),
            Term::Instruction(Opcode::OP_PUSHBYTES(69)),
            Term::Data(data),
        ]);
        let exp_output = "04ffff001d0104455468652054696d65732030332f4a616e2f32303039204368616e63656c6c6f72206f6e206272696e6b206f66207365636f6e64206261696c6f757420666f722062616e6b73";
        let exp_output = hex::decode(exp_output).unwrap();
        assert_eq!(exp_output, script.to_bytes().unwrap());
    }
}

#[test]
fn test_script_of_bytes() {
    let asm_hex = "76a91455ae51684c43435da751ac8d2173b2652eb6410588ac";
    let script = hex::decode(asm_hex).unwrap();
    let exp_script = Script::new(vec![
        Term::Instruction(Opcode::OP_DUP),
        Term::Instruction(Opcode::OP_HASH160),
        Term::Instruction(Opcode::OP_PUSHBYTES(20)),
        Term::Data(vec![
            85, 174, 81, 104, 76, 67, 67, 93, 167, 81, 172, 141, 33, 115, 178, 101, 46, 182,
            65, 5,
        ]),
        Term::Instruction(Opcode::OP_EQUALVERIFY),
        Term::Instruction(Opcode::OP_CHECKSIG),
    ]);
    assert_eq!(Script::of_bytes(script).unwrap(), exp_script)
}

#[test]
fn test_decode_pushdata1() {
    let data = "aaaaaaaaaaaaaaaaaaaaaaaaaaaaaaaaaaaaaaaaaaaaaaaaaaaaaaaaaaaaaaaaaaaaaaaaaaaaaaaaaaaaaaaaaaaaaaaaaaaaaaaaaaaaaaaaaaaaaaaaaaaaaaaaaaaaaaaaaaaaaaaaaaaaaaaa";
    let data = hex::decode(data).unwrap();
    let script = Script(vec![
        Term::Instruction(Opcode::OP_PUSHDATA1(0x4c)),
        Term::Data(data),
    ]);
    let exp_output = "4c4caaaaaaaaaaaaaaaaaaaaaaaaaaaaaaaaaaaaaaaaaaaaaaaaaaaaaaaaaaaaaaaaaaaaaaaaaaaaaaaaaaaaaaaaaaaaaaaaaaaaaaaaaaaaaaaaaaaaaaaaaaaaaaaaaaaaaaaaaaaaaaaaaaaaaaaa";
    let exp_output = hex::decode(exp_output).unwrap();
    assert_eq!(exp_output, script.to_bytes().unwrap());
}

#[test]
fn test_decode_pushdata2() {
    let data = "aaaaaaaaaaaaaaaaaaaaaaaaaaaaaaaaaaaaaaaaaaaaaaaaaaaaaaaaaaaaaaaaaaaaaaaaaaaaaaaaaaaaaaaaaaaaaaaaaaaaaaaaaaaaaaaaaaaaaaaaaaaaaaaaaaaaaaaaaaaaaaaaaaaaaaaaaaaaaaaaaaaaaaaaaaaaaaaaaaaaaaaaaaaaaaaaaaaaaaaaaaaaaaaaaaaaaaaaaaaaaaaaaaaaaaaaaaaaaaaaaaaaaaaaaaaaaaaaaaaaaaaaaaaaaaaaaaaaaaaaaaaaaaaaaaaaaaaaaaaaaaaaaaaaaaaaaaaaaaaaaaaaaaaaaaaaaaaaaaaaaaaaaaaaaaaaaaaaaaaaaaaaaaaaaaaaaaaaaaaaaaaaaaaaaaaaaaaaaaaaaaaaaaaaaaaaaaaaaaaaaaaaaaaaaaaaaaaaaaaaaaaaaaaaaaaaaaaaaaaaaaaaaaaaaaaaaaaaaaaaaaaaaaaaaaaaaaaaaaaaaaaaaaaaaaaa";
    let data = hex::decode(data).unwrap();
    let script = Script(vec![
        Term::Instruction(Opcode::OP_PUSHDATA2([0x00, 0x01])),
        Term::Data(data),
    ]);
    let exp_output = "4d0001aaaaaaaaaaaaaaaaaaaaaaaaaaaaaaaaaaaaaaaaaaaaaaaaaaaaaaaaaaaaaaaaaaaaaaaaaaaaaaaaaaaaaaaaaaaaaaaaaaaaaaaaaaaaaaaaaaaaaaaaaaaaaaaaaaaaaaaaaaaaaaaaaaaaaaaaaaaaaaaaaaaaaaaaaaaaaaaaaaaaaaaaaaaaaaaaaaaaaaaaaaaaaaaaaaaaaaaaaaaaaaaaaaaaaaaaaaaaaaaaaaaaaaaaaaaaaaaaaaaaaaaaaaaaaaaaaaaaaaaaaaaaaaaaaaaaaaaaaaaaaaaaaaaaaaaaaaaaaaaaaaaaaaaaaaaaaaaaaaaaaaaaaaaaaaaaaaaaaaaaaaaaaaaaaaaaaaaaaaaaaaaaaaaaaaaaaaaaaaaaaaaaaaaaaaaaaaaaaaaaaaaaaaaaaaaaaaaaaaaaaaaaaaaaaaaaaaaaaaaaaaaaaaaaaaaaaaaaaaaaaaaaaaaaaaaaaaaaaaaaaaaaaaaaaaaa";
    let exp_output = hex::decode(exp_output).unwrap();
    assert_eq!(exp_output, script.to_bytes().unwrap());
}

#[test]
fn test_decode_pushdata4() {
    let data = "ab".repeat(1 << 16);
    let script = Script(vec![
        Term::Instruction(Opcode::OP_PUSHDATA4([0x00, 0x00, 0x01, 0x00])),
        Term::Data(hex::decode(data).unwrap()),
    ]);
    script.to_bytes().unwrap();
    assert_eq!(script.to_bytes().unwrap().len(), 5 + (1 << 16))
}

#[test]
fn test_serialize_and_deserialize() {
    let data = "5468652054696d65732030332f4a616e2f32303039204368616e63656c6c6f72206f6e206272696e6b206f66207365636f6e64206261696c6f757420666f722062616e6b73";
    let data = hex::decode(data).unwrap();
    let script = Script(vec![
        Term::Instruction(Opcode::OP_PUSHBYTES(4)),
        Term::Data(hex::decode("ffff001d").unwrap()),
        Term::Instruction(Opcode::OP_PUSHBYTES(1)),
        Term::Data(hex::decode("04").unwrap()),
        Term::Instruction(Opcode::OP_PUSHBYTES(69)),
        Term::Data(data),
    ]);
    // encoding and decoding agree
    let res: Vec<u8> = script.to_bytes().unwrap();
    let script2: Script = Script::of_bytes(res).unwrap();
    assert_eq!(script, script2);
}

#[test]
fn test_serialize_and_deserialize_pushdata1() {
    let data = "aaaaaaaaaaaaaaaaaaaaaaaaaaaaaaaaaaaaaaaaaaaaaaaaaaaaaaaaaaaaaaaaaaaaaaaaaaaaaaaaaaaaaaaaaaaaaaaaaaaaaaaaaaaaaaaaaaaaaaaaaaaaaaaaaaaaaaaaaaaaaaaaaaaaaaaa";
    let data = hex::decode(data).unwrap();
    let script = Script(vec![
        Term::Instruction(Opcode::OP_PUSHDATA1(0x4c)),
        Term::Data(data),
    ]);
    // encoding and decoding agree
    let res: Vec<u8> = script.to_bytes().unwrap();
    let script2: Script = Script::of_bytes(res).unwrap();
    assert_eq!(script, script2);
}

#[test]
fn test_serialize_and_deserialize_pushdata2() {
    let data = "aaaaaaaaaaaaaaaaaaaaaaaaaaaaaaaaaaaaaaaaaaaaaaaaaaaaaaaaaaaaaaaaaaaaaaaaaaaaaaaaaaaaaaaaaaaaaaaaaaaaaaaaaaaaaaaaaaaaaaaaaaaaaaaaaaaaaaaaaaaaaaaaaaaaaaaaaaaaaaaaaaaaaaaaaaaaaaaaaaaaaaaaaaaaaaaaaaaaaaaaaaaaaaaaaaaaaaaaaaaaaaaaaaaaaaaaaaaaaaaaaaaaaaaaaaaaaaaaaaaaaaaaaaaaaaaaaaaaaaaaaaaaaaaaaaaaaaaaaaaaaaaaaaaaaaaaaaaaaaaaaaaaaaaaaaaaaaaaaaaaaaaaaaaaaaaaaaaaaaaaaaaaaaaaaaaaaaaaaaaaaaaaaaaaaaaaaaaaaaaaaaaaaaaaaaaaaaaaaaaaaaaaaaaaaaaaaaaaaaaaaaaaaaaaaaaaaaaaaaaaaaaaaaaaaaaaaaaaaaaaaaaaaaaaaaaaaaaaaaaaaaaaaaaaaaaa";
    let data = hex::decode(data).unwrap();
    let script = Script(vec![
        Term::Instruction(Opcode::OP_PUSHDATA2([0x00, 0x01])),
        Term::Data(data),
    ]);
    // encoding and decoding agree
    let res: Vec<u8> = script.to_bytes().unwrap();
    let script2: Script = Script::of_bytes(res).unwrap();
    assert_eq!(script, script2);
}

#[test]
fn test_serialize_and_deserialize_pushdata4() {
    let data = "ab".repeat(1 << 16);
    let script = Script(vec![
        Term::Instruction(Opcode::OP_PUSHDATA4([0x00, 0x00, 0x01, 0x00])),
        Term::Data(hex::decode(data).unwrap()),
    ]);
    // encoding and decoding agree
    let res: Vec<u8> = script.to_bytes().unwrap();
    let script2: Script = Script::of_bytes(res).unwrap();
    assert_eq!(script, script2);
}


#[test]
fn test_display_asm() {
    let data = "5468652054696d65732030332f4a616e2f32303039204368616e63656c6c6f72206f6e206272696e6b206f66207365636f6e64206261696c6f757420666f722062616e6b73";
    let data = hex::decode(data).unwrap();
    let script = Script(vec![
        Term::Instruction(Opcode::OP_PUSHBYTES(4)),
        Term::Data(hex::decode("ffff001d").unwrap()),
        Term::Instruction(Opcode::OP_PUSHBYTES(1)),
        Term::Data(hex::decode("04").unwrap()),
        Term::Instruction(Opcode::OP_PUSHBYTES(69)),
        Term::Data(data),
    ]);

    assert_eq!(
        script.to_string(),
        "OP_PUSHBYTES4 0xffff001d OP_PUSHBYTES1 0x04 OP_PUSHBYTES69 0x5468652054696d65732030332f4a616e2f32303039204368616e63656c6c6f72206f6e206272696e6b206f66207365636f6e64206261696c6f757420666f722062616e6b73"
    );
}

#[test]
fn test_interpreter_p2pkh() {
    let asm_hex = "76a91455ae51684c43435da751ac8d2173b2652eb6410588ac";
    let script = Script::of_bytes(hex::decode(asm_hex).unwrap()).unwrap();
    let addr: Vec<u8> = bs58::decode("18p3G8gQ3oKy4U9EqnWs7UZswdqAMhE3r8")
        .into_vec()
        .unwrap();
    // the address carries the pushed hash after its version byte
    assert_eq!(addr[1..21].to_vec(), hex::decode("55ae51684c43435da751ac8d2173b2652eb64105").unwrap());
    let mut initial_stack = Stack::new();
    initial_stack.push(addr);
    println!("Script is {}", script.to_string());
    // the hash of the whole address is not the pushed hash: the check fails
    // before OP_CHECKSIG is reached
    assert_eq!(script.interpret(initial_stack), Ok(false));
}

fn pubkey() -> Vec<u8> {
    hex::decode("03f0609c81a45f8cab67fc2d050c21b1acd3d37c7acfd54041be6601ab4cef4f31").unwrap()
}

fn pubkey_hash() -> Vec<u8> {
    hex::decode("55ae51684c43435da751ac8d2173b2652eb64105").unwrap()
}

#[test]
fn hash160_of_pubkey_matches_pushed_hash() {
    let script = Script::new(vec![
        Term::Instruction(Opcode::OP_HASH160),
        Term::Instruction(Opcode::OP_PUSHBYTES(20)),
        Term::Data(pubkey_hash()),
        Term::Instruction(Opcode::OP_EQUALVERIFY),
    ]);
    let mut stack = Stack::new();
    stack.push(pubkey());
    assert_eq!(script.interpret(stack), Ok(true));
}

#[test]
fn p2pkh_prefix_leaves_the_pubkey() {
    let script = Script::new(vec![
        Term::Instruction(Opcode::OP_DUP),
        Term::Instruction(Opcode::OP_HASH160),
        Term::Instruction(Opcode::OP_PUSHBYTES(20)),
        Term::Data(pubkey_hash()),
        Term::Instruction(Opcode::OP_EQUALVERIFY),
    ]);
    let mut stack = Stack::new();
    stack.push(pubkey());
    // the check passes, but the copied key stays, so the stack is not empty
    assert_eq!(script.interpret(stack), Ok(false));
    let mut other = Stack::new();
    other.push(vec![1, 2, 3]);
    assert_eq!(script.interpret(other), Ok(false));
}

#[test]
fn checksig_is_unsupported() {
    let script = Script::of_bytes(hex::decode("76a91455ae51684c43435da751ac8d2173b2652eb6410588ac").unwrap()).unwrap();
    let mut stack = Stack::new();
    stack.push(pubkey());
    assert_eq!(
        script.interpret(stack),
        Err(ScriptError::UnsupportedOpcode(Opcode::OP_CHECKSIG))
    );
}

#[test]
fn leading_data_fails() {
    let script = Script::new(vec![Term::Data(vec![1, 2]), Term::Instruction(Opcode::OP_CHECKSIG)]);
    assert_eq!(script.interpret(Stack::new()), Ok(false));
    let mut stack = Stack::new();
    stack.push(vec![7]);
    assert_eq!(script.interpret(stack), Ok(false));
}

#[test]
fn data_of_wrong_length_fails() {
    let script = Script::new(vec![Term::Instruction(Opcode::OP_PUSHBYTES(2)), Term::Data(vec![1, 2, 3])]);
    assert_eq!(script.interpret(Stack::new()), Ok(false));
}

#[test]
fn data_clears_the_announced_length() {
    let script = Script::new(vec![
        Term::Instruction(Opcode::OP_PUSHBYTES(1)),
        Term::Data(vec![5]),
        Term::Data(vec![6]),
    ]);
    assert_eq!(script.interpret(Stack::new()), Ok(false));
}

#[test]
fn pushed_items_make_the_script_fail() {
    let script = Script::new(vec![Term::Instruction(Opcode::OP_0)]);
    assert_eq!(script.interpret(Stack::new()), Ok(false));
    let script = Script::new(vec![Term::Instruction(Opcode::OP_TRUE)]);
    assert_eq!(
        script.interpret(Stack::new()),
        Err(ScriptError::UnsupportedOpcode(Opcode::OP_TRUE))
    );
    assert_eq!(Script::new(vec![]).interpret(Stack::new()), Ok(true));
    let mut stack = Stack::new();
    stack.push(vec![1]);
    assert_eq!(Script::new(vec![]).interpret(stack), Ok(false));
}

#[test]
fn equalverify_compares_the_two_top_items() {
    let script = Script::new(vec![
        Term::Instruction(Opcode::OP_0),
        Term::Instruction(Opcode::OP_FALSE),
        Term::Instruction(Opcode::OP_EQUALVERIFY),
    ]);
    assert_eq!(script.interpret(Stack::new()), Ok(true));
    let script = Script::new(vec![
        Term::Instruction(Opcode::OP_0),
        Term::Instruction(Opcode::OP_PUSHBYTES(1)),
        Term::Data(vec![1]),
        Term::Instruction(Opcode::OP_EQUALVERIFY),
    ]);
    assert_eq!(script.interpret(Stack::new()), Ok(false));
    let script = Script::new(vec![Term::Instruction(Opcode::OP_0), Term::Instruction(Opcode::OP_EQUALVERIFY)]);
    assert_eq!(script.interpret(Stack::new()), Ok(false));
}

#[test]
fn dup_copies_bottom_or_top() {
    let script = Script::new(vec![
        Term::Instruction(Opcode::OP_DUP),
        Term::Instruction(Opcode::OP_EQUALVERIFY),
    ]);
    let make = || {
        let mut stack = Stack::new();
        stack.push(vec![1]);
        stack.push(vec![2]);
        stack
    };
    // bottom copy [1] is compared with [2]
    assert_eq!(script.interpret(make()), Ok(false));
    assert_eq!(script.interpret_with(make(), DupFrom::Bottom), Ok(false));
    // top copies: [1, 2] -> [1, 2, 2] -> [1] -> [1, 1] -> []
    let script2 = Script::new(vec![
        Term::Instruction(Opcode::OP_DUP),
        Term::Instruction(Opcode::OP_EQUALVERIFY),
        Term::Instruction(Opcode::OP_DUP),
        Term::Instruction(Opcode::OP_EQUALVERIFY),
    ]);
    assert_eq!(script2.interpret_with(make(), DupFrom::Top), Ok(true));
    assert_eq!(script2.interpret_with(make(), DupFrom::Bottom), Ok(false));
    assert_eq!(script.interpret(Stack::new()), Ok(false));
}

#[test]
fn hash160_on_empty_stack_fails() {
    let script = Script::new(vec![Term::Instruction(Opcode::OP_HASH160)]);
    assert_eq!(script.interpret(Stack::new()), Ok(false));
}

#[test]
fn p2pkh_round_trip() {
    let bytes = hex::decode("76a91455ae51684c43435da751ac8d2173b2652eb6410588ac").unwrap();
    let script = Script::of_bytes(bytes.clone()).unwrap();
    assert_eq!(script.to_bytes().unwrap(), bytes);
}

#[test]
fn decode_pushdata1_of_76_bytes() {
    let mut bytes = vec![0x4c, 0x4c];
    bytes.extend(vec![0xaa; 76]);
    let script = Script::of_bytes(bytes).unwrap();
    assert_eq!(
        script,
        Script::new(vec![Term::Instruction(Opcode::OP_PUSHDATA1(0x4c)), Term::Data(vec![0xaa; 76])])
    );
}

#[test]
fn decode_pushdata1_below_76_fails() {
    assert_eq!(
        Script::of_bytes(vec![0x4c, 0x04, 1, 2, 3]),
        Err(ScriptError::PushData1TooShort(4))
    );
}

#[test]
fn decode_errors() {
    assert_eq!(Script::of_bytes(vec![0x03, 1, 2]), Err(ScriptError::Truncated));
    assert_eq!(Script::of_bytes(vec![0x4c]), Err(ScriptError::Truncated));
    assert_eq!(Script::of_bytes(vec![0x4d, 0x00]), Err(ScriptError::Truncated));
    assert_eq!(Script::of_bytes(vec![0x4d, 0x00, 0x01, 0xaa]), Err(ScriptError::Truncated));
    assert_eq!(Script::of_bytes(vec![0x4e, 0, 0, 0, 1, 0xaa]), Err(ScriptError::Truncated));
    assert_eq!(Script::of_bytes(vec![0x76, 0xbb]), Err(ScriptError::InvalidOpcode(0xbb)));
    assert_eq!(Script::of_bytes(vec![]), Ok(Script::new(vec![])));
    assert_eq!(
        Script::of_bytes(vec![0x00, 0xff]),
        Ok(Script::new(vec![
            Term::Instruction(Opcode::OP_0),
            Term::Instruction(Opcode::OP_INVALIDOPCODE),
        ]))
    );
}

#[test]
fn pushdata2_length_has_the_extra_shift() {
    // 0x4d 0x00 0x02 announces (0x00 << 16) | (0x02 << 8) = 512 bytes
    let mut bytes = vec![0x4d, 0x00, 0x02];
    bytes.extend(vec![0x11; 512]);
    bytes.push(0x76);
    let script = Script::of_bytes(bytes.clone()).unwrap();
    assert_eq!(
        script,
        Script::new(vec![
            Term::Instruction(Opcode::OP_PUSHDATA2([0x00, 0x02])),
            Term::Data(vec![0x11; 512]),
            Term::Instruction(Opcode::OP_DUP),
        ])
    );
    assert_eq!(script.to_bytes().unwrap(), bytes);
}

#[test]
fn encode_keeps_stored_lengths() {
    let script = Script::new(vec![
        Term::Instruction(Opcode::OP_PUSHDATA1(0x50)),
        Term::Data(vec![1, 2]),
    ]);
    assert_eq!(script.to_bytes().unwrap(), vec![0x4c, 0x50, 1, 2]);
}

#[test]
fn encode_rejects_bad_pushbytes() {
    let script = Script::new(vec![Term::Instruction(Opcode::OP_DUP), Term::Instruction(Opcode::OP_PUSHBYTES(0))]);
    assert_eq!(script.to_bytes(), Err(ScriptError::InvalidPushBytes(0)));
    let script = Script::new(vec![Term::Instruction(Opcode::OP_PUSHBYTES(76))]);
    assert_eq!(script.to_bytes(), Err(ScriptError::InvalidPushBytes(76)));
}
