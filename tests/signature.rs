use btc_script::signature::Signature;
use btc_script::signature::SignatureError;
use btc_script::signature::SignatureType;

#[test]
fn test_signature_serialize_deserialize() {
    let sig = "304402203da9d487be5302a6d69e02a861acff1da472885e43d7528ed9b1b537a8e2cac9022002d1bca03a1e9715a99971bafe3b1852b7a4f0168281cbd27a220380a01b3307";
    let sig = Signature(hex::decode(sig).unwrap(), SignatureType::SIGHASH_ALL);
    let encoded_sig = sig.to_bytes().unwrap();
    let decoded_sig: Signature = Signature::of_bytes(encoded_sig).unwrap();
    assert_eq!(decoded_sig, sig);
}

#[test]
fn signature_round_trip_for_each_type() {
    let cases = [
        (SignatureType::SIGHASH_ALL, 0x01u8),
        (SignatureType::SIGHASH_NONE, 0x02),
        (SignatureType::SIGHASH_SINGLE, 0x03),
        (SignatureType::SIGHASH_ANYONECANPAY, 0x80),
    ];
    for (t, tag) in cases {
        let sig = Signature(vec![0x30, 0x44, 0x02], t);
        let bytes = sig.to_bytes().unwrap();
        assert_eq!(bytes, vec![0x30, 0x44, 0x02, tag]);
        assert_eq!(Signature::of_bytes(bytes), Ok(sig));
    }
}

#[test]
fn signature_errors() {
    for t in [
        SignatureType::SIGHASH_DEFAULT,
        SignatureType::SIGHASH_OUTPUT_MASK,
        SignatureType::SIGHASH_INPUT_MASK,
    ] {
        assert_eq!(Signature(vec![1], t).to_bytes(), Err(SignatureError::UnsupportedType(t)));
    }
    assert_eq!(Signature::of_bytes(vec![]), Err(SignatureError::Empty));
    assert_eq!(Signature::of_bytes(vec![1, 2, 0x04]), Err(SignatureError::InvalidTypeByte(0x04)));
    assert_eq!(
        Signature::of_bytes(vec![0x01]),
        Ok(Signature(vec![], SignatureType::SIGHASH_ALL))
    );
}
