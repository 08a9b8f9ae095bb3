use btc_script::utils::CompactBytes;
use btc_script::utils::CompactSizeError;

#[test]
fn utils_test_serialize_deserialize() {
    {
        let b1 = CompactBytes::B1(0x01);
        let serialize = b1.to_bytes();
        let deserialize: CompactBytes = CompactBytes::of_bytes(serialize).unwrap();
        assert_eq!(b1, deserialize);
    }
    {
        let b2 = CompactBytes::B2([0x01, 0x02]);
        let serialize = b2.to_bytes();
        let deserialize: CompactBytes = CompactBytes::of_bytes(serialize).unwrap();
        assert_eq!(b2, deserialize);
    }
    {
        let b4 = CompactBytes::B4([0x01, 0x02, 0x03, 0x04]);
        let serialize = b4.to_bytes();
        let deserialize: CompactBytes = CompactBytes::of_bytes(serialize).unwrap();
        assert_eq!(b4, deserialize);
    }
    {
        let b8 = CompactBytes::B8([0x01, 0x02, 0x03, 0x04, 0x05, 0x06, 0x07, 0x08]);
        let serialize = b8.to_bytes();
        let deserialize: CompactBytes = CompactBytes::of_bytes(serialize).unwrap();
        assert_eq!(b8, deserialize);
    }
}

#[test]
fn compact_encodings_by_width() {
    assert_eq!(CompactBytes::encode(0), vec![0x00]);
    assert_eq!(CompactBytes::encode(252), vec![0xfc]);
    assert_eq!(CompactBytes::encode(253), vec![0xfd, 0xfd, 0x00]);
    assert_eq!(CompactBytes::encode(0xffff), vec![0xfd, 0xff, 0xff]);
    assert_eq!(CompactBytes::encode(0x1_0000), vec![0xfe, 0x00, 0x00, 0x01, 0x00]);
    assert_eq!(CompactBytes::encode(0xffff_ffff), vec![0xfe, 0xff, 0xff, 0xff, 0xff]);
    assert_eq!(
        CompactBytes::encode(0x1_0000_0000),
        vec![0xff, 0x00, 0x00, 0x00, 0x00, 0x01, 0x00, 0x00, 0x00]
    );
    assert_eq!(
        CompactBytes::encode(0x0102_0304_0506_0708),
        vec![0xff, 0x08, 0x07, 0x06, 0x05, 0x04, 0x03, 0x02, 0x01]
    );
    assert_eq!(CompactBytes::from_value(515), CompactBytes::B2([0x03, 0x02]));
    assert_eq!(CompactBytes::B4([0x01, 0x02, 0x03, 0x04]).value(), 0x0403_0201);
}

#[test]
fn compact_round_trip_values() {
    for v in [0u64, 1, 252, 253, 254, 0xffff, 0x1_0000, 0xffff_ffff, 0x1_0000_0000, u64::MAX] {
        let bytes = CompactBytes::encode(v);
        assert!([1, 3, 5, 9].contains(&bytes.len()));
        assert_eq!(CompactBytes::decode(bytes), Ok(v));
    }
}

#[test]
fn compact_decode_errors() {
    assert_eq!(
        CompactBytes::decode(vec![0xfe, 1, 2]),
        Err(CompactSizeError::MarkerMismatch { expected: 0xfd, found: 0xfe })
    );
    assert_eq!(
        CompactBytes::of_bytes(vec![0xfd, 1, 2, 3, 4]),
        Err(CompactSizeError::MarkerMismatch { expected: 0xfe, found: 0xfd })
    );
    assert_eq!(
        CompactBytes::of_bytes(vec![0x00; 9]),
        Err(CompactSizeError::MarkerMismatch { expected: 0xff, found: 0x00 })
    );
    assert_eq!(CompactBytes::decode(vec![]), Err(CompactSizeError::UnsupportedLength(0)));
    assert_eq!(CompactBytes::decode(vec![0xfd, 1]), Err(CompactSizeError::UnsupportedLength(2)));
    assert_eq!(CompactBytes::decode(vec![0xfd]), Ok(0xfd));
}
