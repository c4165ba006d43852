use wasmlib::bigint::ScBigInt;
use wasmlib::codec::DecodeError;
use wasmlib::codec::ScCodec;
use wasmlib::endian::u32_from_le;
use wasmlib::endian::u32_to_le;
use wasmlib::endian::u64_from_le;
use wasmlib::endian::u64_to_le;
use wasmlib::ids::IdKind;
use wasmlib::ids::ScAgentID;
use wasmlib::ids::ScNftID;
use wasmlib::ids::ScTokenID;

#[test]
fn bool_layout_is_one_byte() {
    assert_eq!(true.to_bytes(), vec![1u8]);
    assert_eq!(false.to_bytes(), vec![0u8]);
    assert_eq!(<bool as ScCodec>::from_bytes(&[1]), Ok(true));
    assert_eq!(<bool as ScCodec>::from_bytes(&[0]), Ok(false));
}

#[test]
fn bool_rejects_other_bytes() {
    assert_eq!(<bool as ScCodec>::from_bytes(&[2]), Err(DecodeError::InvalidByte));
    assert_eq!(<bool as ScCodec>::from_bytes(&[]), Err(DecodeError::WrongLength));
    assert_eq!(<bool as ScCodec>::from_bytes(&[0, 0]), Err(DecodeError::WrongLength));
}

#[test]
fn uint8_layout() {
    assert_eq!(ScCodec::to_bytes(&6u8), vec![6u8]);
    assert_eq!(<u8 as ScCodec>::from_bytes(&[255]), Ok(255u8));
    assert_eq!(<u8 as ScCodec>::from_bytes(&[1, 2]), Err(DecodeError::WrongLength));
}

#[test]
fn uint32_is_little_endian() {
    assert_eq!(ScCodec::to_bytes(&0x0102_0304u32), vec![4u8, 3, 2, 1]);
    assert_eq!(<u32 as ScCodec>::from_bytes(&[4, 3, 2, 1]), Ok(0x0102_0304u32));
    assert_eq!(<u32 as ScCodec>::from_bytes(&[4, 3, 2]), Err(DecodeError::WrongLength));
    assert_eq!(<u32 as ScCodec>::from_bytes(&[4, 3, 2, 1, 0]), Err(DecodeError::WrongLength));
}

#[test]
fn uint64_is_little_endian() {
    assert_eq!(
        ScCodec::to_bytes(&0x0102_0304_0506_0708u64),
        vec![8u8, 7, 6, 5, 4, 3, 2, 1]
    );
    assert_eq!(
        <u64 as ScCodec>::from_bytes(&[8, 7, 6, 5, 4, 3, 2, 1]),
        Ok(0x0102_0304_0506_0708u64)
    );
    assert_eq!(<u64 as ScCodec>::from_bytes(&[0; 4]), Err(DecodeError::WrongLength));
}

#[test]
fn integers_round_trip() {
    for v in [0u32, 1, 255, 256, 65_535, u32::MAX] {
        assert_eq!(<u32 as ScCodec>::from_bytes(&ScCodec::to_bytes(&v)), Ok(v));
    }
    for v in [0u64, 1, 1 << 40, u64::MAX] {
        assert_eq!(<u64 as ScCodec>::from_bytes(&ScCodec::to_bytes(&v)), Ok(v));
    }
    for v in [0u8, 1, 127, 255] {
        assert_eq!(<u8 as ScCodec>::from_bytes(&ScCodec::to_bytes(&v)), Ok(v));
    }
}

#[test]
fn string_is_raw_utf8() {
    let s = String::from("Foo");
    assert_eq!(ScCodec::to_bytes(&s), vec![0x46u8, 0x6f, 0x6f]);
    assert_eq!(<String as ScCodec>::from_bytes(&[0x46, 0x6f, 0x6f]), Ok(String::from("Foo")));
    let accented = String::from("h\u{e9}");
    assert_eq!(ScCodec::to_bytes(&accented), vec![0x68u8, 0xc3, 0xa9]);
    assert_eq!(<String as ScCodec>::from_bytes(&[0x68, 0xc3, 0xa9]), Ok(accented));
    assert_eq!(<String as ScCodec>::from_bytes(&[]), Ok(String::new()));
}

#[test]
fn string_rejects_bad_utf8() {
    assert_eq!(<String as ScCodec>::from_bytes(&[0xff]), Err(DecodeError::InvalidUtf8));
    assert_eq!(<String as ScCodec>::from_bytes(&[0xc3]), Err(DecodeError::InvalidUtf8));
}

#[test]
fn bytes_are_kept_as_they_are() {
    let v: Vec<u8> = vec![0, 1, 2, 255];
    assert_eq!(ScCodec::to_bytes(&v), v);
    assert_eq!(<Vec<u8> as ScCodec>::from_bytes(&[0, 1, 2, 255]), Ok(v));
}

#[test]
fn bigint_is_minimal_big_endian() {
    assert_eq!(ScBigInt::from_u64(0).to_bytes(), Vec::<u8>::new());
    assert_eq!(ScBigInt::from_u64(1).to_bytes(), vec![1u8]);
    assert_eq!(ScBigInt::from_u64(255).to_bytes(), vec![255u8]);
    assert_eq!(ScBigInt::from_u64(256).to_bytes(), vec![1u8, 0]);
    assert_eq!(ScBigInt::from_u64(0x0102_0304).to_bytes(), vec![1u8, 2, 3, 4]);
    assert_eq!(ScBigInt::from_u64(u64::MAX).to_bytes(), vec![255u8; 8]);
}

#[test]
fn bigint_round_trips() {
    for v in [0u64, 1, 255, 256, 1_000_000_007, u64::MAX] {
        let n = ScBigInt::from_u64(v);
        assert_eq!(ScBigInt::from_bytes(&n.to_bytes()), Ok(n));
    }
    let wide: Vec<u8> = vec![7u8; 40];
    let n = ScBigInt::from_bytes(&wide).unwrap();
    assert_eq!(n.magnitude(), &wide[..]);
    assert_eq!(n.to_bytes(), wide);
}

#[test]
fn bigint_rejects_leading_zero() {
    assert_eq!(ScBigInt::from_bytes(&[0]), Err(DecodeError::LeadingZero));
    assert_eq!(ScBigInt::from_bytes(&[0, 1]), Err(DecodeError::LeadingZero));
}

#[test]
fn bigint_zero_is_empty() {
    assert!(ScBigInt::from_u64(0).is_zero());
    assert!(ScBigInt::default_value().is_zero());
    assert!(!ScBigInt::from_u64(3).is_zero());
    assert_eq!(ScBigInt::from_bytes(&[]), Ok(ScBigInt::from_u64(0)));
}

#[test]
fn id_kind_tags_and_lengths() {
    assert_eq!(IdKind::Address.tag(), 1);
    assert_eq!(IdKind::Object.tag(), 2);
    assert_eq!(IdKind::Address.payload_len(), 20);
    assert_eq!(IdKind::Object.payload_len(), 32);
    assert_eq!(IdKind::from_tag(1), Some(IdKind::Address));
    assert_eq!(IdKind::from_tag(2), Some(IdKind::Object));
    assert_eq!(IdKind::from_tag(0), None);
    assert_eq!(IdKind::from_tag(3), None);
}

#[test]
fn agent_id_record_layout() {
    let id = ScAgentID::new(IdKind::Address, &[9u8; 20]).unwrap();
    let mut want = vec![1u8];
    want.extend_from_slice(&[9u8; 20]);
    assert_eq!(id.to_bytes(), want);
    let back = ScAgentID::from_bytes(&want).unwrap();
    assert_eq!(back.kind(), IdKind::Address);
    assert_eq!(back.payload(), &[9u8; 20][..]);
    assert_eq!(back, id);
}

#[test]
fn ids_round_trip() {
    let a = ScAgentID::new(IdKind::Object, &[3u8; 32]).unwrap();
    assert_eq!(ScAgentID::from_bytes(&a.to_bytes()), Ok(a));
    let n = ScNftID::new(IdKind::Object, &[4u8; 32]).unwrap();
    assert_eq!(n.to_bytes().len(), 33);
    assert_eq!(n.to_bytes()[0], 2);
    assert_eq!(ScNftID::from_bytes(&n.to_bytes()), Ok(n));
    let t = ScTokenID::new(IdKind::Address, &[5u8; 20]).unwrap();
    assert_eq!(ScTokenID::from_bytes(&t.to_bytes()), Ok(t));
}

#[test]
fn id_new_checks_payload_length() {
    assert!(ScAgentID::new(IdKind::Address, &[0u8; 19]).is_none());
    assert!(ScAgentID::new(IdKind::Address, &[0u8; 32]).is_none());
    assert!(ScNftID::new(IdKind::Object, &[0u8; 20]).is_none());
    assert!(ScTokenID::new(IdKind::Object, &[0u8; 33]).is_none());
    assert!(ScTokenID::new(IdKind::Object, &[0u8; 32]).is_some());
}

#[test]
fn id_rejects_malformed_records() {
    let mut short = vec![1u8];
    short.extend_from_slice(&[7u8; 19]);
    assert_eq!(ScAgentID::from_bytes(&short), Err(DecodeError::WrongLength));
    let mut long = vec![2u8];
    long.extend_from_slice(&[7u8; 33]);
    assert_eq!(ScNftID::from_bytes(&long), Err(DecodeError::WrongLength));
    assert_eq!(ScTokenID::from_bytes(&[]), Err(DecodeError::WrongLength));
    let mut unknown = vec![9u8];
    unknown.extend_from_slice(&[7u8; 20]);
    assert_eq!(ScAgentID::from_bytes(&unknown), Err(DecodeError::UnknownKind));
    let mut mixed = vec![1u8];
    mixed.extend_from_slice(&[7u8; 32]);
    assert_eq!(ScAgentID::from_bytes(&mixed), Err(DecodeError::WrongLength));
}

#[test]
fn id_defaults() {
    let a = ScAgentID::default_value();
    assert_eq!(a.kind(), IdKind::Address);
    assert_eq!(a.payload(), &[0u8; 20][..]);
    let n = ScNftID::default_value();
    assert_eq!(n.kind(), IdKind::Object);
    assert_eq!(n.payload(), &[0u8; 32][..]);
    let t = ScTokenID::default_value();
    assert_eq!(t.kind(), IdKind::Object);
    assert_eq!(t.payload(), &[0u8; 32][..]);
}

#[test]
fn plain_defaults() {
    assert_eq!(<bool as ScCodec>::default_value(), false);
    assert_eq!(<u8 as ScCodec>::default_value(), 0);
    assert_eq!(<u32 as ScCodec>::default_value(), 0);
    assert_eq!(<u64 as ScCodec>::default_value(), 0);
    assert_eq!(<String as ScCodec>::default_value(), String::new());
    assert_eq!(<Vec<u8> as ScCodec>::default_value(), Vec::<u8>::new());
}

#[test]
fn little_endian_helpers() {
    assert_eq!(u32_to_le(1), vec![1u8, 0, 0, 0]);
    assert_eq!(u32_to_le(u32::MAX), vec![255u8; 4]);
    assert_eq!(u32_from_le(&[0, 0, 0, 1]), 0x0100_0000);
    assert_eq!(u64_to_le(0x0100), vec![0u8, 1, 0, 0, 0, 0, 0, 0]);
    assert_eq!(u64_to_le(u64::MAX), vec![255u8; 8]);
    assert_eq!(u64_from_le(&[0, 0, 0, 0, 0, 0, 0, 0x80]), 1u64 << 63);
    assert_eq!(u64_from_le(&u64_to_le(0xdead_beef_0bad_f00d)), 0xdead_beef_0bad_f00d);
    assert_eq!(u32_from_le(&u32_to_le(0xdead_beef)), 0xdead_beef);
}
