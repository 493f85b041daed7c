use opaque_client::encoding::{decode, encode, symbol_check};
use opaque_client::status::OpaqueError;

#[test]
fn encode_known_texts() {
    assert_eq!(encode(b""), b"".to_vec());
    assert_eq!(encode(b"M"), b"TQ".to_vec());
    assert_eq!(encode(b"Ma"), b"TWE".to_vec());
    assert_eq!(encode(b"Man"), b"TWFu".to_vec());
    assert_eq!(encode(b"hello"), b"aGVsbG8".to_vec());
    assert_eq!(encode(b"correct horse"), b"Y29ycmVjdCBob3JzZQ".to_vec());
}

#[test]
fn encode_uses_the_url_safe_symbols() {
    assert_eq!(encode(&[0xfb, 0xff]), b"-_8".to_vec());
    assert_eq!(encode(&[0xff, 0xff, 0xff]), b"____".to_vec());
    assert_eq!(encode(&[0xfb, 0xef, 0xbe]), b"----".to_vec());
}

#[test]
fn encode_is_not_the_identity() {
    let bytes = b"TQ".to_vec();
    assert_ne!(encode(&bytes), bytes);
    assert_eq!(encode(&bytes), b"VFE".to_vec());
}

#[test]
fn encoded_length_has_no_padding() {
    for n in 0usize..40 {
        let bytes = vec![0x5au8; n];
        let text = encode(&bytes);
        let tail = if n % 3 == 0 { 0 } else { n % 3 + 1 };
        assert_eq!(text.len(), (n / 3) * 4 + tail);
        assert!(text.iter().all(|c| *c != b'='));
        assert!(text.iter().all(|c| symbol_check(*c)));
    }
}

#[test]
fn decode_known_texts() {
    assert_eq!(decode(b""), Ok(b"".to_vec()));
    assert_eq!(decode(b"TQ"), Ok(b"M".to_vec()));
    assert_eq!(decode(b"TWE"), Ok(b"Ma".to_vec()));
    assert_eq!(decode(b"TWFu"), Ok(b"Man".to_vec()));
    assert_eq!(decode(b"aGVsbG8"), Ok(b"hello".to_vec()));
    assert_eq!(decode(b"-_8"), Ok(vec![0xfb, 0xff]));
}

#[test]
fn decode_is_not_the_identity() {
    assert_ne!(decode(b"VFE"), Ok(b"VFE".to_vec()));
    assert_eq!(decode(b"VFE"), Ok(b"TQ".to_vec()));
}

#[test]
fn round_trip_every_single_byte() {
    for b in 0u16..256 {
        let bytes = vec![b as u8];
        assert_eq!(decode(&encode(&bytes)), Ok(bytes));
    }
}

#[test]
fn round_trip_mixed_lengths() {
    let mut bytes: Vec<u8> = Vec::new();
    for n in 0u32..200 {
        assert_eq!(decode(&encode(&bytes)), Ok(bytes.clone()));
        bytes.push((n.wrapping_mul(37).wrapping_add(11) % 256) as u8);
    }
}

#[test]
fn decode_rejects_bytes_outside_the_alphabet() {
    assert_eq!(decode(b"TW!u"), Err(OpaqueError::MalformedEncoding));
    assert_eq!(decode(b"TW u"), Err(OpaqueError::MalformedEncoding));
    assert_eq!(decode(b"TWFu\n"), Err(OpaqueError::MalformedEncoding));
    assert_eq!(decode(&[0x54, 0x57, 0xc3, 0xa9]), Err(OpaqueError::MalformedEncoding));
    assert_eq!(decode(&[0x54, 0x00]), Err(OpaqueError::MalformedEncoding));
}

#[test]
fn decode_rejects_the_standard_alphabet_symbols() {
    assert_eq!(decode(b"+/8"), Err(OpaqueError::MalformedEncoding));
    assert_eq!(decode(b"ab+d"), Err(OpaqueError::MalformedEncoding));
    assert_eq!(decode(b"ab/d"), Err(OpaqueError::MalformedEncoding));
}

#[test]
fn decode_rejects_padding() {
    assert_eq!(decode(b"TQ=="), Err(OpaqueError::MalformedEncoding));
    assert_eq!(decode(b"TWE="), Err(OpaqueError::MalformedEncoding));
    assert_eq!(decode(b"="), Err(OpaqueError::MalformedEncoding));
}

#[test]
fn decode_rejects_invalid_length() {
    assert_eq!(decode(b"T"), Err(OpaqueError::MalformedEncoding));
    assert_eq!(decode(b"TWFuT"), Err(OpaqueError::MalformedEncoding));
}

#[test]
fn decode_rejects_stray_trailing_bits() {
    assert_eq!(decode(b"TR"), Err(OpaqueError::MalformedEncoding));
    assert_eq!(decode(b"TWF"), Err(OpaqueError::MalformedEncoding));
}

#[test]
fn symbol_check_knows_the_alphabet() {
    let alphabet = b"ABCDEFGHIJKLMNOPQRSTUVWXYZabcdefghijklmnopqrstuvwxyz0123456789-_";
    let mut count = 0;
    for c in 0u16..256 {
        let c = c as u8;
        assert_eq!(symbol_check(c), alphabet.contains(&c));
        if symbol_check(c) {
            count += 1;
        }
    }
    assert_eq!(count, 64);
    assert!(!symbol_check(b'='));
}
