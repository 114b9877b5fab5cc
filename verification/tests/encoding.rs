use shade_attestation::encoding::{decode, decode_str, encode};
use shade_attestation::error::RegistrationError;
use shade_attestation::quote::QuoteBytes;

#[test]
fn encodes_in_lower_case_high_half_first() {
    assert_eq!(encode(&[]), "");
    assert_eq!(encode(&[0x00]), "00");
    assert_eq!(encode(&[0x0f, 0xf0]), "0ff0");
    assert_eq!(encode(&[1, 2, 3, 15, 16]), "0102030f10");
    assert_eq!(encode(b"Hello world!"), "48656c6c6f20776f726c6421");
    assert_eq!(encode(&[0xab, 0xcd, 0xef, 0x9a]), "abcdef9a");
}

#[test]
fn decodes_either_case() {
    assert_eq!(decode(b""), Some(vec![]));
    assert_eq!(decode(b"00"), Some(vec![0]));
    assert_eq!(decode(b"f9b4ca"), Some(vec![0xf9, 0xb4, 0xca]));
    assert_eq!(decode(b"F9B4CA"), Some(vec![0xf9, 0xb4, 0xca]));
    assert_eq!(decode(b"f9B4Ca"), Some(vec![0xf9, 0xb4, 0xca]));
    assert_eq!(decode(b"48656c6c6f20776f726c6421"), Some(b"Hello world!".to_vec()));
    assert_eq!(decode(b"0123456789abcdefABCDEF"), Some(vec![
        0x01, 0x23, 0x45, 0x67, 0x89, 0xab, 0xcd, 0xef, 0xab, 0xcd, 0xef
    ]));
}

#[test]
fn refuses_what_is_not_hex() {
    assert_eq!(decode(b"123"), None);
    assert_eq!(decode(b"f"), None);
    assert_eq!(decode(b"foo"), None);
    assert_eq!(decode(b"fo"), None);
    assert_eq!(decode(b"0g"), None);
    assert_eq!(decode(b"g0"), None);
    assert_eq!(decode(b"0x00"), None);
    assert_eq!(decode(b" 00"), None);
    assert_eq!(decode(b"00 "), None);
    assert_eq!(decode(b"0/"), None);
    assert_eq!(decode(b"0:"), None);
    assert_eq!(decode(b"0@"), None);
    assert_eq!(decode(b"0G"), None);
    assert_eq!(decode(b"0`"), None);
    assert_eq!(decode("\u{e9}".as_bytes()), None);
}

#[test]
fn reads_hex_strings() {
    assert_eq!(decode_str(""), Some(vec![]));
    assert_eq!(decode_str("0aF9"), Some(vec![0x0a, 0xf9]));
    assert_eq!(decode_str("0aF"), None);
    assert_eq!(decode_str("0x0a"), None);
    // Two bytes of UTF-8, but not two hexadecimal digits.
    assert_eq!(decode_str("\u{e9}"), None);
    assert_eq!(decode_str("\u{ff10}\u{ff11}"), None);
    assert_eq!(decode_str("0\u{e9}1"), None);
}

#[test]
fn decoding_undoes_encoding() {
    let all: Vec<u8> = (0..=255).collect();
    let text = encode(&all);
    assert_eq!(text.len(), 512);
    assert_eq!(decode(text.as_bytes()), Some(all.clone()));
    assert_eq!(decode(text.to_uppercase().as_bytes()), Some(all.clone()));
    assert_eq!(decode_str(&text), Some(all));
}

#[test]
fn quote_from_hex() {
    assert_eq!(QuoteBytes::from_hex(&"0102ff".to_string()), Ok(QuoteBytes::from(vec![1, 2, 0xff])));
    assert_eq!(QuoteBytes::from_hex(&String::new()), Ok(QuoteBytes::from(vec![])));
    assert_eq!(QuoteBytes::from_hex(&"0102f".to_string()), Err(RegistrationError::BadEncoding));
    assert_eq!(QuoteBytes::from_hex(&"0x0102".to_string()), Err(RegistrationError::BadEncoding));
    assert_eq!(QuoteBytes::from_hex(&"zz".to_string()), Err(RegistrationError::BadEncoding));
}
