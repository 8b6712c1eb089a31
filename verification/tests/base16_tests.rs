use wallet_crypto::base16::{decode, encode};

#[test]
fn encode_writes_two_lowercase_digits_per_byte() {
    assert_eq!(encode(&[0x00, 0x0f, 0xa5, 0xff]), "000fa5ff");
    assert_eq!(encode(&[0xde, 0xad, 0xbe, 0xef]), "deadbeef");
    assert_eq!(encode(&[0x10]), "10");
    assert_eq!(encode(&[0x01]), "01");
}

#[test]
fn encode_of_nothing_is_empty() {
    assert_eq!(encode(&[]), "");
}

#[test]
fn decode_reads_digits_of_both_cases() {
    assert_eq!(decode("00ff1a"), Some(vec![0x00, 0xff, 0x1a]));
    assert_eq!(decode("00FF1A"), Some(vec![0x00, 0xff, 0x1a]));
    assert_eq!(decode("AbCdEf"), Some(vec![0xab, 0xcd, 0xef]));
    assert_eq!(decode("0123456789"), Some(vec![0x01, 0x23, 0x45, 0x67, 0x89]));
    assert_eq!(decode(""), Some(vec![]));
}

#[test]
fn decode_refuses_an_odd_number_of_digits() {
    assert_eq!(decode("a"), None);
    assert_eq!(decode("abc"), None);
    assert_eq!(decode("00000"), None);
}

#[test]
fn decode_refuses_what_is_no_digit() {
    assert_eq!(decode("0g"), None);
    assert_eq!(decode("g0"), None);
    assert_eq!(decode("0x12"), None);
    assert_eq!(decode(" 12 "), None);
    assert_eq!(decode("12\n3"), None);
    assert_eq!(decode("/0"), None);
    assert_eq!(decode(":0"), None);
    assert_eq!(decode("@0"), None);
    assert_eq!(decode("G0"), None);
    assert_eq!(decode("`0"), None);
    assert_eq!(decode("\u{e9}\u{e9}"), None);
    assert_eq!(decode("0\u{ff10}"), None);
}

#[test]
fn decode_gives_back_what_encode_was_given() {
    let all: Vec<u8> = (0..=255u8).collect();
    let text = encode(&all);
    assert_eq!(text.len(), 512);
    assert!(text.chars().all(|c| c.is_ascii_digit() || ('a'..='f').contains(&c)));
    assert_eq!(decode(&text), Some(all));
}

#[test]
fn encode_and_decode_agree_with_the_hex_crate() {
    let bytes: Vec<u8> = (0..200u32).map(|i| (i * 37 + 11) as u8).collect();
    assert_eq!(encode(&bytes), hex::encode(&bytes));
    let text = "00112233445566778899aAbBcCdDeEfF";
    assert_eq!(decode(text), hex::decode(text).ok());
    assert_eq!(decode("0q").is_none(), hex::decode("0q").is_err());
    assert_eq!(decode("123").is_none(), hex::decode("123").is_err());
}
