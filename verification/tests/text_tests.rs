use wallet_crypto::text::{push_decimal, same_text};

fn numeral(n: u64) -> String {
    let mut text = String::new();
    push_decimal(&mut text, n);
    text
}

#[test]
fn numerals_have_no_leading_zero() {
    assert_eq!(numeral(0), "0");
    assert_eq!(numeral(7), "7");
    assert_eq!(numeral(9), "9");
    assert_eq!(numeral(10), "10");
    assert_eq!(numeral(99), "99");
    assert_eq!(numeral(100), "100");
    assert_eq!(numeral(255), "255");
    assert_eq!(numeral(4294967295), "4294967295");
    assert_eq!(numeral(u64::MAX), "18446744073709551615");
}

#[test]
fn numerals_agree_with_the_standard_rendering() {
    let mut n: u64 = 1;
    for _ in 0..64 {
        assert_eq!(numeral(n), n.to_string());
        assert_eq!(numeral(n - 1), (n - 1).to_string());
        n = n.wrapping_mul(3).wrapping_add(7);
    }
}

#[test]
fn a_numeral_is_appended_to_what_is_there() {
    let mut text = "index=".to_string();
    push_decimal(&mut text, 42);
    assert_eq!(text, "index=42");
}

#[test]
fn texts_are_the_same_where_every_character_is() {
    assert!(same_text("", ""));
    assert!(same_text("Mainnet", "Mainnet"));
    assert!(!same_text("Mainnet", "Mainnet "));
    assert!(!same_text("Mainnet", "Mainnes"));
    assert!(!same_text("mainnet", "Mainnet"));
    assert!(!same_text("", "a"));
    assert!(same_text("\u{e9}t\u{e9}", "\u{e9}t\u{e9}"));
    assert!(!same_text("\u{e9}", "e"));
}
