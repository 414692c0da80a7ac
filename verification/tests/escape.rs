use bucket_access_control::escape::{percent_decode, percent_encode};

#[test]
fn plain_text_is_kept() {
    assert_eq!(percent_encode("allUsers"), "allUsers");
    assert_eq!(percent_encode("AZaz09*-._"), "AZaz09*-._");
}

#[test]
fn reserved_characters_are_escaped() {
    assert_eq!(percent_encode("a/b"), "a%2Fb");
    assert_eq!(percent_encode("user-me@example.com"), "user-me%40example.com");
    assert_eq!(percent_encode(" ~%+"), "%20%7E%25%2B");
}

#[test]
fn empty_text_encodes_to_empty_text() {
    assert_eq!(percent_encode(""), "");
    assert_eq!(percent_decode(""), Vec::<u8>::new());
}

#[test]
fn text_outside_ascii_is_escaped_byte_by_byte() {
    assert_eq!(percent_encode("é"), "%C3%A9");
    assert_eq!(percent_encode("日本"), "%E6%97%A5%E6%9C%AC");
}

#[test]
fn decoding_reads_both_cases_of_digits() {
    assert_eq!(percent_decode("a%2fb%2Fc"), b"a/b/c".to_vec());
}

#[test]
fn stray_percent_is_kept() {
    assert_eq!(percent_decode("100%"), b"100%".to_vec());
    assert_eq!(percent_decode("%4"), b"%4".to_vec());
    assert_eq!(percent_decode("%zz1"), b"%zz1".to_vec());
    assert_eq!(percent_decode("%%41"), b"%A".to_vec());
}

#[test]
fn decoding_undoes_encoding() {
    let samples = ["", "allUsers", "group-a/b@c.d", "100% sure?", "日本語", "\u{0}\u{7f}\u{80}"];
    for text in samples {
        let encoded = percent_encode(text);
        assert_eq!(percent_decode(&encoded), text.as_bytes().to_vec());
        assert!(!encoded.contains('/'));
        assert!(encoded.is_ascii());
    }
}
