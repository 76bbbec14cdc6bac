use cloudflare_kv::cloudflare::kv::utils::{should_escape, url_encode_key};

#[test]
fn plain_keys_are_left_alone() {
    assert_eq!(url_encode_key("simple-key_1.txt~"), "simple-key_1.txt~");
    assert_eq!(url_encode_key("user:42@host"), "user:42@host");
    assert_eq!(url_encode_key(""), "");
}

#[test]
fn reserved_characters_are_escaped_in_upper_case_hex() {
    assert_eq!(url_encode_key("my key"), "my%20key");
    assert_eq!(url_encode_key("a/b"), "a%2Fb");
    assert_eq!(url_encode_key("a?b#c"), "a%3Fb%23c");
    assert_eq!(url_encode_key("100%"), "100%25");
    assert_eq!(url_encode_key("\"<>`{}[]"), "%22%3C%3E%60%7B%7D%5B%5D");
}

#[test]
fn control_characters_are_escaped() {
    assert_eq!(url_encode_key("a\tb\n"), "a%09b%0A");
    assert_eq!(url_encode_key("\u{0}\u{1f}\u{7f}"), "%00%1F%7F");
}

#[test]
fn bytes_outside_ascii_are_escaped_one_by_one() {
    assert_eq!(url_encode_key("é"), "%C3%A9");
    assert_eq!(url_encode_key("日本"), "%E6%97%A5%E6%9C%AC");
}

#[test]
fn the_escape_set_is_the_documented_one() {
    let escaped = b" \"#<>`?{}%/[]";
    for byte in 0u8..=255 {
        let expected = byte >= 0x80 || byte < 0x20 || byte == 0x7f || escaped.contains(&byte);
        assert_eq!(should_escape(byte), expected, "byte {}", byte);
    }
}

#[test]
fn every_single_byte_key_matches_the_escape_set() {
    for byte in 0u8..0x80 {
        let key = (byte as char).to_string();
        let encoded = url_encode_key(&key);
        if should_escape(byte) {
            assert_eq!(encoded, format!("%{:02X}", byte));
        } else {
            assert_eq!(encoded, key);
        }
    }
}
