use api_clients::path::{encode_path, must_escape};
use percent_encoding::{utf8_percent_encode, AsciiSet, CONTROLS};

const PATH_SET: &AsciiSet = &CONTROLS
    .add(b' ')
    .add(b'"')
    .add(b'#')
    .add(b'<')
    .add(b'>')
    .add(b'?')
    .add(b'`')
    .add(b'{')
    .add(b'}');

#[test]
fn plain_segments_are_unchanged() {
    assert_eq!(encode_path("12345"), "12345");
    assert_eq!(encode_path("a1b2-c3_d4.e5~f6"), "a1b2-c3_d4.e5~f6");
    assert_eq!(encode_path("7f3a9c1e-0b2d-4e6f-8a1b-2c3d4e5f6a7b"), "7f3a9c1e-0b2d-4e6f-8a1b-2c3d4e5f6a7b");
    assert_eq!(encode_path(""), "");
}

#[test]
fn reserved_characters_are_escaped() {
    assert_eq!(encode_path(" "), "%20");
    assert_eq!(encode_path("\""), "%22");
    assert_eq!(encode_path("#"), "%23");
    assert_eq!(encode_path("<"), "%3C");
    assert_eq!(encode_path(">"), "%3E");
    assert_eq!(encode_path("?"), "%3F");
    assert_eq!(encode_path("`"), "%60");
    assert_eq!(encode_path("{"), "%7B");
    assert_eq!(encode_path("}"), "%7D");
    assert_eq!(encode_path("foo bar?"), "foo%20bar%3F");
    assert_eq!(encode_path("a{b}c#d"), "a%7Bb%7Dc%23d");
}

#[test]
fn slash_percent_and_other_punctuation_stand_as_they_are() {
    assert_eq!(encode_path("a/b"), "a/b");
    assert_eq!(encode_path("100%"), "100%");
    assert_eq!(encode_path("%20"), "%20");
    assert_eq!(encode_path("!$&'()*+,;=:@[]\\^|"), "!$&'()*+,;=:@[]\\^|");
}

#[test]
fn control_characters_are_escaped() {
    assert_eq!(encode_path("\u{0}"), "%00");
    assert_eq!(encode_path("\t"), "%09");
    assert_eq!(encode_path("\n"), "%0A");
    assert_eq!(encode_path("\r\n"), "%0D%0A");
    assert_eq!(encode_path("\u{1f}"), "%1F");
    assert_eq!(encode_path("\u{7f}"), "%7F");
    assert_eq!(encode_path("a\u{1b}b"), "a%1Bb");
}

#[test]
fn text_beyond_ascii_is_escaped_byte_by_byte() {
    assert_eq!(encode_path("é"), "%C3%A9");
    assert_eq!(encode_path("ß"), "%C3%9F");
    assert_eq!(encode_path("€"), "%E2%82%AC");
    assert_eq!(encode_path("管理"), "%E7%AE%A1%E7%90%86");
    assert_eq!(encode_path("🙂"), "%F0%9F%99%82");
    assert_eq!(encode_path("\u{80}"), "%C2%80");
    assert_eq!(encode_path("\u{10ffff}"), "%F4%8F%BF%BF");
    assert_eq!(encode_path("café au lait"), "caf%C3%A9%20au%20lait");
}

#[test]
fn hexadecimal_digits_are_upper_case() {
    assert_eq!(encode_path("\u{a}\u{b}\u{c}\u{d}\u{e}\u{f}"), "%0A%0B%0C%0D%0E%0F");
    assert_eq!(encode_path("\u{ff}"), "%C3%BF");
    assert_eq!(encode_path("ÿ«»"), "%C3%BF%C2%AB%C2%BB");
}

#[test]
fn must_escape_names_the_escaped_bytes() {
    for b in 0u8..=255 {
        let expected = b < 0x20 || b >= 0x7f || b" \"#<>?`{}".contains(&b);
        assert_eq!(must_escape(b), expected, "byte {:#04x}", b);
    }
}

#[test]
fn every_ascii_character_agrees_with_the_url_path_set() {
    for b in 0u8..128 {
        let s = (b as char).to_string();
        assert_eq!(encode_path(&s), utf8_percent_encode(&s, PATH_SET).to_string(), "byte {:#04x}", b);
    }
}

#[test]
fn every_two_byte_character_agrees_with_the_url_path_set() {
    for code in 0x80u32..0x800 {
        let s = char::from_u32(code).unwrap().to_string();
        assert_eq!(encode_path(&s), utf8_percent_encode(&s, PATH_SET).to_string(), "U+{:04X}", code);
    }
}

#[test]
fn mixed_texts_agree_with_the_url_path_set() {
    let samples = [
        "",
        "plain",
        "with space",
        "tab\there",
        "q?a=1&b=2#frag",
        "{\"json\": \"<tag>\"}",
        "`back`tick`",
        "Grüße aus Köln",
        "日本語のテキスト",
        "emoji 🙂🚀 mix",
        "\u{0}\u{1}\u{2}\u{7f}\u{80}\u{7ff}\u{800}\u{ffff}\u{10000}\u{10ffff}",
        "a/b/c/../d",
        "%41%zz%",
    ];
    for s in samples {
        assert_eq!(encode_path(s), utf8_percent_encode(s, PATH_SET).to_string(), "{:?}", s);
    }
}

#[test]
fn encoding_twice_is_encoding_once() {
    for s in ["a b", "é", "x?y", "plain", "{}", "%", "\u{7f}"] {
        let once = encode_path(s);
        assert_eq!(encode_path(&once), once);
    }
}

#[test]
fn encoded_text_holds_nothing_that_is_escaped() {
    for s in ["a b", "é🙂", "x?y#z", "<{`\"`}>", "\u{0}\u{1f}"] {
        let encoded = encode_path(s);
        assert!(encoded.bytes().all(|b| !must_escape(b)), "{:?}", encoded);
    }
}
