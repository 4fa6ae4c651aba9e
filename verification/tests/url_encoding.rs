use github_skill::url::simple_url_encode;

#[test]
fn simple_url_encode_preserves_plain_labels() {
    assert_eq!(simple_url_encode("bug,urgent"), "bug,urgent");
}

#[test]
fn simple_url_encode_encodes_spaces() {
    assert_eq!(
        simple_url_encode("good first issue"),
        "good%20first%20issue"
    );
}

#[test]
fn simple_url_encode_encodes_special_chars() {
    assert_eq!(simple_url_encode("bug fix&v2"), "bug%20fix%26v2");
}

#[test]
fn simple_url_encode_preserves_unreserved() {
    assert_eq!(simple_url_encode("a-b_c.d~e"), "a-b_c.d~e");
}

#[test]
fn simple_url_encode_empty() {
    assert_eq!(simple_url_encode(""), "");
}

#[test]
fn simple_url_encode_encodes_utf8_bytes_upper_hex() {
    assert_eq!(simple_url_encode("é"), "%C3%A9");
    assert_eq!(simple_url_encode("a=b#c+d/e"), "a%3Db%23c%2Bd%2Fe");
}

/// Decoding an encoded value gives the value back.
fn percent_decode(s: &str) -> Vec<u8> {
    let bytes = s.as_bytes();
    let mut out = Vec::new();
    let mut i = 0;
    while i < bytes.len() {
        if bytes[i] == b'%' {
            let hex = std::str::from_utf8(&bytes[i + 1..i + 3]).unwrap();
            out.push(u8::from_str_radix(hex, 16).unwrap());
            i += 3;
        } else {
            out.push(bytes[i]);
            i += 1;
        }
    }
    out
}

#[test]
fn simple_url_encode_round_trips() {
    for value in ["good first issue", "bug fix&v2", "ünïcödé ✓", "100%", "a,b,c"] {
        let encoded = simple_url_encode(value);
        assert!(!encoded.contains('&') && !encoded.contains('=') && !encoded.contains(' '));
        assert_eq!(percent_decode(&encoded), value.as_bytes());
    }
}
