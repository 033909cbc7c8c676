use rdnat::tokens::{space_at, split_whitespace};

fn words(s: &[u8]) -> Vec<Vec<u8>> {
    split_whitespace(s)
}

#[test]
fn split_whitespace_splits_a_request_line() {
    let parts = words(b"CONNECT example.com:443 HTTP/1.1\r\n\r\n");
    assert_eq!(parts.len(), 3);
    assert_eq!(parts[0], b"CONNECT".to_vec());
    assert_eq!(parts[1], b"example.com:443".to_vec());
    assert_eq!(parts[2], b"HTTP/1.1".to_vec());
}

#[test]
fn split_whitespace_of_nothing_is_empty() {
    assert!(words(b"").is_empty());
    assert!(words(b" \t\r\n\x0b\x0c").is_empty());
}

#[test]
fn split_whitespace_skips_leading_and_repeated_spaces() {
    let parts = words(b"  a \t\t bc\n");
    assert_eq!(parts, vec![b"a".to_vec(), b"bc".to_vec()]);
}

#[test]
fn split_whitespace_agrees_with_std_on_text() {
    let samples = [
        "GET http://a/b HTTP/1.1\r\nHost: a\r\n\r\n",
        "one\u{a0}two\u{2003}three\u{3000}four\u{85}five",
        "\u{1680}x\u{2028}y\u{2029}z\u{202f}w\u{205f}v",
        "no-space",
        "caf\u{e9} \u{e2}me \u{2764}",
    ];
    for text in samples {
        let expected: Vec<Vec<u8>> = text.split_whitespace().map(|w| w.as_bytes().to_vec()).collect();
        assert_eq!(words(text.as_bytes()), expected);
    }
}

#[test]
fn split_whitespace_agrees_with_std_on_bytes_that_are_no_text() {
    let samples: [&[u8]; 4] = [
        b"a\xe2\x80 b",
        b"\xff\xfe x\xc2 y",
        b"\xe2\xc2\x85z",
        b"k\xf0\x9f\x98\xe2\x80\x80m",
    ];
    for bytes in samples {
        let text = String::from_utf8_lossy(bytes).into_owned();
        let expected = text.split_whitespace().count();
        assert_eq!(words(bytes).len(), expected);
    }
}

#[test]
fn space_at_measures_white_space() {
    assert_eq!(space_at(b" x", 0), 1);
    assert_eq!(space_at(b" x", 1), 0);
    assert_eq!(space_at(b" x", 2), 0);
    assert_eq!(space_at(b"\xc2\xa0", 0), 2);
    assert_eq!(space_at(b"\xc2", 0), 0);
    assert_eq!(space_at(b"\xe2\x80\x8a", 0), 3);
    assert_eq!(space_at(b"\xe2\x80\x8b", 0), 0);
    assert_eq!(space_at(b"\xe2\x80", 0), 0);
    assert_eq!(space_at(b"\xe3\x80\x80", 0), 3);
}
