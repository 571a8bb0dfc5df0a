use fileslink::text::{
    after_last_of, chars_of, contains_text, decimal_text, header_text_of, optional_header_text_of,
    replace_char, second_piece_of, signed_decimal_text, trim_end_of, trim_of,
};

#[test]
fn decimals() {
    for n in [0u64, 7, 10, 99, 100, 12_345, u64::MAX] {
        assert_eq!(decimal_text(n), format!("{}", n));
    }
    for n in [0i64, 5, -5, -1_001_234_567_890, i64::MIN, i64::MAX] {
        assert_eq!(signed_decimal_text(n), format!("{}", n));
    }
}

#[test]
fn texts_within_texts() {
    assert!(contains_text("Bad Request: file is too big", "file is too big"));
    assert!(contains_text("abc", ""));
    assert!(contains_text("aab", "ab"));
    assert!(!contains_text("ab", "abc"));
    assert!(!contains_text("", "a"));
}

#[test]
fn second_pieces_agree_with_split() {
    for s in ["", "a", "x=1", "x=1x=2", "x=x=", "é x=ü", "filename=\"a\"; filename=b", "xx==x=y"] {
        for separator in ["x=", "filename="] {
            assert_eq!(
                second_piece_of(s, separator),
                s.split(separator).nth(1).map(|p| p.to_string())
            );
        }
    }
}

#[test]
fn trimming_agrees_with_std() {
    for s in ["", "/", "//", "a/", "/a", "a//", "/a/b/", "ü/"] {
        assert_eq!(trim_end_of(s, '/'), s.trim_end_matches('/'));
        assert_eq!(trim_of(s, '/'), s.trim_matches('/'));
    }
    assert_eq!(trim_of("\"\"a\"b\"", '"'), "a\"b");
}

#[test]
fn last_parts_agree_with_split() {
    for s in ["", "a", "a/b", "a/b/", "/", "https://host/x y.txt", "ä/ö"] {
        assert_eq!(after_last_of(s, '/'), s.split('/').last().unwrap());
    }
}

#[test]
fn characters_are_kept_or_replaced() {
    assert_eq!(replace_char("a b  c", ' ', '_'), "a_b__c");
    assert_eq!(chars_of("aé…"), vec!['a', 'é', '…']);
}

#[test]
fn header_texts() {
    assert_eq!(header_text_of(&b"text/html; charset=utf-8".to_vec()).unwrap(), "text/html; charset=utf-8");
    assert_eq!(header_text_of(&b"a\tb".to_vec()).unwrap(), "a\tb");
    assert_eq!(header_text_of(&Vec::new()).unwrap(), "");
    assert!(header_text_of(&vec![0xc3, 0xa9]).is_none());
    assert!(header_text_of(&vec![127]).is_none());
    assert!(header_text_of(&vec![b'a', 10]).is_none());
    assert!(optional_header_text_of(&None).is_none());
    assert_eq!(optional_header_text_of(&Some(vec![b'x'])).unwrap(), "x");
}

#[test]
fn header_texts_agree_with_http() {
    for b in 0..=255u8 {
        let value = http::HeaderValue::from_bytes(&[b'a', b]);
        if let Ok(value) = value {
            let expected = value.to_str().ok().map(|s| s.to_string());
            assert_eq!(header_text_of(&vec![b'a', b]), expected);
        }
    }
}
