use fileslink::names::{escape_html, sanitize_filename};
use fileslink::text::{is_blank, is_control, is_white_space};

#[test]
fn classes_of_characters_agree_with_std() {
    for c in '\0'..=char::MAX {
        assert_eq!(is_control(c), c.is_control(), "{:?}", c);
        assert_eq!(is_white_space(c), c.is_whitespace(), "{:?}", c);
    }
}

#[test]
fn blank_texts() {
    assert!(is_blank(""));
    assert!(is_blank(" \t\u{3000}\u{a0}"));
    assert!(!is_blank(" x "));
}

#[test]
fn sanitize_keeps_ordinary_names() {
    assert_eq!(sanitize_filename("report.pdf"), "report.pdf");
    assert_eq!(sanitize_filename("отчёт 2.pdf"), "отчёт 2.pdf");
    assert_eq!(sanitize_filename(" a "), " a ");
}

#[test]
fn sanitize_replaces_forbidden_characters() {
    assert_eq!(sanitize_filename("a\"b\\c/d<e>f:g"), "a_b_c_d_e_f_g");
    assert_eq!(sanitize_filename("a\r\nb\u{7f}\u{85}"), "a__b__");
    assert_eq!(sanitize_filename("../../etc/passwd"), ".._.._etc_passwd");
    assert_eq!(sanitize_filename("\t"), "_");
}

#[test]
fn sanitize_names_the_nameless() {
    assert_eq!(sanitize_filename(""), "download.bin");
    assert_eq!(sanitize_filename("   "), "download.bin");
    assert_eq!(sanitize_filename("\u{2003}\u{3000}"), "download.bin");
}

#[test]
fn sanitize_twice_is_sanitize_once() {
    for name in ["", "a/b", "  ", "\u{0}:", "x.tar.gz"] {
        let once = sanitize_filename(name);
        assert_eq!(sanitize_filename(&once), once);
    }
}

#[test]
fn escape_replaces_markup() {
    assert_eq!(escape_html("a & b"), "a &amp; b");
    assert_eq!(escape_html("<b>\"it's\"</b>"), "&lt;b&gt;&quot;it&#39;s&quot;&lt;/b&gt;");
    assert_eq!(escape_html("&lt;"), "&amp;lt;");
    assert_eq!(escape_html(""), "");
    assert_eq!(escape_html("plain"), "plain");
}

#[test]
fn escape_is_replacing_in_turn() {
    for s in ["a&b<c>d\"e'f", "&&<<", "&amp;", "''\"\"", "ü<"] {
        let in_turn = s
            .replace('&', "&amp;")
            .replace('<', "&lt;")
            .replace('>', "&gt;")
            .replace('"', "&quot;")
            .replace('\'', "&#39;");
        assert_eq!(escape_html(s), in_turn);
    }
}

#[test]
fn escape_tells_texts_apart() {
    assert_ne!(escape_html("<"), escape_html("&lt;"));
    assert_ne!(escape_html("\""), escape_html("'"));
}
