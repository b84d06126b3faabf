use jisho_scrape::text::{parse_number, remove_char, split_lines, trim_text};

#[test]
fn numbers_read_exactly() {
    assert_eq!(parse_number("14"), Some(14));
    assert_eq!(parse_number("007"), Some(7));
    assert_eq!(parse_number("0"), Some(0));
    assert_eq!(parse_number(""), None);
    assert_eq!(parse_number("+1"), None);
    assert_eq!(parse_number("+"), None);
    assert_eq!(parse_number("++1"), None);
    assert_eq!(parse_number("-1"), None);
    assert_eq!(parse_number("1+"), None);
    assert_eq!(parse_number(" 1"), None);
    assert_eq!(parse_number("1４"), None);
    assert_eq!(parse_number("4294967295"), Some(4294967295));
    assert_eq!(parse_number("4294967296"), None);
    assert_eq!(parse_number("99999999999x"), None);
}

#[test]
fn remove_char_takes_out_each_occurrence() {
    assert_eq!(remove_char("【かたる】", '【'), "かたる】");
    assert_eq!(remove_char("a\nb\n\nc", '\n'), "abc");
    assert_eq!(remove_char("", 'x'), "");
}

#[test]
fn split_lines_keeps_empty_pieces() {
    assert_eq!(split_lines("a\nb"), vec!["a", "b"]);
    assert_eq!(split_lines(""), vec![""]);
    assert_eq!(split_lines("\n"), vec!["", ""]);
    assert_eq!(split_lines("語る\n【かたる】\nto talk"), vec!["語る", "【かたる】", "to talk"]);
}

#[test]
fn trim_takes_out_unicode_whitespace_at_both_ends() {
    assert_eq!(trim_text(" \t\u{3000}語 る\u{a0}\n"), "語 る");
    assert_eq!(trim_text("\u{2003}"), "");
    assert_eq!(trim_text(""), "");
    assert_eq!(trim_text("a"), "a");
    let s = "\u{85}\u{2028} x \u{202f}\u{205f}\u{1680}";
    assert_eq!(trim_text(s), s.trim());
}
