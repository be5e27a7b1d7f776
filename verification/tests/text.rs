use maestro::table::Table;
use maestro::text::{
    before, cat2, contains, i64_text, is_blank, join, lines_with_content, pad_left, pad_right,
    parse_u64, path_join, split, starts_with, strip_prefix, take_chars, trim, trim_end, u64_text,
};

#[test]
fn texts_are_searched_and_trimmed() {
    assert!(contains("hay needle hay", "needle"));
    assert!(!contains("hay", "hays"));
    assert!(contains("x", ""));
    assert_eq!(strip_prefix("--p=x", "--p="), Some("x"));
    assert_eq!(strip_prefix("x", "xx"), None);
    assert!(starts_with("abc", "ab"));
    assert_eq!(trim(" \t a b \n"), "a b");
    assert_eq!(trim("\u{2003}x\u{a0}"), "x");
    assert_eq!(trim_end(" a \n"), " a");
    assert!(is_blank(" \n\t"));
    assert!(!is_blank(" . "));
    assert_eq!(before("a/b/c", '/'), "a");
    assert_eq!(before("abc", '/'), "abc");
}

#[test]
fn texts_are_split_and_joined() {
    assert_eq!(split("a,,b", ','), vec!["a", "", "b"]);
    assert_eq!(split("", ','), vec![""]);
    assert_eq!(lines_with_content("a\n \n b\n"), vec!["a", "b"]);
    let items = vec!["a".to_string(), "b".to_string(), "c".to_string()];
    assert_eq!(join(&items, ", "), "a, b, c");
    assert_eq!(join(&vec![], ", "), "");
    assert_eq!(take_chars("áéí", 2), "áé");
    assert_eq!(cat2("a", "b"), "ab");
}

#[test]
fn numbers_are_written_and_read() {
    assert_eq!(u64_text(0), "0");
    assert_eq!(u64_text(u64::MAX), "18446744073709551615");
    assert_eq!(i64_text(i64::MIN), "-9223372036854775808");
    assert_eq!(i64_text(-7), "-7");
    assert_eq!(parse_u64("42"), Some(42));
    assert_eq!(parse_u64("+42"), Some(42));
    assert_eq!(parse_u64("18446744073709551615"), Some(u64::MAX));
    assert_eq!(parse_u64("18446744073709551616"), None);
    assert_eq!(parse_u64("-1"), None);
    assert_eq!(parse_u64(""), None);
    assert_eq!(parse_u64("4 2"), None);
}

#[test]
fn texts_are_padded_by_characters() {
    assert_eq!(pad_right("é", 3), "é  ");
    assert_eq!(pad_left("é", 3), "  é");
    assert_eq!(pad_right("long", 2), "long");
    assert_eq!(pad_left("long", 4), "long");
}

#[test]
fn paths_are_joined_with_one_slash() {
    assert_eq!(path_join("/a", "b"), "/a/b");
    assert_eq!(path_join("/a/", "b"), "/a/b");
    assert_eq!(path_join("/a", "/b"), "/b");
}

#[test]
fn tables_hold_one_value_per_key() {
    let mut t: Table<u8> = Table::new();
    t.insert("a", 1);
    t.insert("b", 2);
    t.insert("a", 3);
    assert_eq!(t.get("a"), Some(&3));
    assert_eq!(t.remove("a"), Some(3));
    assert_eq!(t.remove("a"), None);
    assert_eq!(t.get("b"), Some(&2));
}
