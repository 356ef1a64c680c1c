use zoinks::text::decimal_text;
use zoinks::text::join;
use zoinks::text::occurs_at;
use zoinks::text::replace;
use zoinks::text::same_text;
use zoinks::text::strip_prefix;
use zoinks::text::text_from;
use zoinks::text::to_chars;

#[test]
fn chars_come_in_order() {
    assert_eq!(to_chars("a[é"), vec!['a', '[', 'é']);
    assert_eq!(to_chars(""), Vec::<char>::new());
}

#[test]
fn text_from_skips_the_head() {
    let chars = vec!['a', 'b', 'c'];
    assert_eq!(text_from(&chars, 0), "abc");
    assert_eq!(text_from(&chars, 2), "c");
    assert_eq!(text_from(&chars, 3), "");
}

#[test]
fn same_text_compares_characters() {
    assert!(same_text("stream", "stream"));
    assert!(!same_text("stream", "streams"));
    assert!(!same_text("stream", "strean"));
    assert!(same_text("", ""));
    assert!(!same_text("é", "e"));
}

#[test]
fn occurs_at_finds_the_pattern_in_place() {
    let text = to_chars("ab[]cd");
    let pattern = to_chars("[]");
    assert!(occurs_at(&text, 2, &pattern));
    assert!(!occurs_at(&text, 1, &pattern));
    assert!(!occurs_at(&text, 5, &pattern));
    assert!(occurs_at(&text, 6, &Vec::new()));
}

#[test]
fn strip_prefix_gives_the_rest() {
    assert_eq!(strip_prefix("#/definitions/Foo", "#/definitions/"), Some(String::from("Foo")));
    assert_eq!(strip_prefix("#/definitions/", "#/definitions/"), Some(String::new()));
    assert_eq!(strip_prefix("#/defs/Foo", "#/definitions/"), None);
    assert_eq!(strip_prefix("#/def", "#/definitions/"), None);
}

#[test]
fn replace_agrees_with_the_standard_library() {
    let cases = [
        ("a[]b[]", "[]", "_Array_"),
        ("<<>>", "<", "_Qlt_"),
        ("aaa", "aa", "b"),
        ("abc", "x", "y"),
        ("", "x", "y"),
        ("x", "x", ""),
        ("[[]]", "[]", "_"),
    ];
    for (s, from, to) in cases {
        assert_eq!(replace(s, from, to), s.replace(from, to));
    }
}

#[test]
fn replace_of_an_empty_pattern_changes_nothing() {
    assert_eq!(replace("abc", "", "-"), "abc");
}

#[test]
fn decimal_text_writes_digits() {
    assert_eq!(decimal_text(0), "0");
    assert_eq!(decimal_text(7), "7");
    assert_eq!(decimal_text(10), "10");
    assert_eq!(decimal_text(1234567890), "1234567890");
    assert_eq!(decimal_text(u64::MAX), "18446744073709551615");
}

#[test]
fn join_puts_one_behind_the_other() {
    assert_eq!(join("Shape", "Variant"), "ShapeVariant");
    assert_eq!(join("", ""), "");
}

#[test]
fn contains_text_finds_a_member() {
    let list = vec![String::from("a"), String::from("bc")];
    assert!(zoinks::text::contains_text(&list, "bc"));
    assert!(!zoinks::text::contains_text(&list, "b"));
    assert!(!zoinks::text::contains_text(&Vec::new(), ""));
}
