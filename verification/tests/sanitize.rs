use zoinks::sanitize;

fn is_identifier_char(c: char) -> bool {
    c.is_ascii_alphanumeric() || c == '_'
}

#[test]
fn markers_replace_punctuation() {
    assert_eq!(sanitize("Foo[]"), "Foo_Array_");
    assert_eq!(sanitize("A<B>"), "A_Qlt_B_Qgt_");
    assert_eq!(sanitize("A|B"), "A_Qor_B");
    assert_eq!(sanitize("A,B"), "A_Qand_B");
    assert_eq!(sanitize("f(x)"), "f_Qop_x_Qcp_");
    assert_eq!(sanitize("$ref"), "_Reserved_ref");
}

#[test]
fn distinct_punctuation_stays_distinct() {
    assert_ne!(sanitize("A<B"), sanitize("A>B"));
    assert_ne!(sanitize("A|B"), sanitize("A,B"));
    assert_ne!(sanitize("A(B"), sanitize("A)B"));
}

#[test]
fn brackets_quotes_and_hyphens_become_underscores() {
    assert_eq!(sanitize("a-b"), "a_b");
    assert_eq!(sanitize("a[b]"), "a_b_");
    assert_eq!(sanitize("\"quoted\""), "_quoted_");
    assert_eq!(sanitize("]["), "__");
}

#[test]
fn reserved_words_get_a_safe_form() {
    assert_eq!(sanitize("as"), "reserved_as");
    assert_eq!(sanitize("type"), "reserved_type");
    assert_eq!(sanitize("box"), "reserved_box");
    assert_eq!(sanitize("URI"), "UniformResourceIdiot");
}

#[test]
fn reserved_words_are_matched_exactly() {
    assert_eq!(sanitize("asx"), "asx");
    assert_eq!(sanitize("Type"), "Type");
    assert_eq!(sanitize("uri"), "uri");
    assert_eq!(sanitize("a-s"), "a_s");
}

#[test]
fn plain_names_pass_unchanged() {
    assert_eq!(sanitize("Name"), "Name");
    assert_eq!(sanitize("snake_case_9"), "snake_case_9");
}

#[test]
fn sanitize_is_deterministic() {
    assert_eq!(sanitize("Map<string,Foo[]>"), sanitize("Map<string,Foo[]>"));
    assert_eq!(sanitize("Map<string,Foo[]>"), "Map_Qlt_string_Qand_Foo_Array__Qgt_");
}

#[test]
fn handled_text_comes_out_as_identifier_text() {
    let inputs = ["a", "-", "[]", "[", "<>|,()$", "Foo<Bar[]>", "\"", "as", "x_1-y"];
    for input in inputs {
        let out = sanitize(input);
        assert!(!out.is_empty());
        assert!(out.chars().all(is_identifier_char));
    }
}

#[test]
fn empty_text_and_unhandled_characters_pass_through() {
    assert_eq!(sanitize(""), "");
    assert_eq!(sanitize("a b"), "a b");
    assert_eq!(sanitize("a.b"), "a.b");
}

fn by_the_standard_library(before: &str) -> String {
    let out = before
        .replace("[]", "_Array_")
        .replace("<", "_Qlt_")
        .replace(">", "_Qgt_")
        .replace("|", "_Qor_")
        .replace(",", "_Qand_")
        .replace("(", "_Qop_")
        .replace(")", "_Qcp_")
        .replace("$", "_Reserved_");
    let class = regex::Regex::new(r#"[\[\]"\-]"#).unwrap();
    let out = class.replace_all(&out, "_").into_owned();
    match out.as_str() {
        "as" => String::from("reserved_as"),
        "type" => String::from("reserved_type"),
        "box" => String::from("reserved_box"),
        "URI" => String::from("UniformResourceIdiot"),
        _ => out,
    }
}

#[test]
fn sanitize_agrees_with_replace_and_regex() {
    let inputs = [
        "",
        "as",
        "type",
        "box",
        "URI",
        "Foo",
        "Foo[]",
        "[][]",
        "[[]]",
        "][",
        "Map<string,(Foo|Bar)[]>",
        "$ref",
        "a-b-c",
        "\"quoted\"",
        "with space",
        "ünïcödé[]-<é>",
        "a\\-b",
        "-as-",
        "t-ype",
    ];
    for input in inputs {
        assert_eq!(zoinks::sanitize(input), by_the_standard_library(input), "{:?}", input);
    }
}
