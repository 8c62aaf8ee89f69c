use fmu_runner::lifecycle::{fixed_set_effective, InstanceState};
use fmu_runner::text::{
    chars_eq, chars_eq_str, parse_bool_chars, parse_i64_chars, parse_u32_chars, parse_u64_chars,
    str_eq,
};
use fmu_runner::xml::parse_document;

fn chars(s: &str) -> Vec<char> {
    s.chars().collect()
}

#[test]
fn decimal_parsing_is_exact() {
    assert_eq!(parse_u64_chars(&chars("0")), Some(0));
    assert_eq!(parse_u64_chars(&chars("18446744073709551615")), Some(u64::MAX));
    assert_eq!(parse_u64_chars(&chars("18446744073709551616")), None);
    assert_eq!(parse_u64_chars(&chars("")), None);
    assert_eq!(parse_u64_chars(&chars("12a")), None);
    assert_eq!(parse_u64_chars(&chars("007")), Some(7));

    assert_eq!(parse_u32_chars(&chars("4294967295")), Some(u32::MAX));
    assert_eq!(parse_u32_chars(&chars("4294967296")), None);

    assert_eq!(parse_i64_chars(&chars("-3")), Some(-3));
    assert_eq!(parse_i64_chars(&chars("+3")), Some(3));
    assert_eq!(parse_i64_chars(&chars("9223372036854775807")), Some(i64::MAX));
    assert_eq!(parse_i64_chars(&chars("-9223372036854775808")), Some(i64::MIN));
    assert_eq!(parse_i64_chars(&chars("-9223372036854775809")), None);
    assert_eq!(parse_i64_chars(&chars("9223372036854775808")), None);
    assert_eq!(parse_i64_chars(&chars("-")), None);
    assert_eq!(parse_i64_chars(&chars("")), None);
}

#[test]
fn boolean_vocabulary_is_closed() {
    assert_eq!(parse_bool_chars(&chars("true")), Some(true));
    assert_eq!(parse_bool_chars(&chars("1")), Some(true));
    assert_eq!(parse_bool_chars(&chars("false")), Some(false));
    assert_eq!(parse_bool_chars(&chars("0")), Some(false));
    assert_eq!(parse_bool_chars(&chars("True")), None);
    assert_eq!(parse_bool_chars(&chars("yes")), None);
}

#[test]
fn character_comparisons() {
    assert!(chars_eq(&chars("abc"), &chars("abc")));
    assert!(!chars_eq(&chars("abc"), &chars("abd")));
    assert!(!chars_eq(&chars("abc"), &chars("ab")));
    assert!(chars_eq_str(&chars("input"), "input"));
    assert!(!chars_eq_str(&chars("Input"), "input"));
    assert!(str_eq("x", "x"));
    assert!(!str_eq("x", "y"));
}

#[test]
fn nested_elements_keep_document_order() {
    let doc = chars("<a x='1'><b/><c n=\"2\"><d/></c><b/></a>");
    let root = parse_document(&doc).unwrap();
    assert_eq!(root.name, chars("a"));
    assert_eq!(root.attributes.len(), 1);
    assert_eq!(root.attributes[0].name, chars("x"));
    assert_eq!(root.attributes[0].value, chars("1"));
    assert_eq!(root.children.len(), 3);
    assert_eq!(root.children[0].name, chars("b"));
    assert_eq!(root.children[1].name, chars("c"));
    assert_eq!(root.children[2].name, chars("b"));
    assert_eq!(root.children[1].children.len(), 1);
    assert_eq!(root.children[1].children[0].name, chars("d"));
}

#[test]
fn comments_and_instructions_are_skipped() {
    let doc = chars(
        "<?xml version=\"1.0\"?><!-- a > b < c --><root><!-- inner --><leaf/></root><!-- tail -->",
    );
    let root = parse_document(&doc).unwrap();
    assert_eq!(root.name, chars("root"));
    assert_eq!(root.children.len(), 1);
}

#[test]
fn text_content_is_ignored() {
    let doc = chars("<root>some text<leaf/>more text</root>");
    let root = parse_document(&doc).unwrap();
    assert_eq!(root.children.len(), 1);
}

#[test]
fn mismatched_close_tag_is_rejected() {
    assert!(parse_document(&chars("<a></b>")).is_err());
    assert!(parse_document(&chars("<a>")).is_err());
    assert!(parse_document(&chars("<a/><b/>")).is_err());
    assert!(parse_document(&chars("<a attr=oops/>")).is_err());
    assert!(parse_document(&chars("<a attr='1'")).is_err());
}

#[test]
fn error_position_points_at_the_offence() {
    let doc = chars("<a b=!/>");
    let err = parse_document(&doc).unwrap_err();
    assert_eq!(err.position, 5);
}

#[test]
fn fixed_parameters_take_only_before_initialization_ends() {
    assert!(fixed_set_effective(InstanceState::Configured));
    assert!(fixed_set_effective(InstanceState::Initializing));
    assert!(!fixed_set_effective(InstanceState::Stepping));
    assert!(!fixed_set_effective(InstanceState::Terminated));
}
