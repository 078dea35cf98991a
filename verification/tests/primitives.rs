use alith_engine::primitives::boolean::BooleanPrimitive;
use alith_engine::primitives::exact_string::ExactStringPrimitive;
use alith_engine::primitives::grammar::{Grammar, ParseError};
use alith_engine::primitives::text::TextPrimitive;
use alith_engine::text::{clone_strings, contains_string, decimal, join, starts_with};

fn strings(words: &[&str]) -> Vec<String> {
    words.iter().map(|w| w.to_string()).collect()
}

#[test]
fn boolean_reads_the_two_words_only() {
    let primitive = BooleanPrimitive::default();
    assert_eq!(primitive.parse("true"), Ok(true));
    assert_eq!(primitive.parse("false"), Ok(false));
    assert_eq!(primitive.parse("True"), Err(ParseError::NotBoolean("True".to_string())));
    assert_eq!(primitive.parse(" true"), Err(ParseError::NotBoolean(" true".to_string())));
    assert_eq!(primitive.parse(""), Err(ParseError::NotBoolean(String::new())));
    assert_eq!(primitive.grammar(), Grammar::Boolean);
}

#[test]
fn text_is_trimmed_and_never_refused() {
    let primitive = TextPrimitive::default();
    assert_eq!(primitive.text_token_length, 200);
    assert_eq!(primitive.parse("  some text \n"), Ok("some text".to_string()));
    assert_eq!(primitive.parse("\u{3000}wide\u{a0}"), Ok("wide".to_string()));
    assert_eq!(primitive.parse("a  b"), Ok("a  b".to_string()));
    assert_eq!(primitive.parse(" \t\n"), Ok(String::new()));
    assert_eq!(primitive.parse(""), Ok(String::new()));
    let shorter = primitive.text_token_length(50);
    assert_eq!(shorter.text_token_length, 50);
    assert_eq!(shorter.grammar(), Grammar::Text { max_tokens: 50 });
}

#[test]
fn allowed_strings_are_added_once_and_in_order() {
    let mut primitive = ExactStringPrimitive::default();
    assert!(primitive.allowed_strings.is_empty());
    primitive.add_strings_to_allowed(&strings(&["b", "a", "b", "c", "a"]));
    assert_eq!(primitive.allowed_strings, strings(&["b", "a", "c"]));
    primitive.add_strings_to_allowed(&strings(&["c", "d"]));
    assert_eq!(primitive.allowed_strings, strings(&["b", "a", "c", "d"]));
    primitive.add_strings_to_allowed(&Vec::new());
    assert_eq!(primitive.allowed_strings, strings(&["b", "a", "c", "d"]));
}

#[test]
fn removing_an_absent_candidate_changes_nothing() {
    let mut primitive = ExactStringPrimitive::default();
    primitive.add_strings_to_allowed(&strings(&["a", "b", "c"]));
    primitive.remove_string_from_allowed("z");
    assert_eq!(primitive.allowed_strings, strings(&["a", "b", "c"]));
    let mut empty = ExactStringPrimitive::default();
    empty.remove_string_from_allowed("a");
    assert!(empty.allowed_strings.is_empty());
}

#[test]
fn removing_a_present_candidate_shrinks_the_set_by_one() {
    let mut primitive = ExactStringPrimitive::default();
    primitive.add_strings_to_allowed(&strings(&["a", "b", "c"]));
    primitive.remove_string_from_allowed("b");
    assert_eq!(primitive.allowed_strings, strings(&["a", "c"]));
    primitive.remove_string_from_allowed("b");
    assert_eq!(primitive.allowed_strings, strings(&["a", "c"]));
    primitive.remove_string_from_allowed("a");
    primitive.remove_string_from_allowed("c");
    assert!(primitive.allowed_strings.is_empty());
}

#[test]
fn exact_string_reads_a_candidate_only() {
    let mut primitive = ExactStringPrimitive::default();
    primitive.add_strings_to_allowed(&strings(&["a", "b"]));
    assert_eq!(primitive.position("b"), Some(1));
    assert_eq!(primitive.position("c"), None);
    assert_eq!(primitive.parse("a"), Ok("a".to_string()));
    assert_eq!(primitive.parse("c"), Err(ParseError::NotAllowed("c".to_string())));
    assert_eq!(primitive.grammar(), Grammar::ExactString { allowed: strings(&["a", "b"]) });
}

#[test]
fn grammars_render_for_the_backend() {
    assert_eq!(Grammar::Unconstrained.grammar_string(), None);
    assert_eq!(
        Grammar::Boolean.grammar_string(),
        Some("root ::= \"true\" | \"false\"".to_string())
    );
    assert_eq!(
        Grammar::ExactString { allowed: strings(&["a", "b c"]) }.grammar_string(),
        Some("root ::= \"a\" | \"b c\"".to_string())
    );
    assert_eq!(
        Grammar::ExactString { allowed: Vec::new() }.grammar_string(),
        Some("root ::= ".to_string())
    );
    assert_eq!(
        Grammar::Text { max_tokens: 200 }.grammar_string(),
        Some("root ::= [^\\n]+ # at most 200 tokens".to_string())
    );
}

#[test]
fn grammars_read_generated_text() {
    assert_eq!(Grammar::Unconstrained.parse(" x "), Ok(" x ".to_string()));
    assert_eq!(Grammar::Boolean.parse("false"), Ok("false".to_string()));
    assert_eq!(Grammar::Boolean.parse("no"), Err(ParseError::NotBoolean("no".to_string())));
    assert_eq!(Grammar::Text { max_tokens: 3 }.parse(" x "), Ok("x".to_string()));
    let choice = Grammar::ExactString { allowed: strings(&["a"]) };
    assert_eq!(choice.parse("a"), Ok("a".to_string()));
    assert_eq!(choice.parse("b"), Err(ParseError::NotAllowed("b".to_string())));
    assert_eq!(choice.duplicate(), choice);
}

#[test]
fn numbers_are_written_in_decimal() {
    assert_eq!(decimal(0), "0");
    assert_eq!(decimal(7), "7");
    assert_eq!(decimal(10), "10");
    assert_eq!(decimal(1905), "1905");
    assert_eq!(decimal(u64::MAX), "18446744073709551615");
}

#[test]
fn strings_are_joined_with_a_separator() {
    assert_eq!(join(&strings(&[]), ", "), "");
    assert_eq!(join(&strings(&["a"]), ", "), "a");
    assert_eq!(join(&strings(&["a", "", "c"]), ", "), "a, , c");
    assert!(contains_string(&strings(&["a", "b"]), "b"));
    assert!(!contains_string(&strings(&["a", "b"]), "ab"));
    assert_eq!(clone_strings(&strings(&["a", "b"])), strings(&["a", "b"]));
}

#[test]
fn prefixes_are_told_character_by_character() {
    assert!(starts_with("https://a.com", "http"));
    assert!(starts_with("http", "http"));
    assert!(starts_with("anything", ""));
    assert!(starts_with("", ""));
    assert!(!starts_with("htt", "http"));
    assert!(!starts_with("", "h"));
    assert!(!starts_with("xhttp", "http"));
    assert!(!starts_with("httq://", "http"));
    assert!(starts_with("caf\u{e9} au lait", "caf\u{e9}"));
    assert!(!starts_with("cafe au lait", "caf\u{e9}"));
}
