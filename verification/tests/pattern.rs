use files_utils::error::CompileError;
use files_utils::pattern::{contains_pattern, search_compiled};
use regex::Regex;

#[test]
fn test_contains_pattern() {
    assert_eq!(contains_pattern("hello 123", r"\d+").unwrap(), true);
    assert_eq!(contains_pattern("no digits", r"\d+").unwrap(), false);
}

#[test]
fn test_contains_pattern_from_core() {
    assert!(contains_pattern("abc123", r"\d+").unwrap());
}

#[test]
fn unbalanced_group_is_a_compile_error_for_any_text() {
    assert!(contains_pattern("", "(").is_err());
    assert!(contains_pattern("(", "(").is_err());
    assert!(contains_pattern("hello 123", "(").is_err());
    assert!(contains_pattern("no digits", "(").is_err());
}

#[test]
fn compile_error_carries_pattern_and_message() {
    let expected = Regex::new("(").unwrap_err().to_string();
    let err = contains_pattern("anything", "(").unwrap_err();
    assert_eq!(err.pattern, "(");
    assert_eq!(err.message, expected);
    assert!(!err.message.is_empty());
    assert_ne!(err.message, err.pattern);
}

#[test]
fn bad_escape_is_a_compile_error() {
    let err = contains_pattern("abc", r"\q").unwrap_err();
    assert_eq!(err.pattern, r"\q");
    assert_eq!(err.message, Regex::new(r"\q").unwrap_err().to_string());
}

#[test]
fn no_match_is_not_an_error() {
    assert_eq!(contains_pattern("abc", "xyz"), Ok(false));
    assert_eq!(contains_pattern("", "a"), Ok(false));
}

#[test]
fn match_may_sit_anywhere_in_the_text() {
    assert_eq!(contains_pattern("needle in hay", "needle"), Ok(true));
    assert_eq!(contains_pattern("hay with needle inside", "needle"), Ok(true));
    assert_eq!(contains_pattern("hay ends in needle", "needle"), Ok(true));
    assert_eq!(contains_pattern("xxabcxx", "^abc$"), Ok(false));
    assert_eq!(contains_pattern("abc", "^abc$"), Ok(true));
}

#[test]
fn empty_pattern_matches_every_text() {
    assert_eq!(contains_pattern("", ""), Ok(true));
    assert_eq!(contains_pattern("abc", ""), Ok(true));
}

#[test]
fn sample_sentence_holds_a_number() {
    let text = "the quick brown fox jumps over 13 lazy dogs";
    assert_eq!(contains_pattern(text, r"\d+"), Ok(true));
    assert_eq!(contains_pattern(text, r"\d{3}"), Ok(false));
    assert_eq!(contains_pattern(text, "cat"), Ok(false));
}

#[test]
fn search_compiled_runs_a_compiled_pattern() {
    assert_eq!(search_compiled(Regex::new(r"\d+"), r"\d+", "hello 123"), Ok(true));
    assert_eq!(search_compiled(Regex::new(r"\d+"), r"\d+", "no digits"), Ok(false));
}

#[test]
fn search_compiled_reports_a_refusal() {
    let expected = Regex::new("a{2,1}").unwrap_err().to_string();
    let result = search_compiled(Regex::new("a{2,1}"), "a{2,1}", "aa");
    assert_eq!(
        result,
        Err(CompileError { pattern: String::from("a{2,1}"), message: expected })
    );
}

#[test]
fn search_agrees_with_the_compiler_on_samples() {
    let patterns = ["a+b", "[0-9]{2}", "(", "x|y", "[", r"\bfox\b"];
    let texts = ["", "aab", "42", "the fox", "zzz"];
    for pattern in patterns {
        for text in texts {
            match Regex::new(pattern) {
                Ok(re) => assert_eq!(contains_pattern(text, pattern), Ok(re.is_match(text))),
                Err(e) => {
                    let err = contains_pattern(text, pattern).unwrap_err();
                    assert_eq!(err.pattern, pattern);
                    assert_eq!(err.message, e.to_string());
                }
            }
        }
    }
}
