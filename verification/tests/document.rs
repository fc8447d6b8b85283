use saga::document::split_on_whitespace;
use saga::document::Document;
use saga::document::DocumentError;
use std::str::FromStr;

#[test]
fn test_create_document() {
    let new_document = Document::new(0, "Test");
    assert_eq!(new_document.id.unwrap(), 0);
}

#[test]
fn test_document_from_string() {
    let new_document = Document::from_str("Test").unwrap();
    assert_eq!(new_document.id, None);
    assert_eq!(new_document.raw, "Test");
}

#[test]
fn test_split_document() {
    let new_document = Document::from_str("This is a test").unwrap();
    let results = split_on_whitespace(&new_document.raw);
    assert_eq!(results.len(), 4);
}

#[test]
fn split_pairs_each_term_with_its_place() {
    let results = split_on_whitespace("This is a test");
    assert_eq!(
        results,
        vec![
            ("This".to_string(), 0),
            ("is".to_string(), 1),
            ("a".to_string(), 2),
            ("test".to_string(), 3)
        ]
    );
}

#[test]
fn split_skips_runs_of_whitespace_at_both_ends() {
    let results = split_on_whitespace("  \t alpha\n\n beta\u{00A0}gamma \r\n");
    assert_eq!(
        results,
        vec![("alpha".to_string(), 0), ("beta".to_string(), 1), ("gamma".to_string(), 2)]
    );
}

#[test]
fn split_of_empty_and_blank_text_is_empty() {
    assert_eq!(split_on_whitespace("").len(), 0);
    assert_eq!(split_on_whitespace(" \t\n ").len(), 0);
}

#[test]
fn split_agrees_with_split_whitespace() {
    let text = "one  two\tthree\u{2003}four\u{3000}five one";
    let expected: Vec<(String, u64)> =
        text.split_whitespace().enumerate().map(|(i, t)| (t.to_string(), i as u64)).collect();
    assert_eq!(split_on_whitespace(text), expected);
}

#[test]
fn new_document_records_each_term_once() {
    let document = Document::new(7, "This is a test");
    assert_eq!(document.locations.len(), 4);
    assert_eq!(document.locations.get("This"), Some(&vec![0]));
    assert_eq!(document.locations.get("is"), Some(&vec![1]));
    assert_eq!(document.locations.get("a"), Some(&vec![2]));
    assert_eq!(document.locations.get("test"), Some(&vec![3]));
}

#[test]
fn repeated_terms_keep_their_places_in_order() {
    let document = Document::new(1, "to be or not to be");
    assert_eq!(document.locations.len(), 4);
    assert_eq!(document.locations.get("to"), Some(&vec![0, 4]));
    assert_eq!(document.locations.get("be"), Some(&vec![1, 5]));
    assert_eq!(document.locations.get("or"), Some(&vec![2]));
    assert_eq!(document.locations.get("not"), Some(&vec![3]));
    assert_eq!(document.locations.get("To"), None);
}

#[test]
fn terms_are_case_sensitive() {
    let document = Document::new(1, "Test test TEST");
    assert_eq!(document.locations.len(), 3);
    assert_eq!(document.locations.get("test"), Some(&vec![1]));
}

#[test]
fn from_string_defers_tokenizing() {
    let mut document = Document::from_string("a b a");
    assert_eq!(document.id, None);
    assert!(document.locations.is_empty());
    Document::process(&mut document);
    assert_eq!(document.locations.get("a"), Some(&vec![0, 2]));
    assert_eq!(document.locations.get("b"), Some(&vec![1]));
}

#[test]
fn processing_twice_changes_nothing() {
    let mut document = Document::new(3, "x y x");
    Document::process(&mut document);
    assert_eq!(document.locations.len(), 2);
    assert_eq!(document.locations.get("x"), Some(&vec![0, 2]));
    assert_eq!(document.id, Some(3));
    assert_eq!(document.raw, "x y x");
}

#[test]
fn raw_replaces_the_text_and_its_locations() {
    let document = Document::new(0, "").raw("This is a test".to_string());
    assert_eq!(document.id, Some(0));
    assert_eq!(document.raw, "This is a test");
    assert_eq!(document.locations.len(), 4);
    assert_eq!(document.locations.get("test"), Some(&vec![3]));
}

#[test]
fn document_error_keeps_its_message() {
    let error = DocumentError::new("Invalid character in Document!");
    assert_eq!(error.description(), "Invalid character in Document!");
}

#[test]
fn ascii_whitespace_is_space_and_tab_to_carriage_return() {
    let results = split_on_whitespace("a b\tc\nd\u{0B}e\u{0C}f\rg");
    let terms: Vec<&str> = results.iter().map(|(term, _)| term.as_str()).collect();
    assert_eq!(terms, vec!["a", "b", "c", "d", "e", "f", "g"]);
    let results = split_on_whitespace("a\u{08}b\u{0E}c\u{1C}d\u{1F}e\u{7F}f_g");
    assert_eq!(results, vec![("a\u{08}b\u{0E}c\u{1C}d\u{1F}e\u{7F}f_g".to_string(), 0)]);
}
