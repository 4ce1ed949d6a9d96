use xilem_web_tailwindcss::classes::push_classes;
use xilem_web_tailwindcss::classes::split_whitespace_tokens;
use xilem_web_tailwindcss::tw;
use xilem_web_tailwindcss::TwInput;

#[test]
fn tw_splits_literals() {
    let classes = tw(vec!["p-4 text-sm", "bg-blue-500"]);
    let expected = vec![
        "p-4".to_string(),
        "text-sm".to_string(),
        "bg-blue-500".to_string(),
    ];
    assert_eq!(classes, expected);
}

#[test]
fn tw_conditional_literals() {
    let active = true;
    let mut classes = tw("base");
    if active {
        push_classes(&mut classes, "active");
    }
    if !active {
        push_classes(&mut classes, "inactive");
    }
    let expected = vec!["base".to_string(), "active".to_string()];
    assert_eq!(classes, expected);
}

#[test]
fn tw_expression_splits() {
    let input = String::from("p-4 text-sm");
    let classes = tw(input);
    let expected = vec!["p-4".to_string(), "text-sm".to_string()];
    assert_eq!(classes, expected);
}

#[test]
fn tw_with_array_and_option() {
    let optional = Some("text-sm");
    let mut classes = tw(["p-4", "bg-blue-500"]);
    optional.append_to(&mut classes);
    let expected = vec![
        "p-4".to_string(),
        "bg-blue-500".to_string(),
        "text-sm".to_string(),
    ];
    assert_eq!(classes, expected);
}

#[test]
fn tw_function_splits_str() {
    let classes = tw("p-4 text-sm");
    let expected = vec!["p-4".to_string(), "text-sm".to_string()];
    assert_eq!(classes, expected);
}

#[test]
fn tw_of_option_and_string() {
    let classes = tw(Some("px-2  py-1".to_string()));
    assert_eq!(classes, vec!["px-2".to_string(), "py-1".to_string()]);
    let empty = tw(None::<&str>);
    assert!(empty.is_empty());
}

#[test]
fn split_handles_leading_trailing_and_tabs() {
    let toks = split_whitespace_tokens("  a\tb\n c  ");
    assert_eq!(toks, vec!["a".to_string(), "b".to_string(), "c".to_string()]);
    let none = split_whitespace_tokens("   \t\n");
    assert!(none.is_empty());
    let empty = split_whitespace_tokens("");
    assert!(empty.is_empty());
}

#[test]
fn tw_of_existing_list_keeps_tokens_verbatim() {
    let existing = vec!["p-4".to_string(), "text-sm".to_string()];
    let mut classes = tw(&existing);
    assert_eq!(classes, existing);
    (&existing).append_to(&mut classes);
    assert_eq!(
        classes,
        vec![
            "p-4".to_string(),
            "text-sm".to_string(),
            "p-4".to_string(),
            "text-sm".to_string(),
        ]
    );
}

#[test]
fn split_handles_unicode_whitespace() {
    let toks = split_whitespace_tokens("a\u{a0}b\u{3000}c");
    assert_eq!(toks, vec!["a".to_string(), "b".to_string(), "c".to_string()]);
}
