use verbal_expressions::Verex;

#[test]
fn test_render_is_segment_concat() {
    let v = Verex::new().start_of_line().find("Karen").end_of_line();
    assert_eq!(&v.as_string(), "^(?:Karen)$");
}

#[test]
fn test_render_twice_identical() {
    let v = Verex::new().start_of_line().find("Karen").or("Alice").end_of_line();
    let first = v.pattern();
    let second = v.pattern();
    assert_eq!(first, second);
}

#[test]
fn test_find_render() {
    assert_eq!(&Verex::new().find("Karen").as_string(), "(?:Karen)");
}

#[test]
fn test_find_empty_value_render() {
    assert_eq!(&Verex::new().find("").as_string(), "(?:)");
}

#[test]
fn test_maybe_render() {
    assert_eq!(&Verex::new().maybe("x").as_string(), "(?:x)?");
}

#[test]
fn test_anything_but_not_render() {
    assert_eq!(&Verex::new().anything_but_not("r").as_string(), "(?:[^r]*)");
}

#[test]
fn test_something_but_not_render() {
    assert_eq!(&Verex::new().something_but_not("r").as_string(), "(?:[^r]+)");
}

#[test]
fn test_any_of_render() {
    assert_eq!(&Verex::new().any_of("abc").as_string(), "[abc]");
}

#[test]
fn test_range_render() {
    assert_eq!(&Verex::new().range(&[("a", "z"), ("A", "Z")]).as_string(), "[a-zA-Z]");
}

#[test]
fn test_range_empty_render() {
    assert_eq!(&Verex::new().range(&[]).as_string(), "[]");
}

#[test]
fn test_quantifier_renders() {
    assert_eq!(&Verex::new().find("x").one_or_more().as_string(), "(?:x)+");
    assert_eq!(&Verex::new().find("x").zero_or_more().as_string(), "(?:x)*");
    assert_eq!(&Verex::new().find("x").at_least(2).as_string(), "(?:x){2,}");
}

#[test]
fn test_count_render_multi_digit() {
    assert_eq!(&Verex::new().find("x").count(12).as_string(), "(?:x){12}");
    assert_eq!(&Verex::new().find("x").count(0).as_string(), "(?:x){0}");
}

#[test]
fn test_count_render_negative() {
    assert_eq!(&Verex::new().find("x").count(-3).as_string(), "(?:x){-3}");
    assert_eq!(
        &Verex::new().find("x").count(-2147483648).as_string(),
        "(?:x){-2147483648}"
    );
}

#[test]
fn test_count_range_render() {
    assert_eq!(&Verex::new().find("x").count_range(10, 20).as_string(), "(?:x){10,20}");
}

#[test]
fn test_multiple_extra_counts_use_first_two() {
    assert_eq!(&Verex::new().multiple("x", &[1, 2, 3]).as_string(), "(?:x){1,2}");
}

#[test]
fn test_or_render_balanced() {
    let v = Verex::new().find("Karen").or("Alice").or("Bob");
    assert_eq!(&v.as_string(), "((?:Karen))|((?:Alice))|((?:Bob))");
}

#[test]
fn test_or_twice_still_compiles() {
    let v = Verex::new().find("Karen").or("Alice").or("Bob");
    assert_eq!(v.try_is_match("Bob"), Some(true));
}

#[test]
fn test_capture_round_trip_render() {
    let v = Verex::new().begin_capture().find("K").end_capture().find("aren");
    assert_eq!(&v.as_string(), "((?:K))(?:aren)");
}

#[test]
fn test_nested_captures_render() {
    let v = Verex::new().begin_capture().begin_capture().find("K").end_capture().end_capture();
    assert_eq!(&v.as_string(), "(((?:K)))");
}

#[test]
fn test_line_break_render() {
    assert_eq!(&Verex::new().line_break().as_string(), "(?:(?:\\n)|(?:\\r\\n))");
}

#[test]
fn test_modifier_composition_renders() {
    assert_eq!(&Verex::new().with_any_case().as_string(), "(?i)");
    assert_eq!(&Verex::new().with_specific_case().as_string(), "(?-i)");
    assert_eq!(&Verex::new().search_multiline().as_string(), "(?m)");
    assert_eq!(&Verex::new().search_oneline().as_string(), "(?-m)");
}

#[test]
fn test_compile_ok() {
    let re = Verex::new().find("Karen").compile().unwrap();
    assert_eq!(re.as_str(), "(?:Karen)");
    assert!(re.is_match("Karen"));
}

#[test]
fn test_compile_err_on_bad_pattern() {
    assert!(Verex::new().add("(").compile().is_err());
}

#[test]
fn test_try_is_match_none_on_bad_pattern() {
    assert_eq!(Verex::new().add("(").try_is_match("x"), None);
}

#[test]
fn test_try_is_match_some() {
    assert_eq!(Verex::new().find("Karen").try_is_match("Karen"), Some(true));
    assert_eq!(Verex::new().find("Karen").try_is_match("Alice"), Some(false));
}

#[test]
fn test_captures_no_match_is_empty() {
    let v = Verex::new().begin_capture().find("K").end_capture();
    assert!(v.captures("zzz").is_empty());
}

#[test]
fn test_try_captures_some() {
    let v = Verex::new().begin_capture().find("K").end_capture().find("aren");
    let caps = v.try_captures("Karen").unwrap();
    assert_eq!(caps, vec!["Karen".to_string(), "K".to_string()]);
}

#[test]
fn test_try_captures_none_on_bad_pattern() {
    assert_eq!(Verex::new().add(")").try_captures("x"), None);
}

#[test]
fn test_try_captures_none_on_absent_group() {
    // The second group takes no part when the first alternative matches.
    let v = Verex::new().add("(a)|(b)");
    assert_eq!(v.try_captures("a"), None);
}

#[test]
fn test_split() {
    let v = Verex::new().find(",");
    assert_eq!(
        v.split("a,b,c"),
        vec!["a".to_string(), "b".to_string(), "c".to_string()]
    );
}

#[test]
fn test_try_split() {
    assert_eq!(
        Verex::new().find(",").try_split("a,b"),
        Some(vec!["a".to_string(), "b".to_string()])
    );
    assert_eq!(Verex::new().add("(").try_split("a,b"), None);
}

#[test]
fn test_replace_first_match_only() {
    let v = Verex::new().find("K");
    assert_eq!(&v.replace("KoKo", "B"), "BoKo");
}

#[test]
fn test_try_replace() {
    assert_eq!(
        Verex::new().find("K").try_replace("Karen", "Sh"),
        Some("Sharen".to_string())
    );
    assert_eq!(Verex::new().add("(").try_replace("Karen", "Sh"), None);
}

#[test]
fn test_as_regex_keeps_pattern() {
    let re = Verex::new().find("x").one_or_more().as_regex();
    assert_eq!(re.as_str(), "(?:x)+");
}
