use verbal_expressions::Verex;

#[test]
fn test_start_of_line() {
    assert_eq!(&Verex::new().start_of_line().as_string(), "^");
}

#[test]
fn test_end_of_line() {
    assert_eq!(&Verex::new().end_of_line().as_string(), "$");
}

#[test]
fn test_add() {
    assert_eq!(&Verex::new().add("Karen").as_string(), "Karen");
    assert_eq!(&Verex::new().add("Karen").add("Karen").as_string(), "KarenKaren");
}

#[test]
fn test_find() {
    assert!(Verex::new().find("Karen").is_match("Karen"));
    assert!(!Verex::new().find("Karen").is_match("Alice"));
}

#[test]
fn test_then() {
    assert!(Verex::new().and_then("Karen").is_match("Karen"));
    assert!(!Verex::new().and_then("Karen").is_match("Alice"));
}

#[test]
fn test_maybe() {
    assert!(Verex::new().maybe("Karen").is_match("Karen"));
    assert!(Verex::new().maybe("Karen").is_match("Alice"));
}

#[test]
fn test_anything() {
    assert!(Verex::new().anything().is_match(""));
    assert!(Verex::new().anything().is_match("Karen"));
}

#[test]
fn test_anything_but_not() {
    assert!(!Verex::new().start_of_line().anything_but_not("r").end_of_line().is_match("Karen"));
    assert!(Verex::new().start_of_line().anything_but_not("r").end_of_line().is_match("Alice"));
}

#[test]
fn test_something() {
    assert!(!Verex::new().something().is_match(""));
    assert!(Verex::new().something().is_match("Karen"));
}

#[test]
fn test_something_but_not() {
    assert!(!Verex::new().start_of_line().something_but_not("r").end_of_line().is_match("Karen"));
    assert!(Verex::new().start_of_line().something_but_not("r").end_of_line().is_match("Alice"));
}

#[test]
fn test_line_break() {
    assert!(Verex::new().line_break().is_match("\n"));
    assert!(Verex::new().line_break().is_match("\n\r"));
}

#[test]
fn test_br() {
    assert!(Verex::new().br().is_match("\n"));
    assert!(Verex::new().br().is_match("\n\r"));
}

#[test]
fn test_tab() {
    assert!(Verex::new().tab().is_match("\t"));
}

#[test]
fn test_word() {
    assert!(Verex::new().word().is_match("Karen"));
    assert!(!Verex::new().word().is_match("*"));
}

#[test]
fn test_non_word() {
    assert!(!Verex::new().non_word().is_match("Karen"));
    assert!(Verex::new().non_word().is_match("*"));
}

#[test]
fn test_digit() {
    assert!(Verex::new().digit().is_match("42"));
    assert!(!Verex::new().digit().is_match("Karen"));
}

#[test]
fn test_non_digit() {
    assert!(!Verex::new().non_digit().is_match("42"));
    assert!(Verex::new().non_digit().is_match("Karen"));
}

#[test]
fn test_space() {
    assert!(Verex::new().space().is_match(" "));
    assert!(Verex::new().space().is_match("　"));
    assert!(!Verex::new().space().is_match("Karen"));
}

#[test]
fn test_non_space() {
    assert!(!Verex::new().non_space().is_match(" "));
    assert!(!Verex::new().non_space().is_match("　"));
    assert!(Verex::new().non_space().is_match("Karen"));
}

#[test]
fn test_any_of() {
    assert!(Verex::new().any_of("Karen").is_match("K"));
    assert!(!Verex::new().any_of("Karen").is_match("*"));
}

#[test]
fn test_any() {
    assert!(Verex::new().any("Karen").is_match("K"));
    assert!(!Verex::new().any("Karen").is_match("*"));
}

#[test]
fn test_range() {
    assert!(Verex::new().range(&[("a", "z")]).is_match("x"));
    assert!(!Verex::new().range(&[("a", "z")]).is_match("*"));
    assert!(Verex::new().range(&[("a", "z"), ("A", "Z")]).is_match("X"));
    assert!(!Verex::new().range(&[("a", "z"), ("A", "Z")]).is_match("*"));
}

#[test]
fn test_add_modifier() {
    assert_eq!(&Verex::new().add_modifier("x").as_string(), "(?x)");
}

#[test]
fn test_remove_modifier() {
    assert_eq!(&Verex::new().remove_modifier("x").as_string(), "(?-x)");
}

#[test]
fn test_with_any_case() {
    assert!(Verex::new().with_any_case().and_then("Karen").is_match("karen"));
}

#[test]
fn test_with_specific_case() {
    assert!(!Verex::new().with_specific_case().and_then("Karen").is_match("karen"));
}

#[test]
fn test_search_multiline() {}

#[test]
fn test_search_oneline() {}

#[test]
fn test_multiple() {
    assert_eq!(&Verex::new().multiple("x", &[]).as_string(), "(?:x)+");
    assert_eq!(&Verex::new().multiple("x", &[1]).as_string(), "(?:x){1}");
    assert_eq!(&Verex::new().multiple("x", &[1, 2]).as_string(), "(?:x){1,2}");
}

#[test]
fn test_one_or_more() {
    assert!(!Verex::new().and_then("x").one_or_more().is_match(""));
    assert!(Verex::new().and_then("x").one_or_more().is_match("x"));
}

#[test]
fn test_zero_or_more() {
    assert!(Verex::new().and_then("x").zero_or_more().is_match(""));
    assert!(Verex::new().and_then("x").zero_or_more().is_match("x"));
}

#[test]
fn test_count() {
    assert!(!Verex::new().and_then("x").count(1).is_match(""));
    assert!(Verex::new().and_then("x").count(1).is_match("x"));
}

#[test]
fn test_count_range() {
    assert!(!Verex::new().and_then("x").count_range(1, 2).is_match(""));
    assert!(Verex::new().and_then("x").count_range(1, 2).is_match("x"));
}

#[test]
fn test_at_least() {
    assert!(!Verex::new().and_then("x").at_least(2).is_match("x"));
    assert!(Verex::new().and_then("x").at_least(2).is_match("xx"));
}

#[test]
fn test_or() {
    assert!(Verex::new().and_then("Karen").or("Alice").is_match("Karen"));
    assert!(Verex::new().and_then("Karen").or("Alice").is_match("Alice"));
}

#[test]
fn test_begin_capture() {
    let v = Verex::new().begin_capture().and_then("K");
    assert_eq!(&v.captures("Karen")[1], "K");
}

#[test]
fn test_end_capture() {
    let v = Verex::new().begin_capture().and_then("K").end_capture().and_then("aren");
    assert_eq!(&v.captures("Karen")[1], "K");
}
