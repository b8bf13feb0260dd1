use forum_scraper::config::{flag_value, parse_switch};

#[test]
fn a_switch_is_true_or_false_in_lowercase() {
    assert_eq!(parse_switch("true"), Some(true));
    assert_eq!(parse_switch("false"), Some(false));
    assert_eq!(parse_switch("True"), None);
    assert_eq!(parse_switch("FALSE"), None);
    assert_eq!(parse_switch(""), None);
    assert_eq!(parse_switch("1"), None);
    assert_eq!(parse_switch("yes"), None);
    assert_eq!(parse_switch(" true"), None);
    assert_eq!(parse_switch("truee"), None);
    assert_eq!(parse_switch("tru"), None);
    assert_eq!(parse_switch("falsy"), None);
}

#[test]
fn a_switch_agrees_with_the_standard_parse() {
    for text in ["true", "false", "", "t", "TRUE", "true ", "0", "falsee", "fals"] {
        assert_eq!(parse_switch(text), text.parse::<bool>().ok(), "text {:?}", text);
    }
}

#[test]
fn the_case_of_a_flag_does_not_count() {
    assert!(flag_value(Some("TRUE"), false));
    assert!(flag_value(Some("True"), false));
    assert!(flag_value(Some("true"), false));
    assert!(!flag_value(Some("FALSE"), true));
    assert!(!flag_value(Some("fAlSe"), true));
}

#[test]
fn a_missing_flag_has_its_default() {
    assert!(flag_value(None, true));
    assert!(!flag_value(None, false));
}

#[test]
fn a_flag_that_is_no_switch_has_its_default() {
    assert!(flag_value(Some("yes"), true));
    assert!(!flag_value(Some("yes"), false));
    assert!(flag_value(Some(""), true));
    assert!(!flag_value(Some(" true"), false));
    assert!(flag_value(Some("0"), true));
}
