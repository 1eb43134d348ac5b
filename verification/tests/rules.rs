use configurator::rules::contains;
use configurator::rules::length;
use configurator::rules::length::check_len;
use configurator::rules::pattern;
use configurator::rules::pattern::TextMatcher;
use configurator::rules::required;
use configurator::rules::url;

#[test]
fn length_within_bounds() {
    assert!(check_len(3, 1, 50).is_ok());
    assert!(check_len(1, 1, 50).is_ok());
    assert!(check_len(50, 1, 50).is_ok());
}

#[test]
fn length_below_min() {
    let e = check_len(0, 1, 50).unwrap_err();
    assert_eq!(e.message(), "length is lower than 1");
}

#[test]
fn length_above_max() {
    let e = check_len(51, 1, 50).unwrap_err();
    assert_eq!(e.message(), "length is greater than 50");
}

#[test]
fn length_renders_multi_digit_bounds() {
    let e = check_len(5, 10, 345).unwrap_err();
    assert_eq!(e.message(), "length is lower than 10");
    let e = check_len(400, 10, 345).unwrap_err();
    assert_eq!(e.message(), "length is greater than 345");
}

#[test]
fn length_apply_counts_characters() {
    let v = String::from("h\u{e9}llo");
    assert!(length::apply(&v, (5, 5)).is_ok());
    let e = length::apply(&v, (6, 9)).unwrap_err();
    assert_eq!(e.message(), "length is lower than 6");
}

#[test]
fn length_apply_counts_vec_elements() {
    let v: Vec<u64> = vec![1, 2, 3];
    assert!(length::apply(&v, (1, 3)).is_ok());
    assert!(length::apply(&v, (4, 9)).is_err());
}

#[test]
fn contains_finds_substring() {
    let v = String::from("hello world");
    assert!(contains::apply(&v, ("lo wo",)).is_ok());
    assert!(contains::apply(&v, ("",)).is_ok());
    assert!(contains::apply(&v, ("hello world",)).is_ok());
}

#[test]
fn contains_reports_missing_substring() {
    let v = String::from("hello world");
    let e = contains::apply(&v, ("xyz",)).unwrap_err();
    assert_eq!(e.message(), "does not contain \"xyz\"");
}

#[test]
fn contains_absent_option_passes() {
    let v: Option<String> = None;
    assert!(contains::apply(&v, ("anything",)).is_ok());
    let v = Some(String::from("abc"));
    assert!(contains::apply(&v, ("b",)).is_ok());
    assert!(contains::apply(&v, ("d",)).is_err());
}

#[test]
fn matches_compares_sibling_values() {
    let a = String::from("secret");
    let b = String::from("secret");
    assert!(configurator::rules::matches::apply(&a, ("password", &b)).is_ok());
    let c = String::from("other");
    let e = configurator::rules::matches::apply(&a, ("password", &c)).unwrap_err();
    assert_eq!(e.message(), "does not match password field");
}

#[test]
fn matches_compares_numbers() {
    let a: u64 = 3;
    assert!(configurator::rules::matches::apply(&a, ("count", &3u64)).is_ok());
    assert!(configurator::rules::matches::apply(&a, ("count", &4u64)).is_err());
}

#[test]
fn pattern_matches_fragment() {
    let m = TextMatcher::new(String::from("ab"));
    let v = String::from("drab");
    assert!(pattern::apply(&v, (&m,)).is_ok());
    let w = String::from("xyz");
    let e = pattern::apply(&w, (&m,)).unwrap_err();
    assert_eq!(e.message(), "does not match pattern /ab/");
}

#[test]
fn pattern_absent_option_passes() {
    let m = TextMatcher::new(String::from("ab"));
    let v: Option<String> = None;
    assert!(pattern::apply(&v, (&m,)).is_ok());
    let v = Some(String::from("cab"));
    assert!(pattern::apply(&v, (&m,)).is_ok());
}

#[test]
fn required_demands_presence() {
    let v: Option<u64> = Some(1);
    assert!(required::apply(&v, ()).is_ok());
    let v: Option<u64> = None;
    let e = required::apply(&v, ()).unwrap_err();
    assert_eq!(e.message(), "not set");
}

#[test]
fn url_accepts_absolute_url() {
    let v = String::from("https://example.com/a?b=c");
    assert!(url::apply(&v, ()).is_ok());
}

#[test]
fn url_reports_parser_diagnostic() {
    let v = String::from("not a url");
    let e = url::apply(&v, ()).unwrap_err();
    assert_eq!(e.message(), "not a valid url: relative URL without a base");
    let v = String::from("http://exa mple.com");
    assert!(url::apply(&v, ()).is_err());
}

#[test]
fn url_absent_option_passes() {
    let v: Option<String> = None;
    assert!(url::apply(&v, ()).is_ok());
}

#[test]
fn length_byte_policy_differs_from_character_policy() {
    let v = String::from("h\u{e9}llo");
    // five characters, six bytes
    assert!(length::apply(&v, (5, 5)).is_ok());
    assert!(length::apply_bytes(&v, (6, 6)).is_ok());
    let e = length::apply_bytes(&v, (7, 9)).unwrap_err();
    assert_eq!(e.message(), "length is lower than 7");
}
