use ghl::issue::{find_hyphen, is_number, issue_tag};

fn chars(s: &str) -> Vec<char> {
    s.chars().collect()
}

fn whole_is_number(s: &str) -> bool {
    let c = chars(s);
    is_number(&c, 0, c.len())
}

#[test]
fn tag_of_a_numbered_issue() {
    assert_eq!(issue_tag("proj-123-extra"), Some(String::from(" [PROJ-123]")));
    assert_eq!(issue_tag("web-482-login-fix"), Some(String::from(" [WEB-482]")));
    assert_eq!(issue_tag("proj-123"), Some(String::from(" [PROJ-123]")));
}

#[test]
fn no_tag_for_a_single_segment() {
    assert_eq!(issue_tag("proj"), None);
    assert_eq!(issue_tag(""), None);
}

#[test]
fn no_tag_where_the_second_segment_is_no_number() {
    assert_eq!(issue_tag("proj-abc"), None);
    assert_eq!(issue_tag("proj-12a-3"), None);
    assert_eq!(issue_tag("proj-"), None);
    assert_eq!(issue_tag("proj--123"), None);
    assert_eq!(issue_tag("proj- 12"), None);
}

#[test]
fn tag_key_is_upper_cased() {
    assert_eq!(issue_tag("Web-1"), Some(String::from(" [WEB-1]")));
    assert_eq!(issue_tag("a1_b-7-x"), Some(String::from(" [A1_B-7]")));
    assert_eq!(issue_tag("straße-7"), Some(String::from(" [STRASSE-7]")));
    assert_eq!(issue_tag("-7"), Some(String::from(" [-7]")));
}

#[test]
fn tag_number_is_kept_as_written() {
    assert_eq!(issue_tag("proj-007-x"), Some(String::from(" [PROJ-007]")));
    assert_eq!(issue_tag("proj-+5"), Some(String::from(" [PROJ-+5]")));
}

#[test]
fn tag_number_may_be_of_any_size() {
    assert_eq!(issue_tag("proj-4294967295"), Some(String::from(" [PROJ-4294967295]")));
    assert_eq!(issue_tag("proj-4294967296"), Some(String::from(" [PROJ-4294967296]")));
    assert_eq!(issue_tag("proj-99999999999-x"), Some(String::from(" [PROJ-99999999999]")));
    assert_eq!(
        issue_tag("proj-99999999999999999999999999999999999999999999"),
        Some(String::from(" [PROJ-99999999999999999999999999999999999999999999]"))
    );
}

#[test]
fn find_hyphen_gives_the_first_at_or_after() {
    let c = chars("ab-cd-e");
    assert_eq!(find_hyphen(&c, 0), 2);
    assert_eq!(find_hyphen(&c, 2), 2);
    assert_eq!(find_hyphen(&c, 3), 5);
    assert_eq!(find_hyphen(&c, 6), 7);
    assert_eq!(find_hyphen(&c, 7), 7);
    assert_eq!(find_hyphen(&chars("é-"), 0), 1);
}

#[test]
fn number_is_digits_with_an_optional_plus() {
    assert!(whole_is_number("0"));
    assert!(whole_is_number("123"));
    assert!(whole_is_number("+123"));
    assert!(whole_is_number("0000000000000042"));
    assert!(whole_is_number("4294967296"));
    assert!(whole_is_number("340282366920938463463374607431768211456"));
}

#[test]
fn number_refuses_everything_else() {
    assert!(!whole_is_number(""));
    assert!(!whole_is_number("+"));
    assert!(!whole_is_number("-1"));
    assert!(!whole_is_number("++1"));
    assert!(!whole_is_number("1+"));
    assert!(!whole_is_number(" 1"));
    assert!(!whole_is_number("1 "));
    assert!(!whole_is_number("1_000"));
    assert!(!whole_is_number("12a"));
    assert!(!whole_is_number("1.5"));
    assert!(!whole_is_number("１２"));
    assert!(!whole_is_number("٣"));
}

#[test]
fn number_agrees_with_parsing_where_the_value_fits() {
    let samples = [
        "", "+", "-", "0", "+0", "-0", "00", "9", "10", "4294967295", "4294967296",
        "+4294967295", "18446744073709551616", "1e3", "0x10", "٣", " 7", "7 ",
    ];
    for s in samples {
        assert_eq!(whole_is_number(s), s.parse::<u128>().is_ok(), "{:?}", s);
    }
}

#[test]
fn number_is_read_from_a_range() {
    let c = chars("proj-123-extra");
    assert!(is_number(&c, 5, 8));
    assert!(!is_number(&c, 4, 8));
    assert!(!is_number(&c, 5, 9));
    assert!(!is_number(&c, 5, 5));
}
