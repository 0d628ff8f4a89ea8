use terminal_tree::default_colors;
use terminal_tree::default_indentation;
use terminal_tree::range;

#[test]
fn accepts_value_in_range() {
    assert_eq!(range("5", 2, 255), Ok(5));
    assert_eq!(range("2", 2, 255), Ok(2));
    assert_eq!(range("255", 2, 255), Ok(255));
    assert_eq!(range("007", 2, 255), Ok(7));
}

#[test]
fn accepts_leading_plus_sign() {
    assert_eq!(range("+5", 2, 255), Ok(5));
    assert_eq!(range("+255", 2, 255), Ok(255));
    assert_eq!(range("+", 2, 255), Err(String::from("invalid digit found in string")));
    assert_eq!(range("++5", 2, 255), Err(String::from("invalid digit found in string")));
}

#[test]
fn rejects_empty_string() {
    assert_eq!(
        range("", 2, 255),
        Err(String::from("cannot parse integer from empty string"))
    );
}

#[test]
fn rejects_non_digit() {
    assert_eq!(range("12a", 2, 255), Err(String::from("invalid digit found in string")));
    assert_eq!(range("-3", 2, 255), Err(String::from("invalid digit found in string")));
    assert_eq!(range(" 4", 2, 255), Err(String::from("invalid digit found in string")));
    // the scan runs left to right: a non-digit met before any overflow wins
    assert_eq!(range("30x", 2, 255), Err(String::from("invalid digit found in string")));
}

#[test]
fn rejects_value_too_large_for_byte() {
    assert_eq!(
        range("256", 2, 255),
        Err(String::from("number too large to fit in target type"))
    );
    assert_eq!(
        range("99999999999999999999", 2, 255),
        Err(String::from("number too large to fit in target type"))
    );
    // the scan runs left to right: an overflow met before a later non-digit wins
    assert_eq!(
        range("300x", 2, 255),
        Err(String::from("number too large to fit in target type"))
    );
}

#[test]
fn rejects_value_outside_range() {
    assert_eq!(range("1", 2, 255), Err(String::from("exceeds minimum of 2")));
    assert_eq!(range("99", 2, 10), Err(String::from("exceeds maximum of 10")));
}

#[test]
fn default_settings_match_documented_palette() {
    let colors = default_colors();
    assert_eq!(colors.len(), 3);
    assert_eq!(colors[0].to_string(), "#ffd700");
    assert_eq!(colors[1].to_string(), "#da70d6");
    assert_eq!(colors[2].to_string(), "#179fff");
    assert_eq!(default_indentation(), 2);
}
