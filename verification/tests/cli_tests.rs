use fizzbuzz::cli::{parse_i32, plan, RunPlan};

#[test]
fn parses_plain_numbers() {
    assert_eq!(parse_i32("0"), Some(0));
    assert_eq!(parse_i32("42"), Some(42));
    assert_eq!(parse_i32("007"), Some(7));
    assert_eq!(parse_i32("2147483647"), Some(i32::MAX));
}

#[test]
fn parses_signed_numbers() {
    assert_eq!(parse_i32("+42"), Some(42));
    assert_eq!(parse_i32("-1"), Some(-1));
    assert_eq!(parse_i32("-2147483648"), Some(i32::MIN));
}

#[test]
fn rejects_out_of_range_numbers() {
    assert_eq!(parse_i32("2147483648"), None);
    assert_eq!(parse_i32("-2147483649"), None);
    assert_eq!(parse_i32("99999999999999999999999"), None);
}

#[test]
fn rejects_malformed_input() {
    assert_eq!(parse_i32(""), None);
    assert_eq!(parse_i32("+"), None);
    assert_eq!(parse_i32("-"), None);
    assert_eq!(parse_i32("abc"), None);
    assert_eq!(parse_i32("4 2"), None);
    assert_eq!(parse_i32("1e3"), None);
    assert_eq!(parse_i32("+-3"), None);
    assert_eq!(parse_i32(" 7"), None);
}

#[test]
fn no_arguments_ask_for_one_to_hundred() {
    assert_eq!(plan(&vec![]), RunPlan::Count(100));
}

#[test]
fn one_numeric_argument_names_the_count() {
    assert_eq!(plan(&vec![String::from("12")]), RunPlan::Count(12));
    assert_eq!(plan(&vec![String::from("1")]), RunPlan::Count(1));
}

#[test]
fn zero_argument_is_rejected() {
    assert_eq!(plan(&vec![String::from("0")]), RunPlan::NonPositive);
    assert_eq!(plan(&vec![String::from("-3")]), RunPlan::NonPositive);
}

#[test]
fn non_numeric_argument_is_rejected() {
    assert_eq!(plan(&vec![String::from("abc")]), RunPlan::InvalidNumber);
    assert_eq!(plan(&vec![String::from("")]), RunPlan::InvalidNumber);
}

#[test]
fn extra_arguments_print_usage() {
    assert_eq!(
        plan(&vec![String::from("7"), String::from("8")]),
        RunPlan::Usage
    );
}
