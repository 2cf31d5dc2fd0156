use fizzbuzz::date_text::{date_report, split_char, trim};

#[test]
fn trims_surrounding_whitespace() {
    assert_eq!(trim("2026-10-12\n"), "2026-10-12");
    assert_eq!(trim("  x \t\n"), "x");
    assert_eq!(trim("\n"), "");
    assert_eq!(trim(""), "");
    assert_eq!(trim("abc"), "abc");
    assert_eq!(trim("a b"), "a b");
}

#[test]
fn splits_on_separator() {
    assert_eq!(split_char("2026-10-12", '-'), vec!["2026", "10", "12"]);
    assert_eq!(split_char("a--b", '-'), vec!["a", "", "b"]);
    assert_eq!(split_char("", '-'), vec![""]);
    assert_eq!(split_char("nodash", '-'), vec!["nodash"]);
    assert_eq!(split_char("-", '-'), vec!["", ""]);
}

#[test]
fn reports_a_well_formed_date() {
    let lines = date_report("2026-10-12\n");
    assert_eq!(lines.len(), 2);
    assert_eq!(lines[0], "2026-10-12");
    assert_eq!(lines[1], "2026年10月12日");
}

#[test]
fn reports_only_the_trimmed_text_otherwise() {
    assert_eq!(date_report("nodash\n"), vec!["nodash"]);
    assert_eq!(date_report("a-b-c-d"), vec!["a-b-c-d"]);
    assert_eq!(date_report("a-b\n"), vec!["a-b"]);
}
