use fizzbuzz::classification::{classify, fizzbuzz, fizzbuzz_lines, Classification};
use fizzbuzz::decimal::decimal_string;

#[test]
fn classifies_multiples_of_both() {
    assert_eq!(classify(15), Classification::FizzBuzz);
    assert_eq!(classify(45), Classification::FizzBuzz);
    assert_eq!(classify(0), Classification::FizzBuzz);
    assert_eq!(classify(-30), Classification::FizzBuzz);
    assert_eq!(fizzbuzz(30), "FizzBuzz");
}

#[test]
fn classifies_multiples_of_three_only() {
    assert_eq!(classify(9), Classification::Fizz);
    assert_eq!(classify(-9), Classification::Fizz);
    assert_eq!(fizzbuzz(3), "Fizz");
    assert_eq!(fizzbuzz(-3), "Fizz");
}

#[test]
fn classifies_multiples_of_five_only() {
    assert_eq!(classify(10), Classification::Buzz);
    assert_eq!(classify(-10), Classification::Buzz);
    assert_eq!(fizzbuzz(5), "Buzz");
    assert_eq!(fizzbuzz(-5), "Buzz");
}

#[test]
fn classifies_other_integers_as_their_numeral() {
    assert_eq!(classify(7), Classification::Number(7));
    assert_eq!(classify(-7), Classification::Number(-7));
    assert_eq!(fizzbuzz(1), "1");
    assert_eq!(fizzbuzz(98), "98");
    assert_eq!(fizzbuzz(-7), "-7");
}

#[test]
fn scenario_labels() {
    assert_eq!(fizzbuzz(15), "FizzBuzz");
    assert_eq!(fizzbuzz(9), "Fizz");
    assert_eq!(fizzbuzz(10), "Buzz");
    assert_eq!(fizzbuzz(7), "7");
}

#[test]
fn hundred_lines() {
    let lines = fizzbuzz_lines(100);
    assert_eq!(lines.len(), 100);
    assert_eq!(lines[0], "1");
    assert_eq!(lines[99], "Buzz");
    assert_eq!(lines[14], "FizzBuzz");
    assert_eq!(lines[2], "Fizz");
}

#[test]
fn no_lines_for_zero() {
    let lines = fizzbuzz_lines(0);
    assert_eq!(lines.len(), 0);
}

#[test]
fn decimal_strings() {
    assert_eq!(decimal_string(0), "0");
    assert_eq!(decimal_string(7), "7");
    assert_eq!(decimal_string(10), "10");
    assert_eq!(decimal_string(12345), "12345");
    assert_eq!(decimal_string(-1), "-1");
    assert_eq!(decimal_string(i32::MAX), "2147483647");
    assert_eq!(decimal_string(i32::MIN), "-2147483648");
}
