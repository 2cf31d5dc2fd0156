//! The FizzBuzz rule: each integer is labelled by its divisibility by 3
//! and by 5, checked jointly so that multiples of both get their own tag.

use vstd::prelude::*;
use vstd::string::StringExecFns;
use crate::decimal::{dec_str, decimal_string};

verus! {

/// The tag an integer falls under: a multiple of 3, of 5, of both, or
/// neither (in which case the integer itself is the label).
#[derive(Clone, Copy, Debug, PartialEq, Eq, Structural)]
pub enum Classification {
    Fizz,
    Buzz,
    FizzBuzz,
    Number(i32),
}

/// Exactly one tag applies to each integer, decided by divisibility by 3
/// and by 5 alone.
pub open spec fn spec_classify(n: i32) -> Classification {
    if n % 3 == 0 && n % 5 == 0 {
        Classification::FizzBuzz
    } else if n % 3 == 0 {
        Classification::Fizz
    } else if n % 5 == 0 {
        Classification::Buzz
    } else {
        Classification::Number(n)
    }
}

/// The text of a tag: a fixed word, or the decimal numeral of the integer.
pub open spec fn label_of(c: Classification) -> Seq<char> {
    match c {
        Classification::Fizz => "Fizz"@,
        Classification::Buzz => "Buzz"@,
        Classification::FizzBuzz => "FizzBuzz"@,
        Classification::Number(n) => dec_str(n as int),
    }
}

/// The label the FizzBuzz rule gives to an integer.
pub open spec fn spec_fizzbuzz(n: i32) -> Seq<char> {
    label_of(spec_classify(n))
}

/// Decide which tag applies to `n`, evaluating both remainders jointly.
pub fn classify(n: i32) -> (c: Classification)
    ensures
        c == spec_classify(n),
{
    match (n % 3, n % 5) {
        (0, 0) => Classification::FizzBuzz,
        (0, _) => Classification::Fizz,
        (_, 0) => Classification::Buzz,
        (_, _) => Classification::Number(n),
    }
}

impl Classification {
    /// Render a tag as its text.
    pub fn label(&self) -> (s: String)
        ensures
            s@ == label_of(*self),
    {
        match self {
            Classification::Fizz => String::from_str("Fizz"),
            Classification::Buzz => String::from_str("Buzz"),
            Classification::FizzBuzz => String::from_str("FizzBuzz"),
            Classification::Number(n) => decimal_string(*n),
        }
    }
}

/// The label of `n` under the FizzBuzz rule: "FizzBuzz" for multiples of
/// both 3 and 5, "Fizz" for multiples of 3 alone, "Buzz" for multiples of
/// 5 alone, and the decimal numeral of `n` otherwise.
pub fn fizzbuzz(n: i32) -> (s: String)
    ensures
        s@ == spec_fizzbuzz(n),
        n % 3 == 0 && n % 5 == 0 ==> s@ == "FizzBuzz"@,
        n % 3 == 0 && n % 5 != 0 ==> s@ == "Fizz"@,
        n % 3 != 0 && n % 5 == 0 ==> s@ == "Buzz"@,
        n % 3 != 0 && n % 5 != 0 ==> s@ == dec_str(n as int),
{
    classify(n).label()
}

/// The labels of 1 through `count`, in order, one entry per integer.
pub fn fizzbuzz_lines(count: i32) -> (lines: Vec<String>)
    requires
        count >= 0,
    ensures
        lines@.len() == count,
        forall|k: int| 0 <= k < count ==> #[trigger] lines@[k]@ == spec_fizzbuzz((k + 1) as i32),
{
    let n: u32 = count as u32;
    let mut lines: Vec<String> = Vec::new();
    let mut j: u32 = 0;
    while j < n
        invariant
            j <= n,
            n == count,
            lines@.len() == j,
            forall|k: int| 0 <= k < j ==> #[trigger] lines@[k]@ == spec_fizzbuzz((k + 1) as i32),
        decreases n - j,
    {
        lines.push(fizzbuzz((j + 1) as i32));
        j = j + 1;
    }
    lines
}

} // verus!
