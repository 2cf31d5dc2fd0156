//! Argument handling for the classifier program: the integer grammar the
//! host's string-to-integer conversion accepts, and the decision taken
//! from the command-line arguments.

use vstd::prelude::*;
use vstd::string::StrSliceExecFns;

verus! {

/// A decimal digit character.
pub open spec fn is_digit(c: char) -> bool {
    48 <= c as u32 && c as u32 <= 57
}

/// The value of a decimal digit character.
pub open spec fn digit_val(c: char) -> int {
    c as u32 - 48
}

/// Every character of `s` is a decimal digit.
pub open spec fn all_digits(s: Seq<char>) -> bool {
    forall|i: int| 0 <= i < s.len() ==> is_digit(#[trigger] s[i])
}

/// The value of a digit run, most significant digit first.
pub open spec fn digits_val(s: Seq<char>) -> int
    decreases s.len(),
{
    if s.len() == 0 {
        0
    } else {
        10 * digits_val(s.drop_last()) + digit_val(s.last())
    }
}

/// The strings the integer grammar accepts: an optional sign followed by
/// one or more decimal digits.
pub open spec fn int_literal_ok(s: Seq<char>) -> bool {
    if s.len() > 0 && (s[0] == '+' || s[0] == '-') {
        s.len() > 1 && all_digits(s.skip(1))
    } else {
        s.len() > 0 && all_digits(s)
    }
}

/// The integer an accepted string denotes.
pub open spec fn int_literal_val(s: Seq<char>) -> int {
    if s.len() > 0 && s[0] == '-' {
        -digits_val(s.skip(1))
    } else if s.len() > 0 && s[0] == '+' {
        digits_val(s.skip(1))
    } else {
        digits_val(s)
    }
}

/// `s` is accepted by the grammar and its value fits a 32-bit integer.
pub open spec fn parses_as_i32(s: Seq<char>) -> bool {
    int_literal_ok(s) && i32::MIN <= int_literal_val(s) <= i32::MAX
}

/// A digit run never denotes a negative value.
proof fn lemma_digits_val_nonneg(s: Seq<char>)
    requires
        all_digits(s),
    ensures
        digits_val(s) >= 0,
    decreases s.len(),
{
    if s.len() > 0 {
        assert(all_digits(s.drop_last()));
        lemma_digits_val_nonneg(s.drop_last());
    }
}

/// Parse a decimal integer exactly as the host's string-to-i32
/// conversion does: an optional sign, one or more digits, and a value
/// within i32's range; anything else is rejected.
#[verifier::loop_isolation(false)]
pub fn parse_i32(s: &str) -> (r: Option<i32>)
    ensures
        r is Some <==> parses_as_i32(s@),
        r is Some ==> r->0 as int == int_literal_val(s@),
{
    let len: usize = s.unicode_len();
    if len == 0 {
        return None;
    }
    let first: char = s.get_char(0);
    let neg: bool = first == '-';
    let has_sign: bool = neg || first == '+';
    let start: usize = if has_sign {
        1
    } else {
        0
    };
    if start == len {
        // a bare sign carries no digits
        return None;
    }
    let ghost digits: Seq<char> = s@.skip(start as int);
    let mut i: usize = start;
    let mut acc: u64 = 0;
    while i < len
        invariant
            start <= i <= len,
            all_digits(s@.subrange(start as int, i as int)),
            digits_val(s@.subrange(start as int, i as int)) <= 0x1_0000_0000u64 ==> acc
                == digits_val(s@.subrange(start as int, i as int)),
            digits_val(s@.subrange(start as int, i as int)) > 0x1_0000_0000u64 ==> acc
                > 0x1_0000_0000u64,
            acc <= 0xA_0000_0009u64,
        decreases len - i,
    {
        let c: char = s.get_char(i);
        let u: u32 = c as u32;
        if u < 48 || u > 57 {
            proof {
                assert(digits[i - start] == s@[i as int]);
                assert(!all_digits(digits));
                if !has_sign {
                    assert(digits =~= s@);
                }
            }
            return None;
        }
        let d: u64 = (u - 48) as u64;
        proof {
            let pre = s@.subrange(start as int, i as int);
            let ext = s@.subrange(start as int, i + 1);
            assert(ext.drop_last() =~= pre);
            assert(ext.last() == s@[i as int]);
        }
        if acc <= 0x1_0000_0000u64 {
            acc = acc * 10 + d;
        }
        i = i + 1;
    }
    proof {
        assert(s@.subrange(start as int, len as int) =~= digits);
        lemma_digits_val_nonneg(digits);
        if !has_sign {
            assert(digits =~= s@);
        }
    }
    if neg {
        if acc <= 0x8000_0000u64 {
            let v: i32 = (-(acc as i64)) as i32;
            Some(v)
        } else {
            None
        }
    } else {
        if acc <= 0x7FFF_FFFFu64 {
            Some(acc as i32)
        } else {
            None
        }
    }
}

/// What one run of the classifier program should do.
#[derive(Clone, Copy, Debug, PartialEq, Eq, Structural)]
pub enum RunPlan {
    /// Print the labels of 1 through the count, one per line.
    Count(i32),
    /// Print the usage line and end normally.
    Usage,
    /// Report that the argument is not a valid number and end with an
    /// error status.
    InvalidNumber,
    /// Report that the count must be positive and end with an error
    /// status.
    NonPositive,
}

/// Decide what to do from the arguments after the program name: none
/// asks for 1 through 100, exactly one names the count, and any more
/// print the usage line.
pub fn plan(args: &Vec<String>) -> (p: RunPlan)
    ensures
        args@.len() == 0 ==> p == RunPlan::Count(100),
        args@.len() > 1 ==> p == RunPlan::Usage,
        args@.len() == 1 && !parses_as_i32(args@[0]@) ==> p == RunPlan::InvalidNumber,
        args@.len() == 1 && parses_as_i32(args@[0]@) && int_literal_val(args@[0]@) <= 0 ==> p
            == RunPlan::NonPositive,
        args@.len() == 1 && parses_as_i32(args@[0]@) && int_literal_val(args@[0]@) >= 1 ==> p
            == RunPlan::Count(int_literal_val(args@[0]@) as i32),
{
    if args.len() == 0 {
        RunPlan::Count(100)
    } else if args.len() > 1 {
        RunPlan::Usage
    } else {
        match parse_i32(args[0].as_str()) {
            None => RunPlan::InvalidNumber,
            Some(n) => {
                if n <= 0 {
                    RunPlan::NonPositive
                } else {
                    RunPlan::Count(n)
                }
            },
        }
    }
}

} // verus!
