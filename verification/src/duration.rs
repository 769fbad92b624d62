//! Durations written as a count and a unit letter, such as `10m` or `2h`.

use vstd::prelude::*;
use vstd::std_specs::iter::IteratorSpec;
use crate::error::RedirectError;

verus! {

/// `c` is one of the ten ASCII digits.
pub open spec fn is_digit(c: char) -> bool {
    '0' <= c <= '9'
}

/// The value of the digit `c`.
pub open spec fn digit_value(c: char) -> nat
    recommends
        is_digit(c),
{
    (c as int - '0' as int) as nat
}

/// The seconds in one unit, for the unit letters `s m h d w y` in either
/// case; `None` for every other character. A year has 365 days.
pub open spec fn unit_seconds(c: char) -> Option<nat> {
    if c == 's' || c == 'S' {
        Some(1)
    } else if c == 'm' || c == 'M' {
        Some(60)
    } else if c == 'h' || c == 'H' {
        Some(3600)
    } else if c == 'd' || c == 'D' {
        Some(86400)
    } else if c == 'w' || c == 'W' {
        Some(604800)
    } else if c == 'y' || c == 'Y' {
        Some(31536000)
    } else {
        None
    }
}

/// How many digits `s` begins with.
pub open spec fn digit_count(s: Seq<char>) -> nat
    decreases s.len(),
{
    if s.len() > 0 && is_digit(s[0]) {
        1 + digit_count(s.drop_first())
    } else {
        0
    }
}

/// The number that the digits of `s` write in base ten; 0 for no digits.
pub open spec fn decimal_value(s: Seq<char>) -> nat
    decreases s.len(),
{
    if s.len() == 0 {
        0
    } else {
        10 * decimal_value(s.drop_last()) + digit_value(s.last())
    }
}

/// The seconds that `s` stands for: `s` must begin with one or more digits
/// followed by a unit letter, and whatever follows the letter is ignored.
/// `None` where `s` does not begin so.
pub open spec fn duration_seconds(s: Seq<char>) -> Option<nat> {
    let n = digit_count(s) as int;
    if n == 0 || n >= s.len() {
        None
    } else {
        match unit_seconds(s[n]) {
            Some(unit) => Some(decimal_value(s.take(n)) * unit),
            None => None,
        }
    }
}

/// The digits that `digit_count` counts lie within `s`.
proof fn lemma_digit_count_bound(s: Seq<char>)
    ensures
        digit_count(s) <= s.len(),
    decreases s.len(),
{
    if s.len() > 0 && is_digit(s[0]) {
        lemma_digit_count_bound(s.drop_first());
    }
}

/// `digit_count` is the length of the longest prefix made of digits.
proof fn lemma_digit_count(s: Seq<char>, n: nat)
    requires
        n <= s.len(),
        forall|i: int| 0 <= i < n ==> is_digit(#[trigger] s[i]),
    ensures
        digit_count(s) >= n,
        (n == s.len() || !is_digit(s[n as int])) ==> digit_count(s) == n,
    decreases n,
{
    if n > 0 {
        lemma_digit_count(s.drop_first(), (n - 1) as nat);
    }
}

/// A longer run of digits writes a number at least as large.
proof fn lemma_decimal_value_grows(s: Seq<char>, i: int, j: int)
    requires
        0 <= i <= j <= s.len(),
    ensures
        decimal_value(s.take(i)) <= decimal_value(s.take(j)),
    decreases j - i,
{
    if i < j {
        lemma_decimal_value_grows(s, i, j - 1);
        assert(s.take(j).drop_last() == s.take(j - 1));
    }
}

/// Reads a duration such as `10m`: a count in decimal digits, then one unit
/// letter out of `s m h d w y` in either case. The string must begin with the
/// count; what follows the unit letter is ignored.
///
/// Returns the duration in seconds. Fails with `InvalidFormat` where the
/// string does not begin so, and where the seconds exceed `u32::MAX`.
pub fn parse_duration(duration: &str) -> (result: Result<u32, RedirectError>)
    ensures
        match result {
            Ok(seconds) => duration_seconds(duration@) == Some(seconds as nat),
            Err(e) => e == RedirectError::InvalidFormat && match duration_seconds(duration@) {
                Some(seconds) => seconds > u32::MAX,
                None => true,
            },
        },
{
    let ghost s = duration@;
    let mut rest = duration.chars();
    let mut count: u64 = 0;
    let mut any_digit = false;
    let ghost mut n: int = 0;
    loop
        invariant
            s == duration@,
            0 <= n <= s.len(),
            rest.remaining() == s.skip(n),
            forall|i: int| 0 <= i < n ==> is_digit(#[trigger] s[i]),
            count == decimal_value(s.take(n)),
            count <= u32::MAX,
            any_digit == (n > 0),
        decreases s.len() - n,
    {
        let next = rest.next();
        match next {
            None => {
                proof {
                    lemma_digit_count(s, n as nat);
                }
                return Err(RedirectError::InvalidFormat);
            },
            Some(c) => {
                if '0' <= c && c <= '9' {
                    let digit: u64 = (c as u32 - '0' as u32) as u64;
                    count = count * 10 + digit;
                    any_digit = true;
                    proof {
                        assert(s.take(n + 1).drop_last() == s.take(n));
                        n = n + 1;
                    }
                    if count > u32::MAX as u64 {
                        proof {
                            lemma_digit_count(s, n as nat);
                            lemma_digit_count_bound(s);
                            let m = digit_count(s) as int;
                            lemma_decimal_value_grows(s, n, m);
                            if m < s.len() && unit_seconds(s[m]) is Some {
                                let unit = unit_seconds(s[m]).unwrap();
                                assert(decimal_value(s.take(m)) * unit >= decimal_value(s.take(m)))
                                    by (nonlinear_arith)
                                    requires
                                        unit >= 1,
                                ;
                            }
                        }
                        return Err(RedirectError::InvalidFormat);
                    }
                } else {
                    proof {
                        lemma_digit_count(s, n as nat);
                    }
                    let unit: u64 = if c == 's' || c == 'S' {
                        1
                    } else if c == 'm' || c == 'M' {
                        60
                    } else if c == 'h' || c == 'H' {
                        3600
                    } else if c == 'd' || c == 'D' {
                        86400
                    } else if c == 'w' || c == 'W' {
                        604800
                    } else if c == 'y' || c == 'Y' {
                        31536000
                    } else {
                        return Err(RedirectError::InvalidFormat);
                    };
                    if !any_digit {
                        return Err(RedirectError::InvalidFormat);
                    }
                    assert(count * unit <= u32::MAX * 31536000) by (nonlinear_arith)
                        requires
                            count <= u32::MAX,
                            unit <= 31536000,
                    ;
                    let seconds: u64 = count * unit;
                    if seconds > u32::MAX as u64 {
                        return Err(RedirectError::InvalidFormat);
                    }
                    return Ok(seconds as u32);
                }
            },
        }
    }
}

} // verus!
