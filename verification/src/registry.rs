//! Decoding of legacy registry values into monitor settings.
//!
//! The old storage kept positions as decimal strings and flags as integers;
//! a missing or unreadable value falls back to a fixed default. Reading the
//! registry itself is the shell's job; this module owns the decoding.

use vstd::prelude::*;

use crate::config::MonitorConfig;

verus! {

/// Whether `c` is a decimal digit.
pub open spec fn spec_is_digit(c: char) -> bool {
    48 <= c as u32 <= 57
}

/// Numeric value of a decimal digit.
pub open spec fn spec_digit_value(c: char) -> int {
    c as u32 - 48
}

/// Whether every character is a decimal digit.
pub open spec fn spec_all_digits(s: Seq<char>) -> bool {
    forall|i: int| 0 <= i < s.len() ==> spec_is_digit(#[trigger] s[i])
}

/// The number a digit string denotes, most significant digit first.
pub open spec fn spec_digits_value(s: Seq<char>) -> int
    decreases s.len(),
{
    if s.len() == 0 {
        0
    } else {
        spec_digits_value(s.drop_last()) * 10 + spec_digit_value(s.last())
    }
}

/// What parsing a decimal integer returns: an optional sign followed by at
/// least one digit, denoting a value that fits `i32`; anything else is
/// rejected.
pub open spec fn spec_parse_i32(s: Seq<char>) -> Option<i32> {
    let negative = s.len() > 0 && s[0] == '-';
    let digits = if s.len() > 0 && (s[0] == '-' || s[0] == '+') {
        s.drop_first()
    } else {
        s
    };
    if digits.len() == 0 || !spec_all_digits(digits) {
        None
    } else {
        let v = if negative {
            -spec_digits_value(digits)
        } else {
            spec_digits_value(digits)
        };
        if i32::MIN <= v <= i32::MAX {
            Some(v as i32)
        } else {
            None
        }
    }
}

/// A digit string denotes a non-negative number.
proof fn lemma_digits_value_nonneg(s: Seq<char>)
    requires
        spec_all_digits(s),
    ensures
        spec_digits_value(s) >= 0,
    decreases s.len(),
{
    if s.len() > 0 {
        assert(forall|i: int|
            0 <= i < s.drop_last().len() ==> #[trigger] s.drop_last()[i] == s[i]);
        lemma_digits_value_nonneg(s.drop_last());
    }
}

/// A prefix of a digit string denotes at most the whole string's value.
proof fn lemma_digits_value_mono(s: Seq<char>, i: int)
    requires
        spec_all_digits(s),
        0 <= i <= s.len(),
    ensures
        spec_digits_value(s.take(i)) <= spec_digits_value(s),
    decreases s.len() - i,
{
    if i < s.len() {
        lemma_digits_value_mono(s, i + 1);
        assert(s.take(i + 1).drop_last() =~= s.take(i));
        assert(s.take(i + 1).last() == s[i]);
        assert(forall|j: int| 0 <= j < i ==> #[trigger] s.take(i)[j] == s[j]);
        assert(spec_all_digits(s.take(i)));
        lemma_digits_value_nonneg(s.take(i));
        assert(spec_digits_value(s.take(i + 1)) == spec_digits_value(s.take(i)) * 10
            + spec_digit_value(s[i]));
        assert(spec_is_digit(s[i]));
        assert(spec_digits_value(s.take(i)) <= spec_digits_value(s.take(i)) * 10);
    } else {
        assert(s.take(i) =~= s);
    }
}

/// Parses a decimal integer: an optional `+` or `-` sign followed by at
/// least one digit. Returns `None` for an empty or malformed string and for
/// a value outside the `i32` range.
pub fn parse_i32(s: &str) -> (r: Option<i32>)
    ensures
        r == spec_parse_i32(s@),
{
    let len = s.unicode_len();
    let mut start: usize = 0;
    let mut negative = false;
    if len > 0 {
        let c0 = s.get_char(0);
        if c0 == '-' {
            negative = true;
            start = 1;
        } else if c0 == '+' {
            start = 1;
        }
    }
    let ghost digits = if start == 1 {
        s@.drop_first()
    } else {
        s@
    };
    proof {
        if start == 1 {
            assert(forall|j: int| 0 <= j < digits.len() ==> #[trigger] digits[j] == s@[j + 1]);
        }
    }
    if start >= len {
        return None;
    }
    let mut i: usize = start;
    let mut magnitude: i64 = 0;
    while i < len
        invariant
            start <= i <= len,
            len == s@.len(),
            start == 0 || start == 1,
            (start == 1) == (s@.len() > 0 && (s@[0] == '-' || s@[0] == '+')),
            negative == (s@.len() > 0 && s@[0] == '-'),
            start == 1 ==> digits =~= s@.drop_first(),
            start == 0 ==> digits =~= s@,
            digits.len() == len - start,
            forall|j: int| 0 <= j < digits.len() ==> #[trigger] digits[j] == s@[j + start],
            0 <= magnitude <= 2147483648,
            magnitude == spec_digits_value(digits.take(i - start)),
            spec_all_digits(digits.take(i - start)),
        decreases len - i,
    {
        let c = s.get_char(i);
        let v = c as u32;
        proof {
            assert(digits[i - start] == s@[i as int]);
            assert(digits.take(i + 1 - start).drop_last() =~= digits.take(i - start));
            assert(digits.take(i + 1 - start).last() == digits[i - start]);
            assert(forall|j: int|
                0 <= j < i - start ==> #[trigger] digits.take(i + 1 - start)[j] == digits.take(
                    i - start,
                )[j]);
        }
        if !(48 <= v && v <= 57) {
            proof {
                assert(!spec_is_digit(digits[i - start]));
                assert(!spec_all_digits(digits));
            }
            return None;
        }
        magnitude = magnitude * 10 + (v - 48) as i64;
        if magnitude > 2147483648 {
            proof {
                if spec_all_digits(digits) {
                    lemma_digits_value_mono(digits, i + 1 - start);
                }
            }
            return None;
        }
        i = i + 1;
    }
    proof {
        assert(digits.take(len - start) =~= digits);
    }
    if negative {
        if magnitude == 2147483648 {
            Some(i32::MIN)
        } else {
            Some(-(magnitude as i32))
        }
    } else {
        if magnitude > 2147483647 {
            None
        } else {
            Some(magnitude as i32)
        }
    }
}

/// Decodes one stored position value: the parsed number when the value was
/// present and well-formed, the given default otherwise.
pub fn registry_int(raw: Option<&String>, default: i32) -> (r: i32)
    ensures
        r == match raw {
            Some(s) => match spec_parse_i32(s@) {
                Some(v) => v,
                None => default,
            },
            None => default,
        },
{
    match raw {
        Some(s) => match parse_i32(s.as_str()) {
            Some(v) => v,
            None => default,
        },
        None => default,
    }
}

/// Decodes one stored flag value: any non-zero number is `true`, a missing
/// value falls back to `true`.
pub fn registry_flag(raw: Option<u32>) -> (r: bool)
    ensures
        r == match raw {
            Some(v) => v != 0,
            None => true,
        },
{
    match raw {
        Some(v) => v != 0,
        None => true,
    }
}

impl MonitorConfig {
    /// Decodes one monitor's legacy registry entry: position defaults to
    /// the origin, size to 200 by 40, automatic sizing to on, and the
    /// tri-state switches to inherit.
    pub fn from_registry_values(
        x: Option<&String>,
        y: Option<&String>,
        width: Option<&String>,
        height: Option<&String>,
        auto_width: Option<u32>,
        auto_height: Option<u32>,
    ) -> (r: MonitorConfig)
        ensures
            r.x == match x {
                Some(s) => match spec_parse_i32(s@) {
                    Some(v) => v,
                    None => 0,
                },
                None => 0,
            },
            r.y == match y {
                Some(s) => match spec_parse_i32(s@) {
                    Some(v) => v,
                    None => 0,
                },
                None => 0,
            },
            r.width == match width {
                Some(s) => match spec_parse_i32(s@) {
                    Some(v) => v,
                    None => 200,
                },
                None => 200,
            },
            r.height == match height {
                Some(s) => match spec_parse_i32(s@) {
                    Some(v) => v,
                    None => 40,
                },
                None => 40,
            },
            r.auto_width == match auto_width {
                Some(v) => v != 0,
                None => true,
            },
            r.auto_height == match auto_height {
                Some(v) => v != 0,
                None => true,
            },
            r.show_layout_button is None,
            r.hide_empty_workspaces is None,
    {
        MonitorConfig {
            x: registry_int(x, 0),
            y: registry_int(y, 0),
            width: registry_int(width, 200),
            height: registry_int(height, 40),
            auto_width: registry_flag(auto_width),
            auto_height: registry_flag(auto_height),
            show_layout_button: None,
            hide_empty_workspaces: None,
        }
    }
}

} // verus!
