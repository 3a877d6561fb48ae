//! The packed-code format: a status number rendered as three decimal digits,
//! followed by a free-form sub-code suffix.
//!
//! This module gives the format its mathematical model (which character
//! sequences carry a valid status prefix, and which status they carry) and
//! the executable parser that derives a status from a packed code.

use vstd::prelude::*;
use vstd::string::StrSliceExecFns;
use vstd::string::StringExecFns;

verus! {

/// The status every failed derivation falls back to: an internal error.
pub const INTERNAL_ERROR_STATUS: u16 = 500;

/// Why a packed code, a requested status, or a sub-code was rejected.
#[derive(Debug, Clone, Copy, PartialEq, Eq, Structural)]
pub enum CodeError {
    /// The packed code has fewer than three characters, so it has no
    /// status prefix at all.
    CodeTooShort,
    /// One of the first three characters is not a decimal digit.
    PrefixNotNumeric,
    /// The prefix parses to a number below 100.
    StatusTooLow,
    /// The prefix parses to a number of 600 or above.
    StatusTooHigh,
    /// A requested status whose decimal rendering is not exactly three
    /// digits cannot replace a three-character prefix.
    StatusNotThreeDigits,
    /// A replacement sub-code whose length differs from the suffix it is
    /// to replace.
    SubCodeLengthMismatch,
}

/// A decimal digit, `'0'` through `'9'`.
pub open spec fn is_decimal_digit(c: char) -> bool {
    48 <= c as u32 <= 57
}

/// The numeric value of a decimal digit character.
pub open spec fn digit_val(c: char) -> int {
    c as u32 - 48
}

/// The first three characters exist and are all decimal digits.
pub open spec fn has_status_prefix(s: Seq<char>) -> bool {
    &&& s.len() >= 3
    &&& is_decimal_digit(s[0])
    &&& is_decimal_digit(s[1])
    &&& is_decimal_digit(s[2])
}

/// The number the first three characters spell in decimal.
pub open spec fn prefix_status(s: Seq<char>) -> int {
    100 * digit_val(s[0]) + 10 * digit_val(s[1]) + digit_val(s[2])
}

/// A well-formed packed code: a three-digit prefix whose value is a
/// transport status, that is, lies in [100, 600).
pub open spec fn valid_status_prefix(s: Seq<char>) -> bool {
    &&& has_status_prefix(s)
    &&& 100 <= prefix_status(s) < 600
}

/// The character that renders one decimal digit.
pub open spec fn digit_char(d: int) -> char {
    if d == 0 {
        '0'
    } else if d == 1 {
        '1'
    } else if d == 2 {
        '2'
    } else if d == 3 {
        '3'
    } else if d == 4 {
        '4'
    } else if d == 5 {
        '5'
    } else if d == 6 {
        '6'
    } else if d == 7 {
        '7'
    } else if d == 8 {
        '8'
    } else {
        '9'
    }
}

/// The three-digit decimal rendering of a status number in [100, 999].
pub open spec fn status_digits(s: int) -> Seq<char> {
    seq![digit_char(s / 100), digit_char((s / 10) % 10), digit_char(s % 10)]
}

/// Rendering a digit and reading it back is the identity, and the rendered
/// character is a decimal digit.
pub proof fn lemma_digit_char_val(d: int)
    requires
        0 <= d <= 9,
    ensures
        is_decimal_digit(digit_char(d)),
        digit_val(digit_char(d)) == d,
{
}

/// A status written in front of any suffix is read back unchanged: a code of
/// the form `status_digits(s) + t` with `s` in [100, 600) is a well-formed
/// packed code that carries exactly the status `s`.
pub proof fn lemma_rendered_status_roundtrip(s: int, t: Seq<char>)
    requires
        100 <= s < 600,
    ensures
        valid_status_prefix(status_digits(s) + t),
        prefix_status(status_digits(s) + t) == s,
{
    let c = status_digits(s) + t;
    assert(c[0] == digit_char(s / 100) && c[1] == digit_char((s / 10) % 10) && c[2]
        == digit_char(s % 10));
    assert(1 <= s / 100 <= 9 && 0 <= (s / 10) % 10 <= 9 && 0 <= s % 10 <= 9) by (nonlinear_arith)
        requires
            100 <= s < 600,
    ;
    lemma_digit_char_val(s / 100);
    lemma_digit_char_val((s / 10) % 10);
    lemma_digit_char_val(s % 10);
    assert(100 * (s / 100) + 10 * ((s / 10) % 10) + s % 10 == s) by (nonlinear_arith)
        requires
            100 <= s < 600,
    ;
}

/// Renders a status number as its three decimal digits.
pub fn render_status(status: u16) -> (r: String)
    requires
        100 <= status <= 999,
    ensures
        r@ == status_digits(status as int),
{
    let n: u32 = status as u32;
    let d0: u32 = n / 100;
    let d1: u32 = (n / 10) % 10;
    let d2: u32 = n % 10;
    assert(d0 <= 9) by (nonlinear_arith)
        requires
            n <= 999,
            d0 == n / 100,
    ;
    assert(d1 <= 9) by (nonlinear_arith)
        requires
            d1 == (n / 10) % 10,
    ;
    assert(d2 <= 9) by (nonlinear_arith)
        requires
            d2 == n % 10,
    ;
    let r = String::from_str(digit_str(d0)).concat(digit_str(d1)).concat(digit_str(d2));
    proof {
        assert(r@ =~= status_digits(status as int));
    }
    r
}

/// The one-character string that renders one decimal digit.
fn digit_str(d: u32) -> (r: &'static str)
    requires
        d <= 9,
    ensures
        r@ == seq![digit_char(d as int)],
{
    match d {
        0 => {
            proof {
                reveal_strlit("0");
                assert("0"@ =~= seq![digit_char(0)]);
            }
            "0"
        },
        1 => {
            proof {
                reveal_strlit("1");
                assert("1"@ =~= seq![digit_char(1)]);
            }
            "1"
        },
        2 => {
            proof {
                reveal_strlit("2");
                assert("2"@ =~= seq![digit_char(2)]);
            }
            "2"
        },
        3 => {
            proof {
                reveal_strlit("3");
                assert("3"@ =~= seq![digit_char(3)]);
            }
            "3"
        },
        4 => {
            proof {
                reveal_strlit("4");
                assert("4"@ =~= seq![digit_char(4)]);
            }
            "4"
        },
        5 => {
            proof {
                reveal_strlit("5");
                assert("5"@ =~= seq![digit_char(5)]);
            }
            "5"
        },
        6 => {
            proof {
                reveal_strlit("6");
                assert("6"@ =~= seq![digit_char(6)]);
            }
            "6"
        },
        7 => {
            proof {
                reveal_strlit("7");
                assert("7"@ =~= seq![digit_char(7)]);
            }
            "7"
        },
        8 => {
            proof {
                reveal_strlit("8");
                assert("8"@ =~= seq![digit_char(8)]);
            }
            "8"
        },
        _ => {
            proof {
                reveal_strlit("9");
                assert("9"@ =~= seq![digit_char(9)]);
            }
            "9"
        },
    }
}

/// Derives the status carried by a packed code's three-character prefix.
///
/// Never panics: every malformation is reported as the error that names it,
/// and the error tells exactly why the prefix is not a valid status.
pub fn parse_status_prefix(code: &str) -> (r: Result<u16, CodeError>)
    ensures
        ({
            let s = code@;
            match r {
                Ok(v) => valid_status_prefix(s) && v == prefix_status(s),
                Err(CodeError::CodeTooShort) => s.len() < 3,
                Err(CodeError::PrefixNotNumeric) => s.len() >= 3 && !(is_decimal_digit(s[0])
                    && is_decimal_digit(s[1]) && is_decimal_digit(s[2])),
                Err(CodeError::StatusTooLow) => has_status_prefix(s) && prefix_status(s) < 100,
                Err(CodeError::StatusTooHigh) => has_status_prefix(s) && prefix_status(s) >= 600,
                Err(_) => false,
            }
        }),
{
    let n = code.unicode_len();
    if n < 3 {
        return Err(CodeError::CodeTooShort);
    }
    let u0 = code.get_char(0) as u32;
    let u1 = code.get_char(1) as u32;
    let u2 = code.get_char(2) as u32;
    if u0 < 48 || u0 > 57 || u1 < 48 || u1 > 57 || u2 < 48 || u2 > 57 {
        return Err(CodeError::PrefixNotNumeric);
    }
    let v: u32 = 100 * (u0 - 48) + 10 * (u1 - 48) + (u2 - 48);
    if v < 100 {
        return Err(CodeError::StatusTooLow);
    }
    if v >= 600 {
        return Err(CodeError::StatusTooHigh);
    }
    Ok(v as u16)
}

} // verus!
