//! The state-dependent content of the rendered panel.
//!
//! Panel composition — borders, colors, centering, the title and the key
//! binding instructions — is pure presentation and belongs to the render
//! collaborator. What depends on the session state is the value line, and
//! that is specified and computed here: the text `Value: ` followed by the
//! counter in decimal, without leading zeros.

use vstd::prelude::*;
use vstd::string::StringExecFns;

verus! {

/// The decimal digit character for `d` (meaningful for one digit).
pub open spec fn digit_char(d: int) -> char
    recommends
        0 <= d <= 9,
{
    if d == 0 {
        '0'
    } else if d == 1 {
        '1'
    } else if d == 2 {
        '2'
    } else if d == 3 {
        '3'
    } else if d == 4 {
        '4'
    } else if d == 5 {
        '5'
    } else if d == 6 {
        '6'
    } else if d == 7 {
        '7'
    } else if d == 8 {
        '8'
    } else {
        '9'
    }
}

/// The decimal digits of `n`, most significant first, without leading
/// zeros (meaningful for the counter's 8-bit range).
pub open spec fn dec_digits(n: int) -> Seq<char>
    recommends
        0 <= n <= 255,
{
    if n < 10 {
        seq![digit_char(n)]
    } else if n < 100 {
        seq![digit_char(n / 10), digit_char(n % 10)]
    } else {
        seq![digit_char(n / 100), digit_char((n / 10) % 10), digit_char(n % 10)]
    }
}

/// The value line rendered for counter value `c`.
pub open spec fn value_line_spec(c: u8) -> Seq<char> {
    "Value: "@ + dec_digits(c as int)
}

/// The character of one decimal digit, as a one-character string slice.
fn digit_str(d: u8) -> (r: &'static str)
    requires
        d <= 9,
    ensures
        r@ == seq![digit_char(d as int)],
{
    if d == 0 {
        proof {
            reveal_strlit("0");
            assert("0"@ =~= seq![digit_char(0)]);
        }
        "0"
    } else if d == 1 {
        proof {
            reveal_strlit("1");
            assert("1"@ =~= seq![digit_char(1)]);
        }
        "1"
    } else if d == 2 {
        proof {
            reveal_strlit("2");
            assert("2"@ =~= seq![digit_char(2)]);
        }
        "2"
    } else if d == 3 {
        proof {
            reveal_strlit("3");
            assert("3"@ =~= seq![digit_char(3)]);
        }
        "3"
    } else if d == 4 {
        proof {
            reveal_strlit("4");
            assert("4"@ =~= seq![digit_char(4)]);
        }
        "4"
    } else if d == 5 {
        proof {
            reveal_strlit("5");
            assert("5"@ =~= seq![digit_char(5)]);
        }
        "5"
    } else if d == 6 {
        proof {
            reveal_strlit("6");
            assert("6"@ =~= seq![digit_char(6)]);
        }
        "6"
    } else if d == 7 {
        proof {
            reveal_strlit("7");
            assert("7"@ =~= seq![digit_char(7)]);
        }
        "7"
    } else if d == 8 {
        proof {
            reveal_strlit("8");
            assert("8"@ =~= seq![digit_char(8)]);
        }
        "8"
    } else {
        proof {
            reveal_strlit("9");
            assert("9"@ =~= seq![digit_char(9)]);
        }
        "9"
    }
}

/// Render the value line for counter value `c`: `Value: ` followed by `c`
/// in decimal. Drawing the same counter twice yields the same line.
pub fn value_line(c: u8) -> (r: String)
    ensures
        r@ == value_line_spec(c),
{
    let mut s = String::from_str("Value: ");
    if c >= 100 {
        s.append(digit_str(c / 100));
        s.append(digit_str((c / 10) % 10));
        s.append(digit_str(c % 10));
        proof {
            assert(s@ =~= value_line_spec(c));
        }
    } else if c >= 10 {
        s.append(digit_str(c / 10));
        s.append(digit_str(c % 10));
        proof {
            assert(s@ =~= value_line_spec(c));
        }
    } else {
        s.append(digit_str(c));
        proof {
            assert(s@ =~= value_line_spec(c));
        }
    }
    s
}

} // verus!
