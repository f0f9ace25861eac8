//! Construction of the one-line diagnostics that failures produce: a fixed
//! prefix, an optional call-site location, and the rendering of the failure
//! itself.
//!
//! Call-site capture is an explicit-argument mechanism here: a call site
//! that wants its location in the diagnostic passes file, line and column to
//! the `_at` forms; the plain forms produce the location-free format.

use vstd::prelude::*;
use vstd::string::StringExecFns;

verus! {

/// The digit character for `d` (meaningful for `d < 10`).
pub open spec fn digit_char(d: nat) -> char {
    if d == 0 {
        '0'
    } else if d == 1 {
        '1'
    } else if d == 2 {
        '2'
    } else if d == 3 {
        '3'
    } else if d == 4 {
        '4'
    } else if d == 5 {
        '5'
    } else if d == 6 {
        '6'
    } else if d == 7 {
        '7'
    } else if d == 8 {
        '8'
    } else {
        '9'
    }
}

/// The decimal rendering of `n`: most significant digit first, no sign, a
/// single `'0'` for zero and no leading zero otherwise.
pub open spec fn dec_str(n: nat) -> Seq<char>
    decreases n,
{
    if n < 10 {
        seq![digit_char(n)]
    } else {
        dec_str(n / 10).push(digit_char(n % 10))
    }
}

/// The one-character string for the digit `d`.
fn digit_str(d: u32) -> (r: &'static str)
    requires
        d < 10,
    ensures
        r@ == seq![digit_char(d as nat)],
{
    if d == 0 {
        proof {
            reveal_strlit("0");
        }
        "0"
    } else if d == 1 {
        proof {
            reveal_strlit("1");
        }
        "1"
    } else if d == 2 {
        proof {
            reveal_strlit("2");
        }
        "2"
    } else if d == 3 {
        proof {
            reveal_strlit("3");
        }
        "3"
    } else if d == 4 {
        proof {
            reveal_strlit("4");
        }
        "4"
    } else if d == 5 {
        proof {
            reveal_strlit("5");
        }
        "5"
    } else if d == 6 {
        proof {
            reveal_strlit("6");
        }
        "6"
    } else if d == 7 {
        proof {
            reveal_strlit("7");
        }
        "7"
    } else if d == 8 {
        proof {
            reveal_strlit("8");
        }
        "8"
    } else {
        proof {
            reveal_strlit("9");
        }
        "9"
    }
}

/// Append the decimal rendering of `n` to `out`.
fn push_dec(out: &mut String, n: u32)
    ensures
        final(out)@ == old(out)@ + dec_str(n as nat),
    decreases n,
{
    if n >= 10 {
        proof {
            assert(n / 10 < n) by (nonlinear_arith)
                requires
                    n >= 10,
            ;
        }
        push_dec(out, n / 10);
    }
    out.append(digit_str(n % 10));
    proof {
        assert(final(out)@ =~= old(out)@ + dec_str(n as nat));
    }
}

/// The decimal rendering of `n` as a `String`.
pub fn u32_to_string(n: u32) -> (r: String)
    ensures
        r@ == dec_str(n as nat),
{
    let mut s = String::new();
    push_dec(&mut s, n);
    proof {
        assert(s@ =~= dec_str(n as nat));
    }
    s
}

/// The location-free diagnostic line for a failure rendered as `detail`.
pub open spec fn error_line(detail: Seq<char>) -> Seq<char> {
    "Error: "@ + detail
}

/// The diagnostic line for a failure rendered as `detail` at the call site
/// `file:line:column`.
pub open spec fn error_line_at(
    file: Seq<char>,
    line: nat,
    column: nat,
    detail: Seq<char>,
) -> Seq<char> {
    "Error at "@ + file + ":"@ + dec_str(line) + ":"@ + dec_str(column) + ": "@ + detail
}

/// Build the location-free diagnostic line for `detail`.
pub fn error_message(detail: &str) -> (r: String)
    ensures
        r@ == error_line(detail@),
{
    let mut s = String::from_str("Error: ");
    s.append(detail);
    s
}

/// Build the diagnostic line for `detail` at the call site
/// `file:line:column`.
pub fn error_message_at(file: &str, line: u32, column: u32, detail: &str) -> (r: String)
    ensures
        r@ == error_line_at(file@, line as nat, column as nat, detail@),
{
    let mut s = String::from_str("Error at ");
    s.append(file);
    s.append(":");
    push_dec(&mut s, line);
    s.append(":");
    push_dec(&mut s, column);
    s.append(": ");
    s.append(detail);
    proof {
        assert(s@ =~= error_line_at(file@, line as nat, column as nat, detail@));
    }
    s
}

} // verus!
