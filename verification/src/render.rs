//! Rendering of stored values into human-readable text: the generic
//! implementation behind the debug-formatting capability.

use vstd::prelude::*;

use crate::value::{Value, ValueView};

verus! {

/// The character of a single decimal digit.
pub open spec fn digit_char(d: u32) -> char {
    if d == 0 {
        '0'
    } else if d == 1 {
        '1'
    } else if d == 2 {
        '2'
    } else if d == 3 {
        '3'
    } else if d == 4 {
        '4'
    } else if d == 5 {
        '5'
    } else if d == 6 {
        '6'
    } else if d == 7 {
        '7'
    } else if d == 8 {
        '8'
    } else {
        '9'
    }
}

/// The decimal rendering of a number, most significant digit first.
pub open spec fn dec_repr(n: u32) -> Seq<char>
    decreases n,
{
    if n < 10 {
        seq![digit_char(n)]
    } else {
        dec_repr(n / 10).push(digit_char(n % 10))
    }
}

/// The debug rendering of a modeled value.
pub open spec fn debug_repr(v: ValueView) -> Seq<char> {
    match v {
        ValueView::Record { a, text } => "Record { a: "@ + dec_repr(a) + ", text: \""@ + text
            + "\" }"@,
        ValueView::Text(t) => "\""@ + t + "\""@,
    }
}

/// The single-character rendering of one decimal digit.
fn digit_str(d: u32) -> (s: &'static str)
    requires
        d < 10,
    ensures
        s@ == seq![digit_char(d)],
{
    if d == 0 {
        proof {
            reveal_strlit("0");
            assert("0"@ =~= seq![digit_char(0)]);
        }
        "0"
    } else if d == 1 {
        proof {
            reveal_strlit("1");
            assert("1"@ =~= seq![digit_char(1)]);
        }
        "1"
    } else if d == 2 {
        proof {
            reveal_strlit("2");
            assert("2"@ =~= seq![digit_char(2)]);
        }
        "2"
    } else if d == 3 {
        proof {
            reveal_strlit("3");
            assert("3"@ =~= seq![digit_char(3)]);
        }
        "3"
    } else if d == 4 {
        proof {
            reveal_strlit("4");
            assert("4"@ =~= seq![digit_char(4)]);
        }
        "4"
    } else if d == 5 {
        proof {
            reveal_strlit("5");
            assert("5"@ =~= seq![digit_char(5)]);
        }
        "5"
    } else if d == 6 {
        proof {
            reveal_strlit("6");
            assert("6"@ =~= seq![digit_char(6)]);
        }
        "6"
    } else if d == 7 {
        proof {
            reveal_strlit("7");
            assert("7"@ =~= seq![digit_char(7)]);
        }
        "7"
    } else if d == 8 {
        proof {
            reveal_strlit("8");
            assert("8"@ =~= seq![digit_char(8)]);
        }
        "8"
    } else {
        proof {
            reveal_strlit("9");
            assert("9"@ =~= seq![digit_char(9)]);
        }
        "9"
    }
}

/// Renders a number in decimal.
pub fn u32_to_dec(n: u32) -> (s: String)
    ensures
        s@ == dec_repr(n),
    decreases n,
{
    if n < 10 {
        String::from_str(digit_str(n))
    } else {
        let mut s = u32_to_dec(n / 10);
        s.append(digit_str(n % 10));
        proof {
            assert(s@ =~= dec_repr(n));
        }
        s
    }
}

/// Renders a value for debugging: the generic debug capability, available to
/// every concrete value kind.
pub fn value_debug(v: &Value) -> (s: String)
    ensures
        s@ == debug_repr(v@),
{
    match v {
        Value::Record { a, text } => {
            let mut s = String::from_str("Record { a: ");
            let num = u32_to_dec(*a);
            s.append(num.as_str());
            s.append(", text: \"");
            s.append(text.as_str());
            s.append("\" }");
            proof {
                assert(s@ =~= debug_repr(v@));
            }
            s
        },
        Value::Text(t) => {
            let mut s = String::from_str("\"");
            s.append(t.as_str());
            s.append("\"");
            proof {
                assert(s@ =~= debug_repr(v@));
            }
            s
        },
    }
}

} // verus!
