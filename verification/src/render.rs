//! Rendering of stored values into the textual form the protocol sends back:
//! the tag name, an opening parenthesis, the payload, a closing parenthesis,
//! with text payloads quoted and escaped.

use vstd::prelude::*;
use vstd::string::*;

use crate::store::Value;
use crate::store::ValueModel;

verus! {

/// The decimal digit character for `d`.
pub open spec fn digit_char(d: int) -> char {
    if d == 0 {
        '0'
    } else if d == 1 {
        '1'
    } else if d == 2 {
        '2'
    } else if d == 3 {
        '3'
    } else if d == 4 {
        '4'
    } else if d == 5 {
        '5'
    } else if d == 6 {
        '6'
    } else if d == 7 {
        '7'
    } else if d == 8 {
        '8'
    } else {
        '9'
    }
}

/// The decimal digits of a non-negative number, most significant first.
pub open spec fn dec_rep(n: int) -> Seq<char>
    decreases n,
{
    if n < 10 {
        seq![digit_char(n)]
    } else {
        dec_rep(n / 10).push(digit_char(n % 10))
    }
}

/// The decimal form of an integer: a minus sign for a negative number,
/// then its digits.
pub open spec fn int_rep(i: int) -> Seq<char> {
    if i < 0 {
        seq!['-'] + dec_rep(-i)
    } else {
        dec_rep(i)
    }
}

fn digit_str(d: u32) -> (r: &'static str)
    requires
        d < 10,
    ensures
        r@ == seq![digit_char(d as int)],
{
    proof {
        reveal_strlit("0");
        reveal_strlit("1");
        reveal_strlit("2");
        reveal_strlit("3");
        reveal_strlit("4");
        reveal_strlit("5");
        reveal_strlit("6");
        reveal_strlit("7");
        reveal_strlit("8");
        reveal_strlit("9");
    }
    if d == 0 {
        proof {
            assert("0"@ =~= seq![digit_char(0)]);
        }
        "0"
    } else if d == 1 {
        proof {
            assert("1"@ =~= seq![digit_char(1)]);
        }
        "1"
    } else if d == 2 {
        proof {
            assert("2"@ =~= seq![digit_char(2)]);
        }
        "2"
    } else if d == 3 {
        proof {
            assert("3"@ =~= seq![digit_char(3)]);
        }
        "3"
    } else if d == 4 {
        proof {
            assert("4"@ =~= seq![digit_char(4)]);
        }
        "4"
    } else if d == 5 {
        proof {
            assert("5"@ =~= seq![digit_char(5)]);
        }
        "5"
    } else if d == 6 {
        proof {
            assert("6"@ =~= seq![digit_char(6)]);
        }
        "6"
    } else if d == 7 {
        proof {
            assert("7"@ =~= seq![digit_char(7)]);
        }
        "7"
    } else if d == 8 {
        proof {
            assert("8"@ =~= seq![digit_char(8)]);
        }
        "8"
    } else {
        proof {
            assert("9"@ =~= seq![digit_char(9)]);
        }
        "9"
    }
}

/// The decimal digits of `n`, most significant first.
pub fn u32_to_string(n: u32) -> (r: String)
    ensures
        r@ == dec_rep(n as int),
    decreases n,
{
    if n < 10 {
        String::from_str(digit_str(n))
    } else {
        let front = u32_to_string(n / 10);
        let r = front.concat(digit_str(n % 10));
        proof {
            assert(r@ =~= dec_rep(n as int));
        }
        r
    }
}

/// The decimal form of `i`, sign included.
pub fn i32_to_string(i: i32) -> (r: String)
    ensures
        r@ == int_rep(i as int),
{
    if i >= 0 {
        u32_to_string(i as u32)
    } else {
        let wide: i64 = i as i64;
        let mag: u32 = (-wide) as u32;
        let r = String::from_str("-").concat(u32_to_string(mag).as_str());
        proof {
            reveal_strlit("-");
            assert("-"@ =~= seq!['-']);
            assert(r@ =~= int_rep(i as int));
        }
        r
    }
}

/// The quoted, escaped form of a piece of text, as std's `Debug` formatting
/// of `str` writes it.
pub uninterp spec fn str_debug(s: Seq<char>) -> Seq<char>;

/// Relies on std's `Debug` formatting for `str`: the quoted, escaped form of
/// the text, a function of its characters alone.
#[verifier::external_body]
pub(crate) fn debug_quote(s: &str) -> (r: String)
    ensures
        r@ == str_debug(s@),
{
    format!("{:?}", s)
}

pub open spec fn integer_label() -> Seq<char> {
    seq!['I', 'n', 't', 'e', 'g', 'e', 'r', '(']
}

pub open spec fn double_label() -> Seq<char> {
    seq!['D', 'o', 'u', 'b', 'l', 'e', '(']
}

pub open spec fn text_label() -> Seq<char> {
    seq!['S', 't', 'r', 'i', 'n', 'g', '(']
}

/// The rendered form of a value: its tag, then its payload in parentheses;
/// text is quoted and escaped, a double shows the decimal rendering it
/// carries.
pub open spec fn render_model(v: ValueModel) -> Seq<char> {
    match v {
        ValueModel::Integer(i) => integer_label() + int_rep(i as int) + seq![')'],
        ValueModel::Double(s) => double_label() + s + seq![')'],
        ValueModel::Text(s) => text_label() + str_debug(s) + seq![')'],
    }
}

/// Render a value for a reply body.
pub fn render_value(v: &Value) -> (r: String)
    ensures
        r@ == render_model(v@),
{
    proof {
        reveal_strlit("Integer(");
        reveal_strlit("Double(");
        reveal_strlit("String(");
        reveal_strlit(")");
        assert("Integer("@ =~= integer_label());
        assert("Double("@ =~= double_label());
        assert("String("@ =~= text_label());
        assert(")"@ =~= seq![')']);
    }
    match v {
        Value::Integer(i) => {
            let r = String::from_str("Integer(").concat(i32_to_string(*i).as_str()).concat(")");
            proof {
                assert(r@ =~= render_model(v@));
            }
            r
        },
        Value::Double(s) => {
            let r = String::from_str("Double(").concat(s.as_str()).concat(")");
            proof {
                assert(r@ =~= render_model(v@));
            }
            r
        },
        Value::Text(s) => {
            let r = String::from_str("String(").concat(debug_quote(s.as_str()).as_str()).concat(
                ")",
            );
            proof {
                assert(r@ =~= render_model(v@));
            }
            r
        },
    }
}

} // verus!
