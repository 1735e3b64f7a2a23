//! Synthesized ordinal labels for positional fields: "Field 0", "Field 1",
//! and so on, with a verified decimal rendering.

use vstd::prelude::*;

verus! {

/// The decimal digit character for `d`.
pub open spec fn decimal_digit(d: int) -> char {
    if d == 0 {
        '0'
    } else if d == 1 {
        '1'
    } else if d == 2 {
        '2'
    } else if d == 3 {
        '3'
    } else if d == 4 {
        '4'
    } else if d == 5 {
        '5'
    } else if d == 6 {
        '6'
    } else if d == 7 {
        '7'
    } else if d == 8 {
        '8'
    } else {
        '9'
    }
}

/// The decimal representation of `n`, most significant digit first, with
/// no leading zeros (a single `'0'` for zero).
pub open spec fn decimal_str(n: nat) -> Seq<char>
    decreases n,
{
    if n < 10 {
        seq![decimal_digit(n as int)]
    } else {
        decimal_str(n / 10).push(decimal_digit((n % 10) as int))
    }
}

/// The synthesized label of the positional field at declaration index `i`.
pub open spec fn ordinal_label(i: nat) -> Seq<char> {
    "Field "@ + decimal_str(i)
}

/// The decimal digit for `d`, as a one-character string slice.
fn decimal_digit_str(d: usize) -> (s: &'static str)
    requires
        d < 10,
    ensures
        s@ == seq![decimal_digit(d as int)],
{
    if d == 0 {
        proof {
            reveal_strlit("0");
            assert("0"@ =~= seq!['0']);
        }
        "0"
    } else if d == 1 {
        proof {
            reveal_strlit("1");
            assert("1"@ =~= seq!['1']);
        }
        "1"
    } else if d == 2 {
        proof {
            reveal_strlit("2");
            assert("2"@ =~= seq!['2']);
        }
        "2"
    } else if d == 3 {
        proof {
            reveal_strlit("3");
            assert("3"@ =~= seq!['3']);
        }
        "3"
    } else if d == 4 {
        proof {
            reveal_strlit("4");
            assert("4"@ =~= seq!['4']);
        }
        "4"
    } else if d == 5 {
        proof {
            reveal_strlit("5");
            assert("5"@ =~= seq!['5']);
        }
        "5"
    } else if d == 6 {
        proof {
            reveal_strlit("6");
            assert("6"@ =~= seq!['6']);
        }
        "6"
    } else if d == 7 {
        proof {
            reveal_strlit("7");
            assert("7"@ =~= seq!['7']);
        }
        "7"
    } else if d == 8 {
        proof {
            reveal_strlit("8");
            assert("8"@ =~= seq!['8']);
        }
        "8"
    } else {
        proof {
            reveal_strlit("9");
            assert("9"@ =~= seq!['9']);
        }
        "9"
    }
}

/// Renders `n` in decimal.
pub fn decimal_string(n: usize) -> (s: String)
    ensures
        s@ == decimal_str(n as nat),
    decreases n,
{
    if n < 10 {
        String::from_str(decimal_digit_str(n))
    } else {
        let mut s = decimal_string(n / 10);
        let digit = decimal_digit_str(n % 10);
        s.append(digit);
        proof {
            assert(decimal_str((n / 10) as nat) + digit@ =~= decimal_str(n as nat));
        }
        s
    }
}

/// Renders the synthesized label of the positional field at index `i`.
pub fn ordinal_label_string(i: usize) -> (s: String)
    ensures
        s@ == ordinal_label(i as nat),
{
    let mut s = String::from_str("Field ");
    let digits = decimal_string(i);
    s.append(digits.as_str());
    s
}

} // verus!
