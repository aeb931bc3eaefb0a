//! Decimal rendering of a byte value, used when a single-byte literal
//! becomes a numeric constant of the schema.

use vstd::prelude::*;
use vstd::string::StringExecFns;

verus! {

/// The decimal digit character for one digit value.
pub open spec fn spec_digit_char(d: nat) -> char {
    if d == 0 {
        '0'
    } else if d == 1 {
        '1'
    } else if d == 2 {
        '2'
    } else if d == 3 {
        '3'
    } else if d == 4 {
        '4'
    } else if d == 5 {
        '5'
    } else if d == 6 {
        '6'
    } else if d == 7 {
        '7'
    } else if d == 8 {
        '8'
    } else {
        '9'
    }
}

/// The base-10 digit text of a natural number: most significant digit
/// first, no leading zeros (a lone zero for the value zero).
pub open spec fn spec_decimal_digits(n: nat) -> Seq<char>
    decreases n,
{
    if n < 10 {
        Seq::empty().push(spec_digit_char(n))
    } else {
        spec_decimal_digits(n / 10).push(spec_digit_char(n % 10))
    }
}

/// Appends the character of one decimal digit.
fn append_digit(s: &mut String, d: u8)
    requires
        d < 10,
    ensures
        final(s)@ == old(s)@.push(spec_digit_char(d as nat)),
{
    match d {
        0 => {
            s.append("0");
            proof {
                reveal_strlit("0");
                assert(s@ =~= old(s)@.push(spec_digit_char(d as nat)));
            }
        },
        1 => {
            s.append("1");
            proof {
                reveal_strlit("1");
                assert(s@ =~= old(s)@.push(spec_digit_char(d as nat)));
            }
        },
        2 => {
            s.append("2");
            proof {
                reveal_strlit("2");
                assert(s@ =~= old(s)@.push(spec_digit_char(d as nat)));
            }
        },
        3 => {
            s.append("3");
            proof {
                reveal_strlit("3");
                assert(s@ =~= old(s)@.push(spec_digit_char(d as nat)));
            }
        },
        4 => {
            s.append("4");
            proof {
                reveal_strlit("4");
                assert(s@ =~= old(s)@.push(spec_digit_char(d as nat)));
            }
        },
        5 => {
            s.append("5");
            proof {
                reveal_strlit("5");
                assert(s@ =~= old(s)@.push(spec_digit_char(d as nat)));
            }
        },
        6 => {
            s.append("6");
            proof {
                reveal_strlit("6");
                assert(s@ =~= old(s)@.push(spec_digit_char(d as nat)));
            }
        },
        7 => {
            s.append("7");
            proof {
                reveal_strlit("7");
                assert(s@ =~= old(s)@.push(spec_digit_char(d as nat)));
            }
        },
        8 => {
            s.append("8");
            proof {
                reveal_strlit("8");
                assert(s@ =~= old(s)@.push(spec_digit_char(d as nat)));
            }
        },
        _ => {
            s.append("9");
            proof {
                reveal_strlit("9");
                assert(s@ =~= old(s)@.push(spec_digit_char(d as nat)));
            }
        },
    }
}

/// Renders a byte value as its base-10 digit text.
pub fn decimal_of_byte(b: u8) -> (s: String)
    ensures
        s@ == spec_decimal_digits(b as nat),
{
    let mut s = String::new();
    if b >= 100 {
        append_digit(&mut s, b / 100);
    }
    if b >= 10 {
        append_digit(&mut s, (b / 10) % 10);
    }
    append_digit(&mut s, b % 10);
    proof {
        let n = b as nat;
        if b >= 100 {
            vstd::arithmetic::div_mod::lemma_div_denominator(b as int, 10, 10);
            assert(n / 10 / 10 == n / 100);
            assert(n / 100 < 10);
            assert(spec_decimal_digits(n / 100) == Seq::empty().push(
                spec_digit_char(n / 100),
            ));
            assert(spec_decimal_digits(n / 10) == spec_decimal_digits(n / 100).push(
                spec_digit_char((n / 10) % 10),
            ));
            assert(s@ =~= spec_decimal_digits(n));
        } else if b >= 10 {
            assert((n / 10) % 10 == n / 10);
            assert(spec_decimal_digits(n / 10) == Seq::empty().push(
                spec_digit_char(n / 10),
            ));
            assert(s@ =~= spec_decimal_digits(n));
        } else {
            assert(s@ =~= spec_decimal_digits(n));
        }
    }
    s
}

} // verus!
