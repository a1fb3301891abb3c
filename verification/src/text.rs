//! Textual rendering of the range types with `usize` indices:
//! `"start..end"`, `"start.."` and `"start..=end"`.

use vstd::prelude::*;
use vstd::string::StringExecFns;
use crate::bounded::CopyRange;
use crate::from_start::CopyRangeFrom;
use crate::inclusive::CopyRangeInclusive;

verus! {

/// The decimal digit character for a value below ten.
pub open spec fn digit_char(d: nat) -> char {
    if d == 0 {
        '0'
    } else if d == 1 {
        '1'
    } else if d == 2 {
        '2'
    } else if d == 3 {
        '3'
    } else if d == 4 {
        '4'
    } else if d == 5 {
        '5'
    } else if d == 6 {
        '6'
    } else if d == 7 {
        '7'
    } else if d == 8 {
        '8'
    } else {
        '9'
    }
}

/// The decimal rendering of `n`, most significant digit first, with no
/// leading zeros (a single `'0'` for zero itself).
pub open spec fn spec_decimal(n: nat) -> Seq<char>
    decreases n,
{
    if n < 10 {
        seq![digit_char(n)]
    } else {
        spec_decimal(n / 10).push(digit_char(n % 10))
    }
}

/// The single-character string for a decimal digit.
fn digit_str(d: usize) -> (r: &'static str)
    requires
        d < 10,
    ensures
        r@ == seq![digit_char(d as nat)],
{
    if d == 0 {
        proof {
            reveal_strlit("0");
            assert("0"@ =~= seq![digit_char(0)]);
        }
        "0"
    } else if d == 1 {
        proof {
            reveal_strlit("1");
            assert("1"@ =~= seq![digit_char(1)]);
        }
        "1"
    } else if d == 2 {
        proof {
            reveal_strlit("2");
            assert("2"@ =~= seq![digit_char(2)]);
        }
        "2"
    } else if d == 3 {
        proof {
            reveal_strlit("3");
            assert("3"@ =~= seq![digit_char(3)]);
        }
        "3"
    } else if d == 4 {
        proof {
            reveal_strlit("4");
            assert("4"@ =~= seq![digit_char(4)]);
        }
        "4"
    } else if d == 5 {
        proof {
            reveal_strlit("5");
            assert("5"@ =~= seq![digit_char(5)]);
        }
        "5"
    } else if d == 6 {
        proof {
            reveal_strlit("6");
            assert("6"@ =~= seq![digit_char(6)]);
        }
        "6"
    } else if d == 7 {
        proof {
            reveal_strlit("7");
            assert("7"@ =~= seq![digit_char(7)]);
        }
        "7"
    } else if d == 8 {
        proof {
            reveal_strlit("8");
            assert("8"@ =~= seq![digit_char(8)]);
        }
        "8"
    } else {
        proof {
            reveal_strlit("9");
            assert("9"@ =~= seq![digit_char(9)]);
        }
        "9"
    }
}

/// Append the decimal rendering of `n` to `out`.
fn push_decimal(out: &mut String, n: usize)
    ensures
        final(out)@ == old(out)@ + spec_decimal(n as nat),
    decreases n,
{
    if n < 10 {
        out.append(digit_str(n));
        proof {
            assert(out@ =~= old(out)@ + spec_decimal(n as nat));
        }
    } else {
        push_decimal(out, n / 10);
        out.append(digit_str(n % 10));
        proof {
            assert(out@ =~= old(out)@ + spec_decimal(n as nat));
        }
    }
}

impl CopyRange<usize> {
    /// The range's textual form: the decimal bounds around `".."`.
    pub open spec fn spec_text(self) -> Seq<char> {
        spec_decimal(self.start as nat) + seq!['.', '.'] + spec_decimal(self.end as nat)
    }

    /// Render the range as text, `"start..end"` with decimal bounds.
    pub fn to_text(&self) -> (r: String)
        ensures
            r@ == self.spec_text(),
    {
        let mut out = String::new();
        push_decimal(&mut out, self.start);
        let dots = "..";
        proof {
            reveal_strlit("..");
            assert(dots@ =~= seq!['.', '.']);
        }
        out.append(dots);
        push_decimal(&mut out, self.end);
        proof {
            assert(out@ =~= self.spec_text());
        }
        out
    }
}

impl CopyRangeFrom<usize> {
    /// The range's textual form: the decimal start bound before `".."`.
    pub open spec fn spec_text(self) -> Seq<char> {
        spec_decimal(self.start as nat) + seq!['.', '.']
    }

    /// Render the range as text, `"start.."` with a decimal bound.
    pub fn to_text(&self) -> (r: String)
        ensures
            r@ == self.spec_text(),
    {
        let mut out = String::new();
        push_decimal(&mut out, self.start);
        let dots = "..";
        proof {
            reveal_strlit("..");
            assert(dots@ =~= seq!['.', '.']);
        }
        out.append(dots);
        proof {
            assert(out@ =~= self.spec_text());
        }
        out
    }
}

impl CopyRangeInclusive<usize> {
    /// The range's textual form: the decimal bounds around `"..="`.
    pub open spec fn spec_text(self) -> Seq<char> {
        spec_decimal(self.start as nat) + seq!['.', '.', '='] + spec_decimal(self.end as nat)
    }

    /// Render the range as text, `"start..=end"` with decimal bounds.
    pub fn to_text(&self) -> (r: String)
        ensures
            r@ == self.spec_text(),
    {
        let mut out = String::new();
        push_decimal(&mut out, self.start);
        let dots = "..=";
        proof {
            reveal_strlit("..=");
            assert(dots@ =~= seq!['.', '.', '=']);
        }
        out.append(dots);
        push_decimal(&mut out, self.end);
        proof {
            assert(out@ =~= self.spec_text());
        }
        out
    }
}

} // verus!
