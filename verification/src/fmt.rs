//! Verified text formatting for the metric panels.
//!
//! The panels print byte counts and load figures as fixed-point decimals
//! ("12.05", "3.7", padded columns).  Everything here works on integers in
//! the smallest displayed unit — hundredths of a gibibyte, hundredths of a
//! percent, tenths of a degree — so every rendered character is pinned by a
//! specification.

use vstd::prelude::*;
use vstd::string::StrSliceExecFns;
use vstd::string::StringExecFns;

verus! {

/// The character for one decimal digit.
pub open spec fn dec_digit(d: int) -> char {
    if d == 0 {
        '0'
    } else if d == 1 {
        '1'
    } else if d == 2 {
        '2'
    } else if d == 3 {
        '3'
    } else if d == 4 {
        '4'
    } else if d == 5 {
        '5'
    } else if d == 6 {
        '6'
    } else if d == 7 {
        '7'
    } else if d == 8 {
        '8'
    } else {
        '9'
    }
}

/// The decimal digits of `n`, most significant first, without leading
/// zeros (a single zero for 0).
pub open spec fn dec_spec(n: int) -> Seq<char>
    recommends
        n >= 0,
    decreases n,
{
    if n < 10 {
        seq![dec_digit(n)]
    } else {
        dec_spec(n / 10).push(dec_digit(n % 10))
    }
}

/// The one-character string for a decimal digit.
fn digit_str(d: u64) -> (s: &'static str)
    requires
        d < 10,
    ensures
        s@ =~= seq![dec_digit(d as int)],
{
    match d {
        0 => {
            proof {
                reveal_strlit("0");
            }
            "0"
        },
        1 => {
            proof {
                reveal_strlit("1");
            }
            "1"
        },
        2 => {
            proof {
                reveal_strlit("2");
            }
            "2"
        },
        3 => {
            proof {
                reveal_strlit("3");
            }
            "3"
        },
        4 => {
            proof {
                reveal_strlit("4");
            }
            "4"
        },
        5 => {
            proof {
                reveal_strlit("5");
            }
            "5"
        },
        6 => {
            proof {
                reveal_strlit("6");
            }
            "6"
        },
        7 => {
            proof {
                reveal_strlit("7");
            }
            "7"
        },
        8 => {
            proof {
                reveal_strlit("8");
            }
            "8"
        },
        _ => {
            proof {
                reveal_strlit("9");
            }
            "9"
        },
    }
}

/// Render `n` in decimal.
pub fn fmt_u64(n: u64) -> (s: String)
    ensures
        s@ == dec_spec(n as int),
    decreases n,
{
    if n < 10 {
        digit_str(n).to_owned()
    } else {
        let mut s = fmt_u64(n / 10);
        s.append(digit_str(n % 10));
        proof {
            assert(s@ =~= dec_spec((n / 10) as int).push(dec_digit((n % 10) as int)));
        }
        s
    }
}

/// A count of hundredths rendered with two decimal places: 1205 is
/// "12.05".
pub open spec fn fixed2_spec(centi: int) -> Seq<char>
    recommends
        centi >= 0,
{
    dec_spec(centi / 100) + seq!['.', dec_digit((centi / 10) % 10), dec_digit(centi % 10)]
}

/// Render a count of hundredths with two decimal places.
pub fn fmt_fixed2(centi: u64) -> (s: String)
    ensures
        s@ == fixed2_spec(centi as int),
{
    let mut s = fmt_u64(centi / 100);
    s.append(".");
    s.append(digit_str((centi / 10) % 10));
    s.append(digit_str(centi % 10));
    proof {
        reveal_strlit(".");
        assert(s@ =~= fixed2_spec(centi as int));
    }
    s
}

/// A count of tenths rendered with one decimal place and a sign: -53 is
/// "-5.3".
pub open spec fn fixed1_spec(deci: int) -> Seq<char> {
    if deci < 0 {
        seq!['-'] + fixed1_nonneg_spec(-deci)
    } else {
        fixed1_nonneg_spec(deci)
    }
}

/// A non-negative count of tenths rendered with one decimal place.
pub open spec fn fixed1_nonneg_spec(deci: int) -> Seq<char>
    recommends
        deci >= 0,
{
    dec_spec(deci / 10) + seq!['.', dec_digit(deci % 10)]
}

/// Render a non-negative count of tenths with one decimal place.
fn fmt_fixed1_nonneg(deci: u64) -> (s: String)
    ensures
        s@ == fixed1_nonneg_spec(deci as int),
{
    let mut s = fmt_u64(deci / 10);
    s.append(".");
    s.append(digit_str(deci % 10));
    proof {
        reveal_strlit(".");
        assert(s@ =~= fixed1_nonneg_spec(deci as int));
    }
    s
}

/// Render a count of tenths with one decimal place and a sign.
pub fn fmt_fixed1(deci: i64) -> (s: String)
    requires
        deci > i64::MIN,
    ensures
        s@ == fixed1_spec(deci as int),
{
    if deci < 0 {
        let mut s = "-".to_owned();
        let t = fmt_fixed1_nonneg((-deci) as u64);
        s.append(t.as_str());
        proof {
            reveal_strlit("-");
            assert(s@ =~= fixed1_spec(deci as int));
        }
        s
    } else {
        fmt_fixed1_nonneg(deci as u64)
    }
}

/// `n` spaces.
pub open spec fn spaces(n: int) -> Seq<char>
    decreases n,
{
    if n <= 0 {
        Seq::empty()
    } else {
        spaces(n - 1).push(' ')
    }
}

/// `s` left-aligned in a field of width `w`: padded with spaces on the
/// right, and left alone once it is already wide enough.  This is how text
/// columns are padded.
pub open spec fn pad_right_spec(s: Seq<char>, w: int) -> Seq<char> {
    if s.len() >= w {
        s
    } else {
        s + spaces(w - s.len())
    }
}

/// `s` right-aligned in a field of width `w`: padded with spaces on the
/// left.  This is how numeric columns are padded.
pub open spec fn pad_left_spec(s: Seq<char>, w: int) -> Seq<char> {
    if s.len() >= w {
        s
    } else {
        spaces(w - s.len()) + s
    }
}

/// Left-align `s` in a field of width `w`.
pub fn pad_right(s: String, w: usize) -> (r: String)
    ensures
        r@ == pad_right_spec(s@, w as int),
{
    let ghost s0 = s@;
    let n = s.as_str().unicode_len();
    if n >= w {
        return s;
    }
    let mut r = s;
    let mut i = n;
    proof {
        assert(r@ =~= s0 + spaces(0));
    }
    while i < w
        invariant
            n <= i <= w,
            s0.len() == n,
            r@ =~= s0 + spaces(i - n),
        decreases w - i,
    {
        proof {
            reveal_strlit(" ");
        }
        let ghost before = r@;
        r.append(" ");
        proof {
            assert(r@ =~= before.push(' '));
            assert(before.push(' ') =~= s0 + spaces(i + 1 - n));
        }
        i = i + 1;
    }
    r
}

/// Right-align `s` in a field of width `w`.
pub fn pad_left(s: String, w: usize) -> (r: String)
    ensures
        r@ == pad_left_spec(s@, w as int),
{
    let n = s.as_str().unicode_len();
    if n >= w {
        return s;
    }
    let mut r = String::new();
    let mut i: usize = 0;
    while i < w - n
        invariant
            i <= w - n,
            r@ =~= spaces(i as int),
        decreases w - n - i,
    {
        proof {
            reveal_strlit(" ");
        }
        let ghost before = r@;
        r.append(" ");
        i = i + 1;
        proof {
            assert(r@ =~= before.push(' '));
        }
    }
    r.append(s.as_str());
    proof {
        assert(r@ =~= pad_left_spec(s@, w as int));
    }
    r
}

} // verus!
