//! Decimal renderings of integers and of fixed-point coordinates.

use vstd::prelude::*;

verus! {

/// The character of a decimal digit.
pub open spec fn digit_char(d: nat) -> char {
    if d == 0 {
        '0'
    } else if d == 1 {
        '1'
    } else if d == 2 {
        '2'
    } else if d == 3 {
        '3'
    } else if d == 4 {
        '4'
    } else if d == 5 {
        '5'
    } else if d == 6 {
        '6'
    } else if d == 7 {
        '7'
    } else if d == 8 {
        '8'
    } else {
        '9'
    }
}

pub open spec fn is_digit(c: char) -> bool {
    '0' <= c && c <= '9'
}

/// The decimal digits of `n`, without leading zeros ("0" for zero).
pub open spec fn dec(n: nat) -> Seq<char>
    decreases n,
{
    if n < 10 {
        seq![digit_char(n)]
    } else {
        dec(n / 10) + seq![digit_char(n % 10)]
    }
}

/// The five digits of `r` (below 100000), leading zeros included.
pub open spec fn five_digits(r: nat) -> Seq<char> {
    seq![
        digit_char((r / 10000) % 10),
        digit_char((r / 1000) % 10),
        digit_char((r / 100) % 10),
        digit_char((r / 10) % 10),
        digit_char(r % 10),
    ]
}

pub open spec fn abs(v: int) -> nat {
    if v < 0 {
        (-v) as nat
    } else {
        v as nat
    }
}

/// A value counted in hundred-thousandths, written with exactly five
/// decimal places: `-104.98707` for -10498707.
pub open spec fn fixed5(v: int) -> Seq<char> {
    (if v < 0 {
        seq!['-']
    } else {
        Seq::empty()
    }) + dec(abs(v) / 100000) + seq!['.'] + five_digits(abs(v) % 100000)
}

fn digit_str(d: u64) -> (r: &'static str)
    requires
        d < 10,
    ensures
        r@ == seq![digit_char(d as nat)],
{
    proof {
        reveal_strlit("0");
        reveal_strlit("1");
        reveal_strlit("2");
        reveal_strlit("3");
        reveal_strlit("4");
        reveal_strlit("5");
        reveal_strlit("6");
        reveal_strlit("7");
        reveal_strlit("8");
        reveal_strlit("9");
    }
    if d == 0 {
        "0"
    } else if d == 1 {
        "1"
    } else if d == 2 {
        "2"
    } else if d == 3 {
        "3"
    } else if d == 4 {
        "4"
    } else if d == 5 {
        "5"
    } else if d == 6 {
        "6"
    } else if d == 7 {
        "7"
    } else if d == 8 {
        "8"
    } else {
        "9"
    }
}

/// Appends the decimal digits of `n` to `s`.
pub fn push_decimal(s: &mut String, n: u64)
    ensures
        final(s)@ == old(s)@ + dec(n as nat),
    decreases n,
{
    if n >= 10 {
        push_decimal(s, n / 10);
    }
    s.append(digit_str(n % 10));
    assert(final(s)@ =~= old(s)@ + dec(n as nat));
}

/// Appends `v`, counted in hundred-thousandths, with five decimal places.
pub fn push_fixed5(s: &mut String, v: i64)
    ensures
        final(s)@ == old(s)@ + fixed5(v as int),
{
    let m: u64 = if v < 0 {
        (-(v as i128)) as u64
    } else {
        v as u64
    };
    assert(m as nat == abs(v as int));
    let ghost start = s@;
    if v < 0 {
        proof {
            reveal_strlit("-");
        }
        s.append("-");
    }
    push_decimal(s, m / 100000);
    proof {
        reveal_strlit(".");
    }
    s.append(".");
    let r: u64 = m % 100000;
    s.append(digit_str((r / 10000) % 10));
    s.append(digit_str((r / 1000) % 10));
    s.append(digit_str((r / 100) % 10));
    s.append(digit_str((r / 10) % 10));
    s.append(digit_str(r % 10));
    assert(s@ =~= start + fixed5(v as int));
}

/// Text of the shape `[-]D+.DDDDD`: a sign exactly where `negative`, then at
/// least one digit, a point, and exactly five digits.
pub open spec fn is_fixed5_text(t: Seq<char>, negative: bool) -> bool {
    let sign: int = if negative {
        1
    } else {
        0
    };
    &&& t.len() >= sign + 7
    &&& (negative ==> t[0] == '-')
    &&& t[t.len() - 6] == '.'
    &&& forall|k: int| sign <= k < t.len() && k != t.len() - 6 ==> is_digit(#[trigger] t[k])
}

proof fn lemma_digit_char(d: nat)
    ensures
        is_digit(digit_char(d)),
{
}

proof fn lemma_dec_digits(n: nat)
    ensures
        dec(n).len() >= 1,
        forall|k: int| 0 <= k < dec(n).len() ==> is_digit(#[trigger] dec(n)[k]),
    decreases n,
{
    lemma_digit_char(n % 10);
    if n >= 10 {
        lemma_dec_digits(n / 10);
        let a = dec(n / 10);
        let t = dec(n);
        assert forall|k: int| 0 <= k < t.len() implies is_digit(#[trigger] t[k]) by {
            if k < a.len() {
                assert(t[k] == a[k]);
            }
        }
    } else {
        lemma_digit_char(n);
    }
}

/// Every value written by `fixed5` has a sign exactly when it is negative,
/// whole digits, a point, and exactly five decimal digits, whatever its
/// magnitude.
pub proof fn lemma_fixed5_shape(v: int)
    ensures
        is_fixed5_text(fixed5(v), v < 0),
{
    let a = abs(v);
    let sign = if v < 0 {
        seq!['-']
    } else {
        Seq::<char>::empty()
    };
    let w = dec(a / 100000);
    let f = five_digits(a % 100000);
    lemma_dec_digits(a / 100000);
    lemma_digit_char((a % 100000) / 10000 % 10);
    lemma_digit_char((a % 100000) / 1000 % 10);
    lemma_digit_char((a % 100000) / 100 % 10);
    lemma_digit_char((a % 100000) / 10 % 10);
    lemma_digit_char((a % 100000) % 10);
    let t = fixed5(v);
    assert(t =~= sign + w + seq!['.'] + f);
    let base: int = (sign.len() + w.len()) as int;
    assert(t[base] == '.');
    assert(t.len() == base + 6);
    assert forall|k: int| sign.len() <= k < t.len() && k != t.len() - 6 implies is_digit(#[trigger] t[k]) by {
        if k < base {
            assert(t[k] == w[k - sign.len()]);
        } else {
            assert(t[k] == f[k - base - 1]);
        }
    }
}

} // verus!
