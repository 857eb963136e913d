//! Decimal rendering of prices and deltas as character sequences.
//!
//! A price of `c` cents renders as `<c/100>.<c%100, two digits>$`; a delta of
//! `d` hundredths of a percent renders as `[-]<|d|/100>.<|d|%100, two
//! digits>%` — the fixed-point counterparts of two-decimal formatting.

use vstd::prelude::*;

verus! {

/// The decimal digit character for `d` in `0..10`.
pub open spec fn digit_char(d: int) -> char {
    if d == 0 {
        '0'
    } else if d == 1 {
        '1'
    } else if d == 2 {
        '2'
    } else if d == 3 {
        '3'
    } else if d == 4 {
        '4'
    } else if d == 5 {
        '5'
    } else if d == 6 {
        '6'
    } else if d == 7 {
        '7'
    } else if d == 8 {
        '8'
    } else {
        '9'
    }
}

/// The decimal digits of `n >= 0`, no leading zeroes (a single `0` for 0).
pub open spec fn dec_str(n: int) -> Seq<char>
    decreases n,
{
    if n < 10 {
        seq![digit_char(n)]
    } else {
        dec_str(n / 10) + seq![digit_char(n % 10)]
    }
}

/// Exactly two digits for `f` in `0..100`, zero-padded.
pub open spec fn frac2_str(f: int) -> Seq<char> {
    seq![digit_char(f / 10), digit_char(f % 10)]
}

/// A price of `cents` cents with two decimals and a dollar sign.
pub open spec fn money_str(cents: int) -> Seq<char> {
    dec_str(cents / 100) + seq!['.'] + frac2_str(cents % 100) + seq!['$']
}

/// A delta of `dc` hundredths of a percent, signed, with two decimals and a
/// percent sign.
pub open spec fn delta_pct_str(dc: int) -> Seq<char> {
    let m = if dc < 0 {
        -dc
    } else {
        dc
    };
    (if dc < 0 {
        seq!['-']
    } else {
        Seq::<char>::empty()
    }) + dec_str(m / 100) + seq!['.'] + frac2_str(m % 100) + seq!['%']
}

/// Append the digit character for `d`.
fn push_digit(out: &mut Vec<char>, d: u64)
    requires
        d < 10,
    ensures
        final(out)@ == old(out)@ + seq![digit_char(d as int)],
{
    let c: char = if d == 0 {
        '0'
    } else if d == 1 {
        '1'
    } else if d == 2 {
        '2'
    } else if d == 3 {
        '3'
    } else if d == 4 {
        '4'
    } else if d == 5 {
        '5'
    } else if d == 6 {
        '6'
    } else if d == 7 {
        '7'
    } else if d == 8 {
        '8'
    } else {
        '9'
    };
    out.push(c);
    proof {
        assert(out@ =~= old(out)@ + seq![digit_char(d as int)]);
    }
}

/// Append the decimal digits of `n`.
pub fn push_dec(out: &mut Vec<char>, n: u64)
    ensures
        final(out)@ == old(out)@ + dec_str(n as int),
    decreases n,
{
    if n < 10 {
        push_digit(out, n);
    } else {
        push_dec(out, n / 10);
        push_digit(out, n % 10);
        proof {
            assert(out@ =~= old(out)@ + dec_str(n as int));
        }
    }
}

/// Append exactly two digits for `f < 100`.
pub fn push_frac2(out: &mut Vec<char>, f: u64)
    requires
        f < 100,
    ensures
        final(out)@ == old(out)@ + frac2_str(f as int),
{
    push_digit(out, f / 10);
    push_digit(out, f % 10);
    proof {
        assert(out@ =~= old(out)@ + frac2_str(f as int));
    }
}

/// Append a price of `cents` cents, rendered as dollars with two decimals.
pub fn push_money(out: &mut Vec<char>, cents: u32)
    ensures
        final(out)@ == old(out)@ + money_str(cents as int),
{
    push_dec(out, (cents / 100) as u64);
    out.push('.');
    push_frac2(out, (cents % 100) as u64);
    out.push('$');
    proof {
        assert(out@ =~= old(out)@ + money_str(cents as int));
    }
}

/// Append a signed delta of `dc` hundredths of a percent, rendered as a
/// percentage with two decimals.
pub fn push_delta_pct(out: &mut Vec<char>, dc: i64)
    requires
        dc > i64::MIN,
    ensures
        final(out)@ == old(out)@ + delta_pct_str(dc as int),
{
    let m: u64 = if dc < 0 {
        out.push('-');
        (-dc) as u64
    } else {
        dc as u64
    };
    push_dec(out, m / 100);
    out.push('.');
    push_frac2(out, m % 100);
    out.push('%');
    proof {
        assert(out@ =~= old(out)@ + delta_pct_str(dc as int));
    }
}

} // verus!
