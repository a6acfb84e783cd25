//! Decimal rendering of the integers that appear in mutation statements
//! and stream events: timestamps and message identifiers.

use vstd::prelude::*;

verus! {

/// The character for one decimal digit.
pub open spec fn dec_digit(d: int) -> char {
    if d == 0 {
        '0'
    } else if d == 1 {
        '1'
    } else if d == 2 {
        '2'
    } else if d == 3 {
        '3'
    } else if d == 4 {
        '4'
    } else if d == 5 {
        '5'
    } else if d == 6 {
        '6'
    } else if d == 7 {
        '7'
    } else if d == 8 {
        '8'
    } else {
        '9'
    }
}

/// Decimal representation of a non-negative integer, most significant
/// digit first, with no leading zeros (except for zero itself).
pub open spec fn dec_seq(n: nat) -> Seq<char>
    decreases n,
{
    if n < 10 {
        seq![dec_digit(n as int)]
    } else {
        dec_seq(n / 10) + seq![dec_digit((n % 10) as int)]
    }
}

/// Decimal representation of a signed integer: a minus sign before the
/// digits of the magnitude when negative.
pub open spec fn dec_seq_signed(n: int) -> Seq<char> {
    if n < 0 {
        seq!['-'] + dec_seq((-n) as nat)
    } else {
        dec_seq(n as nat)
    }
}

fn dec_digit_char(d: u64) -> (c: char)
    requires
        d < 10,
    ensures
        c == dec_digit(d as int),
{
    if d == 0 {
        '0'
    } else if d == 1 {
        '1'
    } else if d == 2 {
        '2'
    } else if d == 3 {
        '3'
    } else if d == 4 {
        '4'
    } else if d == 5 {
        '5'
    } else if d == 6 {
        '6'
    } else if d == 7 {
        '7'
    } else if d == 8 {
        '8'
    } else {
        '9'
    }
}

/// Render a non-negative integer in decimal.
pub fn u64_to_dec(n: u64) -> (r: String)
    ensures
        r@ == dec_seq(n as nat),
{
    let mut digits: Vec<char> = Vec::new();
    let mut m: u64 = n;
    while m >= 10
        invariant
            dec_seq(n as nat) == dec_seq(m as nat) + digits@.reverse(),
        decreases m,
    {
        let d = m % 10;
        let ghost old_digits = digits@;
        digits.push(dec_digit_char(d));
        m = m / 10;
        proof {
            assert(digits@.reverse() =~= seq![dec_digit(d as int)] + old_digits.reverse());
            assert(dec_seq(m as nat) + digits@.reverse() =~= (dec_seq(m as nat) + seq![
                dec_digit(d as int),
            ]) + old_digits.reverse());
        }
    }
    let ghost tail = digits@.reverse();
    let mut r = String::new();
    proof {
        assert(dec_seq(m as nat) =~= seq![dec_digit(m as int)]);
    }
    crate::strutil::push_char(&mut r, dec_digit_char(m));
    let mut i: usize = digits.len();
    while i > 0
        invariant
            i <= digits@.len(),
            tail == digits@.reverse(),
            r@ == seq![dec_digit(m as int)] + tail.take(tail.len() - i),
        decreases i,
    {
        i = i - 1;
        let c = digits[i];
        crate::strutil::push_char(&mut r, c);
        proof {
            let k = tail.len() - i - 1;
            assert(tail[k] == digits@[i as int]);
            assert(tail.take(k + 1) =~= tail.take(k).push(digits@[i as int]));
        }
    }
    proof {
        assert(tail.take(tail.len() as int) =~= tail);
        assert(r@ =~= dec_seq(m as nat) + tail);
    }
    r
}

/// Render a signed integer in decimal, with a leading minus sign when
/// negative.
pub fn i64_to_dec(n: i64) -> (r: String)
    ensures
        r@ == dec_seq_signed(n as int),
{
    if n >= 0 {
        u64_to_dec(n as u64)
    } else {
        let magnitude: u64 = ((-(n as i128)) as u64);
        let mut r = String::new();
        crate::strutil::push_char(&mut r, '-');
        let digits = u64_to_dec(magnitude);
        r.append(digits.as_str());
        proof {
            assert(r@ =~= seq!['-'] + dec_seq(magnitude as nat));
        }
        r
    }
}

} // verus!
