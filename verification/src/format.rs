//! Decimal rendering of unsigned integers.
use vstd::prelude::*;

use crate::text::string_push;

verus! {

/// The character of the decimal digit `d` (`d < 10`).
pub open spec fn digit_char(d: nat) -> char {
    if d == 0 { '0' }
    else if d == 1 { '1' }
    else if d == 2 { '2' }
    else if d == 3 { '3' }
    else if d == 4 { '4' }
    else if d == 5 { '5' }
    else if d == 6 { '6' }
    else if d == 7 { '7' }
    else if d == 8 { '8' }
    else { '9' }
}

/// `n` written in decimal, without leading zeros (`0` for zero).
pub open spec fn decimal(n: nat) -> Seq<char>
    decreases n,
{
    if n < 10 {
        seq![digit_char(n)]
    } else {
        decimal(n / 10).push(digit_char(n % 10))
    }
}

fn digit_of(d: u64) -> (c: char)
    requires
        d < 10,
    ensures
        c == digit_char(d as nat),
{
    if d == 0 { '0' }
    else if d == 1 { '1' }
    else if d == 2 { '2' }
    else if d == 3 { '3' }
    else if d == 4 { '4' }
    else if d == 5 { '5' }
    else if d == 6 { '6' }
    else if d == 7 { '7' }
    else if d == 8 { '8' }
    else { '9' }
}

/// The decimal digits of `n`, least significant first.
spec fn reversed_digits(n: nat) -> Seq<char>
    decreases n,
{
    if n < 10 {
        seq![digit_char(n)]
    } else {
        seq![digit_char(n % 10)] + reversed_digits(n / 10)
    }
}

proof fn lemma_reversed_digits(n: nat)
    ensures
        reversed_digits(n) =~= decimal(n).reverse(),
    decreases n,
{
    if n >= 10 {
        lemma_reversed_digits(n / 10);
        assert(decimal(n).reverse() =~= seq![digit_char(n % 10)] + decimal(n / 10).reverse());
    }
}

/// `n` in decimal.
pub fn u64_decimal(n: u64) -> (r: String)
    ensures
        r@ == decimal(n as nat),
{
    // Collect the digits from the least significant one.
    let mut digits: Vec<char> = Vec::new();
    let mut m: u64 = n;
    loop
        invariant_except_break
            m <= n,
            digits@ + reversed_digits(m as nat) == reversed_digits(n as nat),
        ensures
            digits@ == reversed_digits(n as nat),
        decreases m,
    {
        let d = digit_of(m % 10);
        if m < 10 {
            digits.push(d);
            assert(digits@ =~= reversed_digits(n as nat)) by {
                assert(reversed_digits(m as nat) =~= seq![d]);
            }
            break;
        }
        proof {
            assert(reversed_digits(m as nat) =~= seq![d] + reversed_digits((m / 10) as nat));
            assert(digits@.push(d) + reversed_digits((m / 10) as nat) =~= digits@ + reversed_digits(
                m as nat,
            ));
        }
        digits.push(d);
        m = m / 10;
    }
    proof {
        lemma_reversed_digits(n as nat);
    }
    let mut r = String::new();
    let mut i: usize = digits.len();
    let ghost all = digits@;
    while i > 0
        invariant
            all == digits@,
            all =~= decimal(n as nat).reverse(),
            i <= all.len(),
            r@ =~= decimal(n as nat).subrange(0, all.len() - i),
        decreases i,
    {
        i = i - 1;
        let c = digits[i];
        proof {
            assert(c == decimal(n as nat)[all.len() - 1 - i]);
        }
        string_push(&mut r, c);
        assert(r@ =~= decimal(n as nat).subrange(0, all.len() - i));
    }
    r
}

/// `n` in decimal.
pub fn usize_decimal(n: usize) -> (r: String)
    ensures
        r@ == decimal(n as nat),
{
    u64_decimal(n as u64)
}

} // verus!
