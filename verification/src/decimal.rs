//! Decimal rendering of the integer parameters that appear inside escape
//! sequences, with a byte-exact specification.

use vstd::prelude::*;

verus! {

/// The decimal digits of `n` as ASCII bytes, most significant digit first.
pub open spec fn dec_digits(n: nat) -> Seq<u8>
    decreases n,
{
    if n < 10 {
        seq![(0x30 + n) as u8]
    } else {
        dec_digits(n / 10).push((0x30 + n % 10) as u8)
    }
}

/// A number always has at least one digit, and never more digits than its
/// own value plus one.
pub proof fn lemma_dec_digits_len(n: nat)
    ensures
        1 <= dec_digits(n).len() <= 1 + n,
    decreases n,
{
    if n >= 10 {
        lemma_dec_digits_len(n / 10);
    }
}

/// Appends the decimal representation of `n` to `target`.
pub fn push_decimal(target: &mut Vec<u8>, n: u64)
    ensures
        final(target)@ == old(target)@ + dec_digits(n as nat),
    decreases n,
{
    if n >= 10 {
        push_decimal(target, n / 10);
    }
    target.push(0x30 + (n % 10) as u8);
    proof {
        assert(target@ =~= old(target)@ + dec_digits(n as nat));
    }
}

/// The number of decimal digits of `n`.
pub fn decimal_len(n: u16) -> (r: usize)
    ensures
        r == dec_digits(n as nat).len(),
    decreases n,
{
    if n < 10 {
        1
    } else {
        let rest = decimal_len(n / 10);
        proof {
            lemma_dec_digits_len((n / 10) as nat);
        }
        1 + rest
    }
}

} // verus!
