//! Small arithmetic notions shared by the clock, SPI and timer
//! derivations: rounding division upward, the binary width of a number,
//! and the next power of two.

use vstd::arithmetic::power2::pow2;
use vstd::prelude::*;

verus! {

/// Division rounding up: the least `k` with `k * b >= a` (for positive `b`).
pub open spec fn div_round_up(a: int, b: int) -> int {
    a / b + if a % b == 0 {
        0int
    } else {
        1int
    }
}

/// The number of binary digits of `n`: zero for zero, and one more for
/// each halving until zero is reached.
pub open spec fn bit_width(n: nat) -> nat
    decreases n,
{
    if n == 0 {
        0
    } else {
        (bit_width(n / 2) + 1) as nat
    }
}

/// The least power of two at or above `n`, for positive `n`: two to the
/// number of binary digits of `n - 1`.
pub open spec fn next_power_of_two(n: nat) -> nat {
    pow2(bit_width((n - 1) as nat))
}

/// Rounding a division up reaches the dividend: the rounded quotient
/// times the divisor is at least the dividend.
pub proof fn lemma_div_round_up_reaches(a: int, b: int)
    requires
        a >= 0,
        b >= 1,
    ensures
        div_round_up(a, b) * b >= a,
{
    vstd::arithmetic::div_mod::lemma_fundamental_div_mod(a, b);
    vstd::arithmetic::div_mod::lemma_mod_division_less_than_divisor(a, b);
    assert((a / b + 1) * b == a / b * b + b) by (nonlinear_arith);
    assert(a / b * b == b * (a / b)) by (nonlinear_arith);
}

/// `bit_width` is exactly the exponent range a number occupies: `n` is
/// below two to its width, and (for positive `n`) at least two to one
/// less than its width.
pub proof fn lemma_bit_width_bounds(n: nat)
    ensures
        n < pow2(bit_width(n)),
        n >= 1 ==> pow2((bit_width(n) - 1) as nat) <= n,
    decreases n,
{
    vstd::arithmetic::power2::lemma2_to64();
    if n >= 1 {
        lemma_bit_width_bounds(n / 2);
        vstd::arithmetic::power2::lemma_pow2_unfold(bit_width(n));
        if n >= 2 {
            vstd::arithmetic::power2::lemma_pow2_unfold(bit_width(n / 2));
        }
    }
}

/// A power of two sitting in the half-open interval from `n` up to `2 n`
/// is the next power of two of `n`: the interval holds exactly one.
pub proof fn lemma_next_power_of_two_unique(n: nat, k: nat)
    requires
        n >= 1,
        n <= pow2(k),
        k >= 1 ==> pow2((k - 1) as nat) < n,
    ensures
        pow2(k) == next_power_of_two(n),
        k == bit_width((n - 1) as nat),
{
    let w = bit_width((n - 1) as nat);
    lemma_bit_width_bounds((n - 1) as nat);
    if w < k {
        vstd::arithmetic::power2::lemma_pow2_strictly_increases(w, k);
        if k >= 1 && w < (k - 1) as nat {
            vstd::arithmetic::power2::lemma_pow2_strictly_increases(w, (k - 1) as nat);
        }
        assert(false);
    }
    if w > k {
        vstd::arithmetic::power2::lemma_pow2_strictly_increases(k, w);
        if (w - 1) as nat > k {
            vstd::arithmetic::power2::lemma_pow2_strictly_increases(k, (w - 1) as nat);
        }
        assert(false);
    }
}

} // verus!
