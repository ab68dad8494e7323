//! Powers of ten for moving fixed-point amounts between decimal precisions.
use vstd::prelude::*;

verus! {

/// Ten to the `e`-th power.
pub open spec fn pow10(e: nat) -> int
    decreases e,
{
    if e == 0 {
        1
    } else {
        10 * pow10((e - 1) as nat)
    }
}

/// A power of ten is at least one.
pub proof fn lemma_pow10_pos(e: nat)
    ensures
        pow10(e) >= 1,
    decreases e,
{
    if e > 0 {
        lemma_pow10_pos((e - 1) as nat);
    }
}

/// Powers of ten grow with the exponent.
pub proof fn lemma_pow10_mono(a: nat, b: nat)
    requires
        a <= b,
    ensures
        pow10(a) <= pow10(b),
    decreases b - a,
{
    if a < b {
        lemma_pow10_mono(a, (b - 1) as nat);
        lemma_pow10_pos((b - 1) as nat);
    }
}

/// The concrete values of the powers the conversions lean on.
pub proof fn lemma_pow10_values()
    ensures
        pow10(6) == 1_000_000,
        pow10(12) == 1_000_000_000_000,
        pow10(18) == 1_000_000_000_000_000_000,
        pow10(24) == 1_000_000_000_000_000_000_000_000,
        pow10(36) == 1_000_000_000_000_000_000_000_000_000_000_000_000,
{
    reveal_with_fuel(pow10, 37);
}

/// Ten to the `e`-th power, computed.
pub fn pow10_u128(e: u8) -> (r: u128)
    requires
        e <= 36,
    ensures
        r == pow10(e as nat),
        r >= 1,
{
    proof {
        lemma_pow10_pos(e as nat);
    }
    let mut r: u128 = 1;
    let mut i: u8 = 0;
    while i < e
        invariant
            i <= e,
            e <= 36,
            r == pow10(i as nat),
        decreases e - i,
    {
        proof {
            lemma_pow10_mono((i + 1) as nat, 36nat);
            lemma_pow10_values();
        }
        r = r * 10;
        i = i + 1;
    }
    r
}

} // verus!
