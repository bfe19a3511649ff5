//! Fixed-point decimal scaling between human-facing amounts and base units.

use vstd::prelude::*;

use crate::error::TreasuryBondsError;

verus! {

/// Ten to the power `e`.
pub open spec fn pow10(e: nat) -> nat
    decreases e,
{
    if e == 0 {
        1
    } else {
        10 * pow10((e - 1) as nat)
    }
}

/// Ten to any power is positive.
pub proof fn lemma_pow10_pos(e: nat)
    ensures
        pow10(e) >= 1,
    decreases e,
{
    if e > 0 {
        lemma_pow10_pos((e - 1) as nat);
    }
}

/// Powers of ten grow with the exponent.
pub proof fn lemma_pow10_increases(e1: nat, e2: nat)
    requires
        e1 <= e2,
    ensures
        pow10(e1) <= pow10(e2),
    decreases e2,
{
    if e1 < e2 {
        lemma_pow10_increases(e1, (e2 - 1) as nat);
        lemma_pow10_pos((e2 - 1) as nat);
    }
}

/// Ten to the power `exp`, or `None` where the power exceeds `u32::MAX`.
fn pow10_u32(exp: u8) -> (r: Option<u32>)
    ensures
        r is Some <==> pow10(exp as nat) <= u32::MAX,
        r is Some ==> r->0 == pow10(exp as nat),
{
    let mut acc: u32 = 1;
    let mut k: u8 = 0;
    while k < exp
        invariant
            k <= exp,
            acc == pow10(k as nat),
        decreases exp - k,
    {
        if acc > u32::MAX / 10 {
            proof {
                lemma_pow10_increases((k + 1) as nat, exp as nat);
            }
            return None;
        }
        acc = acc * 10;
        k = k + 1;
    }
    Some(acc)
}

/// Scales a human-facing `amount` to base units, the smallest indivisible
/// quantity of the value-bearing unit: `amount * 10^decimals`.  Fails with
/// an arithmetic error exactly where `10^decimals` exceeds `u32::MAX`; the
/// product itself always fits in a `u64`.
pub fn scale_to_base_units(amount: u32, decimals: u8) -> (r: Result<
    u64,
    TreasuryBondsError,
>)
    ensures
        r is Ok <==> pow10(decimals as nat) <= u32::MAX,
        r is Ok ==> r->Ok_0 == amount * pow10(decimals as nat),
        r is Err ==> r->Err_0 == TreasuryBondsError::InvalidArithmeticOperation,
{
    match pow10_u32(decimals) {
        Some(power) => {
            proof {
                assert(amount * power <= u32::MAX * u32::MAX) by (nonlinear_arith)
                    requires
                        amount <= u32::MAX,
                        power <= u32::MAX,
                        amount >= 0,
                        power >= 0,
                ;
            }
            Ok((amount as u64) * (power as u64))
        },
        None => Err(TreasuryBondsError::InvalidArithmeticOperation),
    }
}

/// Decimal scaling round-trip: dividing the base units of any scaled amount
/// by the same power of ten recovers the amount exactly.
pub proof fn lemma_scale_round_trip(amount: u32, decimals: u8)
    ensures
        (amount * pow10(decimals as nat)) as int / pow10(decimals as nat) as int
            == amount as int,
{
    lemma_pow10_pos(decimals as nat);
    vstd::arithmetic::div_mod::lemma_div_by_multiple(
        amount as int,
        pow10(decimals as nat) as int,
    );
}

} // verus!
