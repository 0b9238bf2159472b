//! Price conversion: from a native execution fee to its cost in the stable
//! asset, surcharge included.

use crate::error::{amount_value, PaymasterError};
use crate::uint::{modulus, U256};
use vstd::arithmetic::div_mod::lemma_div_is_ordered;
use vstd::arithmetic::mul::lemma_mul_inequality;
use vstd::prelude::*;

verus! {

/// The price reference is the stable-asset cost of this many native units.
pub const PRICE_SCALE: u64 = 1_000_000_000;

/// The number of basis points in the whole.
pub const BASIS_POINTS: u64 = 10_000;

/// The cost before surcharge: `native_fee * price_ref / PRICE_SCALE`,
/// rounded down.
pub open spec fn base_cost(native_fee: nat, price_ref: nat) -> nat {
    (native_fee * price_ref) / (PRICE_SCALE as nat)
}

/// The surcharge on `base`: `base * surcharge_bps / BASIS_POINTS`, rounded
/// down.
pub open spec fn surcharge_on(base: nat, surcharge_bps: nat) -> nat {
    (base * surcharge_bps) / (BASIS_POINTS as nat)
}

/// The full cost in the stable asset: the base cost plus its surcharge.
pub open spec fn stable_cost(native_fee: nat, price_ref: nat, surcharge_bps: nat) -> nat {
    base_cost(native_fee, price_ref) + surcharge_on(base_cost(native_fee, price_ref), surcharge_bps)
}

/// Whether every intermediate value of the conversion fits in 256 bits.
pub open spec fn conversion_fits(native_fee: nat, price_ref: nat, surcharge_bps: nat) -> bool {
    &&& native_fee * price_ref < modulus()
    &&& base_cost(native_fee, price_ref) * surcharge_bps < modulus()
    &&& stable_cost(native_fee, price_ref, surcharge_bps) < modulus()
}

/// What `convert` returns: the full cost where the conversion fits, and
/// `ArithmeticOverflow` where it does not.
pub open spec fn convert_outcome(native_fee: nat, price_ref: nat, surcharge_bps: nat) -> Result<
    nat,
    PaymasterError,
> {
    if conversion_fits(native_fee, price_ref, surcharge_bps) {
        Ok(stable_cost(native_fee, price_ref, surcharge_bps))
    } else {
        Err(PaymasterError::ArithmeticOverflow)
    }
}

/// Converts a native fee into its cost in the stable asset.
pub fn convert(native_fee: U256, price_ref: U256, surcharge_bps: U256) -> (r: Result<
    U256,
    PaymasterError,
>)
    ensures
        amount_value(r) == convert_outcome(native_fee@, price_ref@, surcharge_bps@),
{
    let scaled = match native_fee.checked_mul(price_ref) {
        Some(v) => v,
        None => { return Err(PaymasterError::ArithmeticOverflow); },
    };
    let base = match scaled.checked_div(U256::from_u64(PRICE_SCALE)) {
        Some(v) => v,
        None => { return Err(PaymasterError::ArithmeticOverflow); },
    };
    let marked_up = match base.checked_mul(surcharge_bps) {
        Some(v) => v,
        None => { return Err(PaymasterError::ArithmeticOverflow); },
    };
    let fee = match marked_up.checked_div(U256::from_u64(BASIS_POINTS)) {
        Some(v) => v,
        None => { return Err(PaymasterError::ArithmeticOverflow); },
    };
    match base.checked_add(fee) {
        Some(v) => Ok(v),
        None => Err(PaymasterError::ArithmeticOverflow),
    }
}

/// A fee of zero costs nothing, whatever the price and the surcharge.
pub proof fn lemma_convert_zero(price_ref: nat, surcharge_bps: nat)
    ensures
        stable_cost(0, price_ref, surcharge_bps) == 0,
        convert_outcome(0, price_ref, surcharge_bps) == Ok::<nat, PaymasterError>(0),
{
    assert(0 * price_ref == 0) by (nonlinear_arith);
    assert(0 * surcharge_bps == 0) by (nonlinear_arith);
}

/// The cost never decreases when the fee grows.
pub proof fn lemma_stable_cost_monotonic(fee_a: nat, fee_b: nat, price_ref: nat, surcharge_bps: nat)
    requires
        fee_a <= fee_b,
    ensures
        base_cost(fee_a, price_ref) <= base_cost(fee_b, price_ref),
        stable_cost(fee_a, price_ref, surcharge_bps) <= stable_cost(fee_b, price_ref, surcharge_bps),
{
    lemma_mul_inequality(fee_a as int, fee_b as int, price_ref as int);
    lemma_div_is_ordered(
        (fee_a * price_ref) as int,
        (fee_b * price_ref) as int,
        PRICE_SCALE as int,
    );
    let base_a = base_cost(fee_a, price_ref);
    let base_b = base_cost(fee_b, price_ref);
    lemma_mul_inequality(base_a as int, base_b as int, surcharge_bps as int);
    lemma_div_is_ordered(
        (base_a * surcharge_bps) as int,
        (base_b * surcharge_bps) as int,
        BASIS_POINTS as int,
    );
}

/// Where a fee converts without overflow, so does every smaller fee, to a
/// cost that is no larger.
pub proof fn lemma_convert_monotonic(fee_a: nat, fee_b: nat, price_ref: nat, surcharge_bps: nat)
    requires
        fee_a <= fee_b,
        convert_outcome(fee_b, price_ref, surcharge_bps) is Ok,
    ensures
        convert_outcome(fee_a, price_ref, surcharge_bps) is Ok,
        convert_outcome(fee_a, price_ref, surcharge_bps)->Ok_0 <= convert_outcome(
            fee_b,
            price_ref,
            surcharge_bps,
        )->Ok_0,
{
    lemma_stable_cost_monotonic(fee_a, fee_b, price_ref, surcharge_bps);
    lemma_mul_inequality(fee_a as int, fee_b as int, price_ref as int);
    lemma_mul_inequality(
        base_cost(fee_a, price_ref) as int,
        base_cost(fee_b, price_ref) as int,
        surcharge_bps as int,
    );
}

} // verus!
