//! The constant-product swap pricing model.
use vstd::prelude::*;
use vstd::arithmetic::div_mod::*;
use vstd::arithmetic::mul::*;
use crate::error::ArbitrageProgramError;

verus! {

/// The constant-product quote: the raw amount a venue pays out of its
/// `receive_reserve` when `pay_amount` is paid into its `pay_reserve`.
///
/// The quote is `floor(receive_reserve * pay_amount / (pay_reserve + pay_amount))`.
/// It comes from rescaling every raw quantity to its nominal value
/// (dividing by `10^decimals`), applying
/// `received = reserve_receive * pay / (reserve_pay + pay)` on the nominal
/// values, and scaling the result back by `10^receive_decimals`: evaluated
/// exactly, the decimal factors cancel, leaving the expression above.
pub open spec fn swap_quote(receive_reserve: int, pay_reserve: int, pay_amount: int) -> int {
    (receive_reserve * pay_amount) / (pay_reserve + pay_amount)
}

/// Predicts how much of an asset a venue will pay out for a proposed
/// payment, from the venue's current reserves of both assets and the two
/// assets' decimal scales.
///
/// All intermediate arithmetic is exact, carried out in 128 bits (the
/// product of two raw 64-bit quantities always fits), and the one
/// truncation happens at the end, as the nominal result is converted back
/// to raw units. Under exact evaluation the rescaling by `10^decimals`
/// cancels, so the decimal scales do not affect the result; they are kept
/// as part of the quoting interface, which hands each asset's scale along
/// with its reserve. The worst-case error against the real-valued formula
/// is therefore the final truncation alone: less than one raw unit.
///
/// The quote is undefined exactly when the pay-side reserve and the paid
/// amount are both zero; that degenerate case is reported as
/// `InsufficientLiquidity` rather than computed.
#[allow(unused_variables)]
pub fn predict_receive(
    pool_receive_reserve: u64,
    receive_decimals: u8,
    pool_pay_reserve: u64,
    pay_decimals: u8,
    pay_amount: u64,
) -> (r: Result<u64, ArbitrageProgramError>)
    ensures
        r is Ok <==> pool_pay_reserve + pay_amount > 0,
        r matches Ok(v) ==> v == swap_quote(
            pool_receive_reserve as int,
            pool_pay_reserve as int,
            pay_amount as int,
        ),
        r matches Ok(v) ==> v <= pool_receive_reserve,
        r is Err ==> r == Err::<u64, ArbitrageProgramError>(
            ArbitrageProgramError::InsufficientLiquidity,
        ),
{
    if pool_pay_reserve == 0 && pay_amount == 0 {
        return Err(ArbitrageProgramError::InsufficientLiquidity);
    }
    let rr = pool_receive_reserve as u128;
    let pay = pay_amount as u128;
    let den = (pool_pay_reserve as u128) + (pay_amount as u128);
    proof {
        lemma_mul_upper_bound(rr as int, u64::MAX as int, pay as int, u64::MAX as int);
    }
    let num = rr * pay;
    let q = num / den;
    proof {
        lemma_mul_inequality(pay as int, den as int, rr as int);
        lemma_mul_is_commutative(pay as int, rr as int);
        lemma_mul_is_commutative(den as int, rr as int);
        lemma_multiply_divide_le(num as int, den as int, rr as int);
    }
    Ok(q as u64)
}

/// The predicted receive amount never exceeds the receiving reserve, and
/// is never negative.
pub proof fn lemma_quote_within_reserve(receive_reserve: int, pay_reserve: int, pay_amount: int)
    requires
        0 <= receive_reserve,
        0 <= pay_reserve,
        0 <= pay_amount,
        pay_reserve + pay_amount > 0,
    ensures
        0 <= swap_quote(receive_reserve, pay_reserve, pay_amount) <= receive_reserve,
{
    let num = receive_reserve * pay_amount;
    let den = pay_reserve + pay_amount;
    lemma_mul_nonnegative(receive_reserve, pay_amount);
    lemma_div_pos_is_pos(num, den);
    lemma_mul_inequality(pay_amount, den, receive_reserve);
    lemma_mul_is_commutative(pay_amount, receive_reserve);
    lemma_mul_is_commutative(den, receive_reserve);
    lemma_multiply_divide_le(num, den, receive_reserve);
}

/// Paying nothing yields nothing, whatever the reserves and scales.
pub proof fn lemma_zero_pay_zero_receive(receive_reserve: int, pay_reserve: int)
    requires
        pay_reserve > 0,
    ensures
        swap_quote(receive_reserve, pay_reserve, 0) == 0,
{
    lemma_div_of0(pay_reserve);
}

/// For fixed reserves, paying more never yields less: the quote is
/// monotone in the paid amount.
pub proof fn lemma_quote_monotonic(
    receive_reserve: int,
    pay_reserve: int,
    pay_small: int,
    pay_large: int,
)
    requires
        0 <= receive_reserve,
        0 <= pay_reserve,
        0 <= pay_small <= pay_large,
        pay_reserve + pay_small > 0,
    ensures
        swap_quote(receive_reserve, pay_reserve, pay_small)
            <= swap_quote(receive_reserve, pay_reserve, pay_large),
{
    let a1 = receive_reserve * pay_small;
    let b1 = pay_reserve + pay_small;
    let a2 = receive_reserve * pay_large;
    let b2 = pay_reserve + pay_large;
    let q1 = a1 / b1;
    assert(a1 * b2 <= a2 * b1) by (nonlinear_arith)
        requires
            0 <= receive_reserve,
            0 <= pay_reserve,
            0 <= pay_small <= pay_large,
            a1 == receive_reserve * pay_small,
            a2 == receive_reserve * pay_large,
            b1 == pay_reserve + pay_small,
            b2 == pay_reserve + pay_large,
    ;
    lemma_mul_nonnegative(receive_reserve, pay_small);
    lemma_fundamental_div_mod(a1, b1);
    lemma_mod_bound(a1, b1);
    assert(q1 * b1 <= a1);
    assert(q1 * b2 * b1 <= a2 * b1) by (nonlinear_arith)
        requires
            q1 * b1 <= a1,
            a1 * b2 <= a2 * b1,
            0 < b1,
            0 < b2,
    ;
    assert(q1 * b2 <= a2) by (nonlinear_arith)
        requires
            q1 * b2 * b1 <= a2 * b1,
            0 < b1,
    ;
    lemma_div_is_ordered(q1 * b2, a2, b2);
    lemma_div_by_multiple(q1, b2);
}

} // verus!
