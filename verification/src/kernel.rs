//! Arithmetic kernel: the exchange-rate calculation and the two admission
//! predicates. Pure integer functions with no state of their own.

use crate::error::CrowdSaleError;
use crate::state::CrowdSale;
use anchor_lang::solana_program::native_token::LAMPORTS_PER_SOL;
use vstd::prelude::*;

verus! {

/// One whole payment asset expressed in its smallest unit: the lamports in
/// one SOL.
pub const ONE_UNIT: u64 = 1_000_000_000;

/// Whole units of the sale asset that one whole payment asset buys at
/// `price`. The division discards the fraction.
pub open spec fn rate(price: nat) -> nat {
    ONE_UNIT as nat / price
}

/// Units of the sale asset issued for `amount` payment units at `price`:
/// the amount times the rate, the rate being computed first.
pub open spec fn reward(amount: nat, price: nat) -> nat {
    amount * rate(price)
}

/// The reward as the controller computes it: an error where the price is
/// zero or the product does not fit in 64 bits.
pub open spec fn reward_checked(amount: u64, price: u64) -> Result<u64, CrowdSaleError> {
    if price == 0 || reward(amount as nat, price as nat) > u64::MAX {
        Err(CrowdSaleError::ArithmeticOverflow)
    } else {
        Ok(reward(amount as nat, price as nat) as u64)
    }
}

/// `min <= amount <= max`.
pub open spec fn in_range(amount: nat, min: nat, max: nat) -> bool {
    min <= amount <= max
}

/// `start <= now <= end`.
pub open spec fn is_open(now: nat, start: nat, end: nat) -> bool {
    start <= now <= end
}

/// Reads `solana_program::native_token::LAMPORTS_PER_SOL`, which
/// `anchor_lang` hands on: the number of lamports in one SOL. The contract
/// claims that this constant is 10^9, which nothing here proves.
#[verifier::external_body]
fn lamports_per_sol() -> (units: u64)
    ensures
        units == ONE_UNIT,
{
    LAMPORTS_PER_SOL
}

/// The units of the sale asset issued for `amount` payment units at the
/// price of the sale.
pub fn calculate_reward_amount(crowdsale_account: &CrowdSale, amount: u64) -> (res: Result<
    u64,
    CrowdSaleError,
>)
    ensures
        res == reward_checked(amount, crowdsale_account.price),
{
    let sol_per_token = match lamports_per_sol().checked_div(crowdsale_account.price) {
        Some(units) => units,
        None => {
            return Err(CrowdSaleError::ArithmeticOverflow);
        },
    };
    match amount.checked_mul(sol_per_token) {
        Some(units) => Ok(units),
        None => Err(CrowdSaleError::ArithmeticOverflow),
    }
}

/// Whether the sale is open at `now`, both ends of the window included.
pub fn is_sale_active(crowdsale_account: &CrowdSale, now: u64) -> (res: Result<
    bool,
    CrowdSaleError,
>)
    ensures
        res == Ok::<bool, CrowdSaleError>(
            is_open(now as nat, crowdsale_account.start as nat, crowdsale_account.end as nat),
        ),
{
    Ok(crowdsale_account.start <= now && now <= crowdsale_account.end)
}

/// Whether `amount` lies in the price range of the sale, both ends included.
pub fn is_price_valid(crowdsale_account: &CrowdSale, amount: u64) -> (valid: bool)
    ensures
        valid == in_range(
            amount as nat,
            crowdsale_account.min_price as nat,
            crowdsale_account.max_price as nat,
        ),
{
    crowdsale_account.min_price <= amount && amount <= crowdsale_account.max_price
}

/// The reward never stands for more payment than was made: at any price
/// above zero, `reward * price <= amount * ONE_UNIT`.
pub proof fn lemma_reward_is_paid_for(amount: nat, price: nat)
    requires
        price > 0,
    ensures
        reward(amount, price) * price <= amount * ONE_UNIT,
{
    let one = ONE_UNIT as nat;
    assert((one / price) * price <= one) by (nonlinear_arith)
        requires
            price > 0,
    ;
    assert(amount * (one / price) * price <= amount * one) by (nonlinear_arith)
        requires
            (one / price) * price <= one,
    ;
}

/// The rate law. Where the price divides `ONE_UNIT`, the reward is the
/// largest number of sale units that the payment covers:
/// `reward * price <= amount * ONE_UNIT < (reward + 1) * price`.
pub proof fn lemma_rate_law(amount: nat, price: nat)
    requires
        price > 0,
        ONE_UNIT as nat % price == 0,
    ensures
        reward(amount, price) * price <= amount * ONE_UNIT < (reward(amount, price) + 1) * price,
{
    let one = ONE_UNIT as nat;
    assert((one / price) * price == one) by (nonlinear_arith)
        requires
            price > 0,
            one % price == 0,
    ;
    assert(amount * (one / price) * price == amount * one) by (nonlinear_arith)
        requires
            (one / price) * price == one,
    ;
    assert((amount * (one / price) + 1) * price == amount * (one / price) * price + price)
        by (nonlinear_arith);
}

} // verus!
