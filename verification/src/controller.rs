//! The controller: the six operations of a sale. Each one checks its
//! preconditions in a fixed order, and either commits its whole effect on
//! the records or returns an error and changes nothing.
//!
//! The controller decides and records. Where an operation calls for a
//! movement that only a custody holder can make (a payment by a buyer, or
//! sale asset into or out of the vault), it says how many units are to be
//! moved, and its caller has them moved before the records are persisted.
//! The escrow is the balance of the record itself: `withdraw` takes that
//! balance and the caller's, and leaves both as they stand after the payment.

use crate::error::CrowdSaleError;
use crate::kernel::{
    calculate_reward_amount, in_range, is_price_valid, is_sale_active, reward, reward_checked,
};
use crate::principal::Principal;
use crate::state::{CrowdSale, UserInfo};
use vstd::prelude::*;

verus! {

/// What `create_crowdsale` works on: the newly allocated record and the
/// principal who pays for it.
#[derive(Clone, Copy, Debug, PartialEq, Eq)]
pub struct CreateCrowdsale {
    pub crowdsale_account: CrowdSale,
    pub payer: Principal,
}

/// What `setting_crowdsale` works on: the record and the caller.
#[derive(Clone, Copy, Debug, PartialEq, Eq)]
pub struct SettingCrowdsale {
    pub crowdsale_account: CrowdSale,
    pub payer: Principal,
}

/// What `deposite_token` and `end_sales` work on: the record and the caller.
#[derive(Clone, Copy, Debug, PartialEq, Eq)]
pub struct TokenSale {
    pub crowdsale_account: CrowdSale,
    pub payer: Principal,
}

/// What `buy_token` works on: the record of the sale, the ledger of the
/// buyer, and the buyer.
#[derive(Clone, Copy, Debug, PartialEq, Eq)]
pub struct BuyToken {
    pub crowdsale_account: CrowdSale,
    pub user_info_account: UserInfo,
    pub payer: Principal,
}

/// What `withdraw` works on: the record with the payment units that it holds
/// in escrow, and the caller with the payment units that the caller holds.
#[derive(Clone, Copy, Debug, PartialEq, Eq)]
pub struct Withdraw {
    pub crowdsale_account: CrowdSale,
    pub crowdsale_lamports: u64,
    pub payer: Principal,
    pub payer_lamports: u64,
}

impl CrowdSale {
    /// The record with the five settings of `setting_crowdsale` written.
    pub open spec fn with_settings(
        self,
        min_price: u64,
        max_price: u64,
        start: u64,
        end: u64,
        price: u64,
    ) -> CrowdSale {
        CrowdSale { min_price, max_price, start, end, price, ..self }
    }

    /// The record after `units` more were deposited.
    pub open spec fn with_deposit(self, units: u64) -> CrowdSale {
        CrowdSale { supply: (self.supply + units) as u64, ..self }
    }

    /// The record after `units` more were issued to a buyer.
    pub open spec fn with_sale(self, units: u64) -> CrowdSale {
        CrowdSale { sold_amount: (self.sold_amount + units) as u64, ..self }
    }

    /// The record after the unsold inventory was swept: all of the supply
    /// counts as sold.
    pub open spec fn finalized(self) -> CrowdSale {
        CrowdSale { sold_amount: self.supply, ..self }
    }
}

impl UserInfo {
    /// The ledger after a purchase of `units` for `amount`.
    pub open spec fn with_purchase(self, amount: u64, units: u64) -> UserInfo {
        UserInfo {
            bought_amount: (self.bought_amount + units) as u64,
            sol_amount: (self.sol_amount + amount) as u64,
        }
    }
}

/// Whether `setting_crowdsale` accepts, and the error if it does not. The
/// checks run in this order.
pub open spec fn configure_verdict(
    sale: CrowdSale,
    caller: Principal,
    min_price: u64,
    max_price: u64,
    start: u64,
    end: u64,
    price: u64,
    now: u64,
) -> Result<(), CrowdSaleError> {
    if caller != sale.authority {
        Err(CrowdSaleError::Unauthorized)
    } else if start <= now {
        Err(CrowdSaleError::InvalidStartTime)
    } else if end <= start {
        Err(CrowdSaleError::InvalidEndTime)
    } else if max_price < min_price || price == 0 {
        Err(CrowdSaleError::InvalidPriceRange)
    } else {
        Ok(())
    }
}

/// Whether `deposite_token` accepts, and the error if it does not.
pub open spec fn deposit_verdict(sale: CrowdSale, caller: Principal, units: u64) -> Result<
    (),
    CrowdSaleError,
> {
    if caller != sale.authority {
        Err(CrowdSaleError::Unauthorized)
    } else if sale.supply + units > u64::MAX {
        Err(CrowdSaleError::ArithmeticOverflow)
    } else {
        Ok(())
    }
}

/// Whether `buy_token` accepts, with the units that it issues if it does
/// and the error if it does not. The checks run in this order, and each
/// comparison is one of mathematical integers.
pub open spec fn buy_verdict(
    sale: CrowdSale,
    ledger: UserInfo,
    authority: Principal,
    amount: u64,
    now: u64,
) -> Result<u64, CrowdSaleError> {
    if now < sale.start {
        Err(CrowdSaleError::SaleNotStart)
    } else if now > sale.end {
        Err(CrowdSaleError::SaleEnded)
    } else if !in_range(amount as nat, sale.min_price as nat, sale.max_price as nat) {
        Err(CrowdSaleError::InvalidPrice)
    } else if sale.authority != authority {
        Err(CrowdSaleError::Unauthorized)
    } else if ledger.sol_amount + amount > sale.max_price {
        Err(CrowdSaleError::InvalidMaximumCanBuy)
    } else {
        match reward_checked(amount, sale.price) {
            Err(e) => Err(e),
            Ok(units) => if sale.sold_amount + units > sale.supply {
                Err(CrowdSaleError::ExceedsSupply)
            } else if ledger.bought_amount + units > u64::MAX {
                Err(CrowdSaleError::ArithmeticOverflow)
            } else {
                Ok(units)
            },
        }
    }
}

/// Whether `withdraw` accepts, and the error if it does not. The checks run
/// in this order.
pub open spec fn withdraw_verdict(
    sale: CrowdSale,
    caller: Principal,
    escrow: u64,
    caller_balance: u64,
    units: u64,
) -> Result<(), CrowdSaleError> {
    if caller != sale.authority {
        Err(CrowdSaleError::Unauthorized)
    } else if units > escrow {
        Err(CrowdSaleError::InsufficientEscrow)
    } else if caller_balance + units > u64::MAX {
        Err(CrowdSaleError::ArithmeticOverflow)
    } else {
        Ok(())
    }
}

/// Whether `end_sales` accepts, with the unsold units that it sweeps if it
/// does and the error if it does not. The checks run in this order.
pub open spec fn finalize_verdict(sale: CrowdSale, caller: Principal, now: u64) -> Result<
    u64,
    CrowdSaleError,
> {
    if caller != sale.authority {
        Err(CrowdSaleError::Unauthorized)
    } else if now < sale.end {
        Err(CrowdSaleError::SaleNotEnded)
    } else if sale.sold_amount > sale.supply {
        Err(CrowdSaleError::ArithmeticOverflow)
    } else {
        Ok((sale.supply - sale.sold_amount) as u64)
    }
}

/// Creates the sale: the record names the payer as its authority, and every
/// number in it is zero.
pub fn create_crowdsale(ctx: &mut CreateCrowdsale) -> (res: Result<(), CrowdSaleError>)
    ensures
        res is Ok,
        final(ctx).crowdsale_account == CrowdSale::created(old(ctx).payer),
        final(ctx).payer == old(ctx).payer,
        final(ctx).crowdsale_account.wf(),
{
    ctx.crowdsale_account = CrowdSale::new(ctx.payer);
    Ok(())
}

/// Configures the sale: writes the price range, the window and the price.
/// Only the authority may do so, the window has to open after `now` and
/// close after it opens, the range may not be empty, and the price may not
/// be zero.
pub fn setting_crowdsale(
    ctx: &mut SettingCrowdsale,
    min_price: u64,
    max_price: u64,
    start: u64,
    end: u64,
    price: u64,
    now: u64,
) -> (res: Result<(), CrowdSaleError>)
    ensures
        res == configure_verdict(
            old(ctx).crowdsale_account,
            old(ctx).payer,
            min_price,
            max_price,
            start,
            end,
            price,
            now,
        ),
        res is Ok ==> final(ctx).crowdsale_account == old(ctx).crowdsale_account.with_settings(
            min_price,
            max_price,
            start,
            end,
            price,
        ),
        res is Err ==> final(ctx).crowdsale_account == old(ctx).crowdsale_account,
        final(ctx).payer == old(ctx).payer,
        old(ctx).crowdsale_account.wf() ==> final(ctx).crowdsale_account.wf(),
{
    if ctx.payer != ctx.crowdsale_account.authority {
        return Err(CrowdSaleError::Unauthorized);
    }
    if start <= now {
        return Err(CrowdSaleError::InvalidStartTime);
    }
    if end <= start {
        return Err(CrowdSaleError::InvalidEndTime);
    }
    if max_price < min_price || price == 0 {
        return Err(CrowdSaleError::InvalidPriceRange);
    }
    ctx.crowdsale_account.start = start;
    ctx.crowdsale_account.end = end;
    ctx.crowdsale_account.min_price = min_price;
    ctx.crowdsale_account.max_price = max_price;
    ctx.crowdsale_account.price = price;
    Ok(())
}

/// Records a deposit of `amount` units of the sale asset by the authority.
/// On `Ok` the caller has `amount` units moved from the authority's holder
/// into the vault.
pub fn deposite_token(ctx: &mut TokenSale, amount: u64) -> (res: Result<(), CrowdSaleError>)
    ensures
        res == deposit_verdict(old(ctx).crowdsale_account, old(ctx).payer, amount),
        res is Ok ==> {
            &&& final(ctx).crowdsale_account == old(ctx).crowdsale_account.with_deposit(amount)
            &&& final(ctx).crowdsale_account.supply == old(ctx).crowdsale_account.supply + amount
        },
        res is Err ==> final(ctx).crowdsale_account == old(ctx).crowdsale_account,
        final(ctx).payer == old(ctx).payer,
        old(ctx).crowdsale_account.wf() ==> final(ctx).crowdsale_account.wf(),
{
    if ctx.payer != ctx.crowdsale_account.authority {
        return Err(CrowdSaleError::Unauthorized);
    }
    match ctx.crowdsale_account.supply.checked_add(amount) {
        Some(supply) => {
            ctx.crowdsale_account.supply = supply;
            Ok(())
        },
        None => Err(CrowdSaleError::ArithmeticOverflow),
    }
}

/// Sells to the buyer of `ctx` for `amount` payment units, from the sale of
/// `authority`. A buyer who has no ledger yet comes with an empty one. On
/// `Ok(units)` the caller has `amount` payment units moved from the buyer
/// into the escrow of the sale, and `units` of the sale asset moved from the
/// vault to the buyer's holder.
pub fn buy_token(ctx: &mut BuyToken, authority: Principal, amount: u64, now: u64) -> (res: Result<
    u64,
    CrowdSaleError,
>)
    ensures
        res == buy_verdict(
            old(ctx).crowdsale_account,
            old(ctx).user_info_account,
            authority,
            amount,
            now,
        ),
        res matches Ok(units) ==> {
            &&& final(ctx).crowdsale_account == old(ctx).crowdsale_account.with_sale(units)
            &&& final(ctx).user_info_account == old(ctx).user_info_account.with_purchase(
                amount,
                units,
            )
            &&& units == reward(amount as nat, old(ctx).crowdsale_account.price as nat)
            &&& final(ctx).crowdsale_account.sold_amount == old(ctx).crowdsale_account.sold_amount
                + units
            &&& final(ctx).user_info_account.sol_amount == old(ctx).user_info_account.sol_amount
                + amount
            &&& final(ctx).user_info_account.bought_amount
                == old(ctx).user_info_account.bought_amount + units
            &&& final(ctx).crowdsale_account.sold_amount <= final(ctx).crowdsale_account.supply
            &&& final(ctx).user_info_account.sol_amount <= final(ctx).crowdsale_account.max_price
        },
        res is Err ==> {
            &&& final(ctx).crowdsale_account == old(ctx).crowdsale_account
            &&& final(ctx).user_info_account == old(ctx).user_info_account
        },
        final(ctx).payer == old(ctx).payer,
        old(ctx).crowdsale_account.wf() ==> final(ctx).crowdsale_account.wf(),
{
    let active = match is_sale_active(&ctx.crowdsale_account, now) {
        Ok(active) => active,
        Err(e) => {
            return Err(e);
        },
    };
    if !active {
        if now < ctx.crowdsale_account.start {
            return Err(CrowdSaleError::SaleNotStart);
        }
        return Err(CrowdSaleError::SaleEnded);
    }
    if !is_price_valid(&ctx.crowdsale_account, amount) {
        return Err(CrowdSaleError::InvalidPrice);
    }
    if ctx.crowdsale_account.authority != authority {
        return Err(CrowdSaleError::Unauthorized);
    }
    let paid = match ctx.user_info_account.sol_amount.checked_add(amount) {
        Some(paid) => paid,
        None => {
            return Err(CrowdSaleError::InvalidMaximumCanBuy);
        },
    };
    if paid > ctx.crowdsale_account.max_price {
        return Err(CrowdSaleError::InvalidMaximumCanBuy);
    }
    let reward_amount = match calculate_reward_amount(&ctx.crowdsale_account, amount) {
        Ok(units) => units,
        Err(e) => {
            return Err(e);
        },
    };
    let sold = match ctx.crowdsale_account.sold_amount.checked_add(reward_amount) {
        Some(sold) => sold,
        None => {
            return Err(CrowdSaleError::ExceedsSupply);
        },
    };
    if sold > ctx.crowdsale_account.supply {
        return Err(CrowdSaleError::ExceedsSupply);
    }
    let bought = match ctx.user_info_account.bought_amount.checked_add(reward_amount) {
        Some(bought) => bought,
        None => {
            return Err(CrowdSaleError::ArithmeticOverflow);
        },
    };
    ctx.crowdsale_account.sold_amount = sold;
    ctx.user_info_account.sol_amount = paid;
    ctx.user_info_account.bought_amount = bought;
    Ok(reward_amount)
}

/// Pays `amount` payment units out of the escrow of the sale to the
/// authority. No field of the record changes: the escrow is the balance of
/// the record itself.
pub fn withdraw(ctx: &mut Withdraw, amount: u64) -> (res: Result<(), CrowdSaleError>)
    ensures
        res == withdraw_verdict(
            old(ctx).crowdsale_account,
            old(ctx).payer,
            old(ctx).crowdsale_lamports,
            old(ctx).payer_lamports,
            amount,
        ),
        res is Ok ==> {
            &&& final(ctx).crowdsale_lamports == old(ctx).crowdsale_lamports - amount
            &&& final(ctx).payer_lamports == old(ctx).payer_lamports + amount
        },
        res is Err ==> {
            &&& final(ctx).crowdsale_lamports == old(ctx).crowdsale_lamports
            &&& final(ctx).payer_lamports == old(ctx).payer_lamports
        },
        final(ctx).crowdsale_account == old(ctx).crowdsale_account,
        final(ctx).payer == old(ctx).payer,
{
    if ctx.payer != ctx.crowdsale_account.authority {
        return Err(CrowdSaleError::Unauthorized);
    }
    let escrow = match ctx.crowdsale_lamports.checked_sub(amount) {
        Some(escrow) => escrow,
        None => {
            return Err(CrowdSaleError::InsufficientEscrow);
        },
    };
    let balance = match ctx.payer_lamports.checked_add(amount) {
        Some(balance) => balance,
        None => {
            return Err(CrowdSaleError::ArithmeticOverflow);
        },
    };
    ctx.crowdsale_lamports = escrow;
    ctx.payer_lamports = balance;
    Ok(())
}

/// Finalizes the sale once it has ended: all of the supply counts as sold
/// from then on. On `Ok(units)` the caller has the `units` that were left
/// unsold moved from the vault to the authority's holder.
pub fn end_sales(ctx: &mut TokenSale, now: u64) -> (res: Result<u64, CrowdSaleError>)
    ensures
        res == finalize_verdict(old(ctx).crowdsale_account, old(ctx).payer, now),
        res matches Ok(units) ==> {
            &&& final(ctx).crowdsale_account == old(ctx).crowdsale_account.finalized()
            &&& units == old(ctx).crowdsale_account.supply - old(ctx).crowdsale_account.sold_amount
            &&& final(ctx).crowdsale_account.sold_amount == final(ctx).crowdsale_account.supply
        },
        res is Err ==> final(ctx).crowdsale_account == old(ctx).crowdsale_account,
        final(ctx).payer == old(ctx).payer,
        old(ctx).crowdsale_account.wf() ==> final(ctx).crowdsale_account.wf(),
{
    if ctx.payer != ctx.crowdsale_account.authority {
        return Err(CrowdSaleError::Unauthorized);
    }
    if ctx.crowdsale_account.end > now {
        return Err(CrowdSaleError::SaleNotEnded);
    }
    let amount = match ctx.crowdsale_account.supply.checked_sub(ctx.crowdsale_account.sold_amount) {
        Some(amount) => amount,
        None => {
            return Err(CrowdSaleError::ArithmeticOverflow);
        },
    };
    ctx.crowdsale_account.sold_amount = ctx.crowdsale_account.supply;
    Ok(amount)
}

} // verus!
