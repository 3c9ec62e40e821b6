//! The sale as a whole: its record, the ledgers of all its buyers, and the
//! two balances that the custody holder keeps for it. This is the model in
//! which the accounting of the sale is stated and proved; no executable
//! code holds it.
//!
//! A step of the market is one operation of the controller together with
//! the movements that it calls for. Custody either moves exactly what was
//! asked or fails, and a failure anywhere leaves the market as it was.

use crate::controller::{
    buy_verdict, configure_verdict, deposit_verdict, finalize_verdict, withdraw_verdict,
};
use crate::error::CrowdSaleError;
use crate::kernel::{rate, reward, ONE_UNIT};
use crate::principal::Principal;
use crate::state::{CrowdSale, UserInfo};
use crate::tally::{lemma_total_after_write, lemma_total_of_nothing, total};
use vstd::prelude::*;

verus! {

/// One sale with everything that belongs to it.
pub struct Market {
    /// The record of the sale.
    pub sale: CrowdSale,
    /// The ledger of every buyer who has bought.
    pub ledgers: Map<Principal, UserInfo>,
    /// Payment units that the record holds in escrow.
    pub escrow: u64,
    /// Units of the sale asset in the vault.
    pub vault: u64,
    /// Payment units that purchases have brought in so far.
    pub paid_in: nat,
    /// Payment units that the authority has withdrawn so far.
    pub withdrawn: nat,
    /// Unsold units that were handed back to the authority so far.
    pub swept: nat,
}

/// A call of one of the operations that work on an existing sale, with the
/// caller and the arguments. A withdrawal comes with the payment units that
/// the caller holds.
pub enum Operation {
    Configure { caller: Principal, min_price: u64, max_price: u64, start: u64, end: u64, price: u64 },
    Deposit { caller: Principal, units: u64 },
    Buy { buyer: Principal, authority: Principal, amount: u64 },
    Withdraw { caller: Principal, caller_balance: u64, units: u64 },
    Finalize { caller: Principal },
}

impl Operation {
    /// The principal who makes the call.
    pub open spec fn caller(self) -> Principal {
        match self {
            Operation::Configure { caller, .. } => caller,
            Operation::Deposit { caller, .. } => caller,
            Operation::Buy { buyer, .. } => buyer,
            Operation::Withdraw { caller, .. } => caller,
            Operation::Finalize { caller } => caller,
        }
    }
}

/// One call in the history of a sale: the operation, the time of the call,
/// and whether custody carried out what the operation called for.
pub struct Call {
    pub op: Operation,
    pub now: u64,
    pub carried_out: bool,
}

/// What the ledgers say was bought, buyer by buyer.
pub open spec fn bought_by(ledgers: Map<Principal, UserInfo>) -> Map<Principal, nat> {
    ledgers.map_values(|ledger: UserInfo| ledger.bought_amount as nat)
}

/// What the ledgers say was paid, buyer by buyer.
pub open spec fn paid_by(ledgers: Map<Principal, UserInfo>) -> Map<Principal, nat> {
    ledgers.map_values(|ledger: UserInfo| ledger.sol_amount as nat)
}

impl Market {
    /// The market right after the sale was created: an unconfigured record,
    /// no buyers, and nothing in escrow or in the vault.
    pub open spec fn opened(authority: Principal) -> Market {
        Market {
            sale: CrowdSale::created(authority),
            ledgers: Map::empty(),
            escrow: 0,
            vault: 0,
            paid_in: 0,
            withdrawn: 0,
            swept: 0,
        }
    }

    /// The ledger of `buyer`; an empty one for a buyer who has none yet.
    pub open spec fn ledger_of(self, buyer: Principal) -> UserInfo {
        if self.ledgers.dom().contains(buyer) {
            self.ledgers[buyer]
        } else {
            UserInfo::empty()
        }
    }

    /// Units of the sale asset that all buyers together have received.
    pub open spec fn total_bought(self) -> nat {
        total(bought_by(self.ledgers))
    }

    /// Payment units that all buyers together have paid.
    pub open spec fn total_paid(self) -> nat {
        total(paid_by(self.ledgers))
    }

    /// The market after `op` went through at `now`, or `None` where the
    /// controller refuses it or custody cannot move what it calls for.
    pub open spec fn committed(self, op: Operation, now: u64) -> Option<Market> {
        match op {
            Operation::Configure { caller, min_price, max_price, start, end, price } => {
                if configure_verdict(
                    self.sale,
                    caller,
                    min_price,
                    max_price,
                    start,
                    end,
                    price,
                    now,
                ) is Ok {
                    Some(
                        Market {
                            sale: self.sale.with_settings(min_price, max_price, start, end, price),
                            ..self
                        },
                    )
                } else {
                    None
                }
            },
            Operation::Deposit { caller, units } => {
                if deposit_verdict(self.sale, caller, units) is Ok && self.vault + units
                    <= u64::MAX {
                    Some(
                        Market {
                            sale: self.sale.with_deposit(units),
                            vault: (self.vault + units) as u64,
                            ..self
                        },
                    )
                } else {
                    None
                }
            },
            Operation::Buy { buyer, authority, amount } => {
                match buy_verdict(self.sale, self.ledger_of(buyer), authority, amount, now) {
                    Ok(units) => {
                        if self.escrow + amount <= u64::MAX && units <= self.vault {
                            Some(
                                Market {
                                    sale: self.sale.with_sale(units),
                                    ledgers: self.ledgers.insert(
                                        buyer,
                                        self.ledger_of(buyer).with_purchase(amount, units),
                                    ),
                                    escrow: (self.escrow + amount) as u64,
                                    vault: (self.vault - units) as u64,
                                    paid_in: self.paid_in + amount as nat,
                                    ..self
                                },
                            )
                        } else {
                            None
                        }
                    },
                    Err(_) => None,
                }
            },
            Operation::Withdraw { caller, caller_balance, units } => {
                if withdraw_verdict(self.sale, caller, self.escrow, caller_balance, units) is Ok {
                    Some(
                        Market {
                            escrow: (self.escrow - units) as u64,
                            withdrawn: self.withdrawn + units as nat,
                            ..self
                        },
                    )
                } else {
                    None
                }
            },
            Operation::Finalize { caller } => {
                match finalize_verdict(self.sale, caller, now) {
                    Ok(units) => {
                        if units <= self.vault {
                            Some(
                                Market {
                                    sale: self.sale.finalized(),
                                    vault: (self.vault - units) as u64,
                                    swept: self.swept + units as nat,
                                    ..self
                                },
                            )
                        } else {
                            None
                        }
                    },
                    Err(_) => None,
                }
            },
        }
    }

    /// `next` is what a call of `op` at `now` can leave behind: the market
    /// after the operation went through, or the market unchanged.
    pub open spec fn step(self, op: Operation, now: u64, next: Market) -> bool {
        next == self || self.committed(op, now) == Some(next)
    }

    /// The market after one call: the operation committed where the
    /// controller accepted it and custody carried it out, and nothing
    /// changed otherwise.
    pub open spec fn after(self, call: Call) -> Market {
        match self.committed(call.op, call.now) {
            Some(next) => if call.carried_out {
                next
            } else {
                self
            },
            None => self,
        }
    }

    /// The market after a history of calls, the first call first.
    pub open spec fn after_all(self, calls: Seq<Call>) -> Market
        decreases calls.len(),
    {
        if calls.len() == 0 {
            self
        } else {
            self.after_all(calls.drop_last()).after(calls.last())
        }
    }

    /// No configuration in the history sets a maximum price below what some
    /// buyer has paid by then.
    pub open spec fn caps_kept_by(self, calls: Seq<Call>) -> bool
        decreases calls.len(),
    {
        if calls.len() == 0 {
            true
        } else {
            &&& self.caps_kept_by(calls.drop_last())
            &&& calls.last().op matches Operation::Configure { max_price, .. }
                ==> self.after_all(calls.drop_last()).paid_within(max_price)
        }
    }

    /// No more is sold than was supplied.
    pub open spec fn sold_within_supply(self) -> bool {
        self.sale.sold_amount <= self.sale.supply
    }

    /// No buyer has paid more than `cap`.
    pub open spec fn paid_within(self, cap: u64) -> bool {
        forall|buyer: Principal|
            self.ledgers.dom().contains(buyer) ==> (#[trigger] self.ledgers[buyer]).sol_amount
                <= cap
    }

    /// No buyer has paid more than the maximum price of the sale.
    pub open spec fn caps_respected(self) -> bool {
        self.paid_within(self.sale.max_price)
    }

    /// Every unit that counts as sold is in the ledger of a buyer or was
    /// swept back to the authority.
    pub open spec fn issue_accounted(self) -> bool {
        &&& self.ledgers.dom().finite()
        &&& self.total_bought() + self.swept == self.sale.sold_amount
    }

    /// What the ledgers say was paid is what purchases brought in, and all
    /// of that is in escrow or was withdrawn.
    pub open spec fn payments_accounted(self) -> bool {
        &&& self.ledgers.dom().finite()
        &&& self.total_paid() == self.paid_in
        &&& self.paid_in == self.escrow + self.withdrawn
    }

    /// The vault holds exactly the supply that is not sold.
    pub open spec fn vault_matches(self) -> bool {
        self.vault == self.sale.supply - self.sale.sold_amount
    }

    /// All of the accounting at once.
    pub open spec fn consistent(self) -> bool {
        &&& self.sold_within_supply()
        &&& self.caps_respected()
        &&& self.issue_accounted()
        &&& self.payments_accounted()
        &&& self.vault_matches()
    }
}

/// A sale that was just created is consistent.
pub proof fn lemma_opened_is_consistent(authority: Principal)
    ensures
        Market::opened(authority).consistent(),
{
    let market = Market::opened(authority);
    assert(bought_by(market.ledgers) =~= Map::<Principal, nat>::empty());
    assert(paid_by(market.ledgers) =~= Map::<Principal, nat>::empty());
    lemma_total_of_nothing::<Principal>();
}

/// No step lets the sale issue more than its supply.
pub proof fn lemma_step_keeps_sold_within_supply(
    market: Market,
    op: Operation,
    now: u64,
    next: Market,
)
    requires
        market.sold_within_supply(),
        market.step(op, now, next),
    ensures
        next.sold_within_supply(),
{
}

/// No step takes a buyer over the maximum price. A new configuration is
/// left out where its maximum price is below what some buyer has already
/// paid.
pub proof fn lemma_step_keeps_caps(market: Market, op: Operation, now: u64, next: Market)
    requires
        market.caps_respected(),
        market.step(op, now, next),
        op matches Operation::Configure { max_price, .. } ==> market.paid_within(max_price),
    ensures
        next.caps_respected(),
{
    if next != market {
        match op {
            Operation::Buy { buyer, authority, amount } => {
                assert forall|other: Principal| next.ledgers.dom().contains(other) implies (
                #[trigger] next.ledgers[other]).sol_amount <= next.sale.max_price by {
                    if other != buyer {
                        assert(market.ledgers.dom().contains(other));
                        assert(next.ledgers[other] == market.ledgers[other]);
                    }
                }
            },
            _ => {},
        }
    }
}

/// The sum of what the buyers have bought, with what was swept, stays equal
/// to what counts as sold.
pub proof fn lemma_step_keeps_issue_accounted(
    market: Market,
    op: Operation,
    now: u64,
    next: Market,
)
    requires
        market.issue_accounted(),
        market.step(op, now, next),
    ensures
        next.issue_accounted(),
{
    if next != market {
        match op {
            Operation::Buy { buyer, authority, amount } => {
                let before = market.ledger_of(buyer);
                let units = buy_verdict(market.sale, before, authority, amount, now)->Ok_0;
                let after = before.with_purchase(amount, units);
                assert(bought_by(market.ledgers).dom() =~= market.ledgers.dom());
                assert(bought_by(next.ledgers) =~= bought_by(market.ledgers).insert(
                    buyer,
                    after.bought_amount as nat,
                ));
                lemma_total_after_write(
                    bought_by(market.ledgers),
                    buyer,
                    after.bought_amount as nat,
                );
            },
            _ => {},
        }
    }
}

/// The sum of what the buyers have paid stays equal to what purchases
/// brought in, which stays equal to the escrow plus what was withdrawn.
pub proof fn lemma_step_keeps_payments_accounted(
    market: Market,
    op: Operation,
    now: u64,
    next: Market,
)
    requires
        market.payments_accounted(),
        market.step(op, now, next),
    ensures
        next.payments_accounted(),
{
    if next != market {
        match op {
            Operation::Buy { buyer, authority, amount } => {
                let before = market.ledger_of(buyer);
                let units = buy_verdict(market.sale, before, authority, amount, now)->Ok_0;
                let after = before.with_purchase(amount, units);
                assert(paid_by(market.ledgers).dom() =~= market.ledgers.dom());
                assert(paid_by(next.ledgers) =~= paid_by(market.ledgers).insert(
                    buyer,
                    after.sol_amount as nat,
                ));
                lemma_total_after_write(paid_by(market.ledgers), buyer, after.sol_amount as nat);
            },
            _ => {},
        }
    }
}

/// The vault keeps holding exactly the supply that is not sold.
pub proof fn lemma_step_keeps_vault(market: Market, op: Operation, now: u64, next: Market)
    requires
        market.vault_matches(),
        market.step(op, now, next),
    ensures
        next.vault_matches(),
{
}

/// Every step of a consistent market leaves a consistent market. A new
/// configuration is left out where its maximum price is below what some
/// buyer has already paid.
pub proof fn lemma_step_keeps_consistency(market: Market, op: Operation, now: u64, next: Market)
    requires
        market.consistent(),
        market.step(op, now, next),
        op matches Operation::Configure { max_price, .. } ==> market.paid_within(max_price),
    ensures
        next.consistent(),
{
    lemma_step_keeps_sold_within_supply(market, op, now, next);
    lemma_step_keeps_caps(market, op, now, next);
    lemma_step_keeps_issue_accounted(market, op, now, next);
    lemma_step_keeps_payments_accounted(market, op, now, next);
    lemma_step_keeps_vault(market, op, now, next);
}

/// After every history of calls the market of a new sale is consistent. A
/// history is left out where one of its configurations sets a maximum price
/// below what some buyer has paid by then.
pub proof fn lemma_history_is_consistent(authority: Principal, calls: Seq<Call>)
    requires
        Market::opened(authority).caps_kept_by(calls),
    ensures
        Market::opened(authority).after_all(calls).consistent(),
    decreases calls.len(),
{
    if calls.len() == 0 {
        lemma_opened_is_consistent(authority);
    } else {
        lemma_history_is_consistent(authority, calls.drop_last());
        let before = Market::opened(authority).after_all(calls.drop_last());
        let call = calls.last();
        lemma_step_keeps_consistency(before, call.op, call.now, before.after(call));
    }
}

/// Until unsold inventory is swept, what the buyers have bought is exactly
/// what counts as sold.
pub proof fn lemma_bought_is_sold(market: Market)
    requires
        market.issue_accounted(),
        market.swept == 0,
    ensures
        market.total_bought() == market.sale.sold_amount,
{
}

/// In a consistent market the vault is never short: whatever the controller
/// accepts, the vault can take or give the units that it calls for.
pub proof fn lemma_vault_is_never_short(market: Market, op: Operation, now: u64)
    requires
        market.consistent(),
    ensures
        op matches Operation::Deposit { caller, units } ==> (deposit_verdict(
            market.sale,
            caller,
            units,
        ) is Ok ==> market.vault + units <= u64::MAX),
        op matches Operation::Buy { buyer, authority, amount } ==> (buy_verdict(
            market.sale,
            market.ledger_of(buyer),
            authority,
            amount,
            now,
        ) matches Ok(units) ==> units <= market.vault),
        op matches Operation::Finalize { caller } ==> (finalize_verdict(
            market.sale,
            caller,
            now,
        ) matches Ok(units) ==> units == market.vault),
{
}

/// Only the authority operates the sale: a call by anyone else changes
/// nothing, unless it is a purchase. And no call changes who the authority
/// is.
pub proof fn lemma_only_the_authority_operates(
    market: Market,
    op: Operation,
    now: u64,
    next: Market,
)
    requires
        market.step(op, now, next),
    ensures
        next.sale.authority == market.sale.authority,
        op.caller() != market.sale.authority && !(op is Buy) ==> next == market,
{
}

/// A purchase changes nothing of the record but what counts as sold, and no
/// ledger but the buyer's.
pub proof fn lemma_buy_changes_only_its_own(
    market: Market,
    op: Operation,
    now: u64,
    next: Market,
)
    requires
        market.step(op, now, next),
        op is Buy,
    ensures
        next.sale == (CrowdSale { sold_amount: next.sale.sold_amount, ..market.sale }),
        forall|other: Principal|
            other != op.caller() ==> #[trigger] next.ledger_of(other) == market.ledger_of(other),
        next.withdrawn == market.withdrawn,
        next.swept == market.swept,
{
}

/// Finalizing is idempotent: once the sale was finalized, finalizing it
/// again at any later time goes through and changes nothing.
pub proof fn lemma_finalize_twice_is_once(
    market: Market,
    caller: Principal,
    first: u64,
    second: u64,
    finalized: Market,
)
    requires
        market.committed(Operation::Finalize { caller }, first) == Some(finalized),
        first <= second,
    ensures
        finalize_verdict(finalized.sale, caller, second) == Ok::<u64, CrowdSaleError>(0),
        finalized.committed(Operation::Finalize { caller }, second) == Some(finalized),
{
}

/// Without a purchase, what counts as sold does not change. The one
/// exception is left out: finalizing a sale with unsold supply, which counts
/// that supply as sold.
pub proof fn lemma_sold_is_constant_without_buy(
    market: Market,
    op: Operation,
    now: u64,
    next: Market,
)
    requires
        market.step(op, now, next),
        !(op is Buy),
        op is Finalize ==> market.sale.sold_amount >= market.sale.supply,
    ensures
        next.sale.sold_amount == market.sale.sold_amount,
{
}

/// A purchase that goes through adds to what counts as sold, to what the
/// buyer has paid and to what the buyer has bought, each by more than zero.
/// This is stated of a payment above zero at a price of at most `ONE_UNIT`:
/// a payment of zero adds nothing, and a higher price has a rate of zero.
pub proof fn lemma_buy_adds(
    sale: CrowdSale,
    ledger: UserInfo,
    authority: Principal,
    amount: u64,
    now: u64,
)
    requires
        buy_verdict(sale, ledger, authority, amount, now) is Ok,
        amount > 0,
        sale.price <= ONE_UNIT,
    ensures
        ({
            let units = buy_verdict(sale, ledger, authority, amount, now)->Ok_0;
            &&& units > 0
            &&& sale.with_sale(units).sold_amount == sale.sold_amount + units
            &&& ledger.with_purchase(amount, units).sol_amount == ledger.sol_amount + amount
            &&& ledger.with_purchase(amount, units).bought_amount == ledger.bought_amount + units
        }),
{
    let price = sale.price as nat;
    let one = ONE_UNIT as nat;
    assert(one / price >= 1) by (nonlinear_arith)
        requires
            0 < price <= one,
    ;
    assert(amount as nat * rate(price) >= 1) by (nonlinear_arith)
        requires
            amount > 0,
            rate(price) >= 1,
    ;
    assert(reward(amount as nat, price) >= 1);
}

} // verus!
