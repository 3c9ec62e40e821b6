//! The two persisted records: the sale and the ledger of one buyer.

use crate::principal::Principal;
use vstd::prelude::*;

verus! {

/// The record of one sale, kept per authority.
#[derive(Clone, Copy, Debug, PartialEq, Eq)]
pub struct CrowdSale {
    /// The only principal that may operate the sale.
    pub authority: Principal,
    /// The least payment accepted in one purchase.
    pub min_price: u64,
    /// The most that one buyer may pay over all purchases.
    pub max_price: u64,
    /// The second at which the sale opens, inclusive.
    pub start: u64,
    /// The second at which the sale closes, inclusive.
    pub end: u64,
    /// Payment units per whole unit of the sale asset.
    pub price: u64,
    /// Units of the sale asset that the authority has deposited.
    pub supply: u64,
    /// Units of the sale asset that have left the vault.
    pub sold_amount: u64,
}

/// The cumulative record of one buyer.
#[derive(Clone, Copy, Debug, PartialEq, Eq, Structural)]
pub struct UserInfo {
    /// Units of the sale asset received so far.
    pub bought_amount: u64,
    /// Payment units paid so far.
    pub sol_amount: u64,
}

impl CrowdSale {
    /// The record as it stands after creation: it names its authority and
    /// every number in it is zero.
    pub open spec fn created(authority: Principal) -> CrowdSale {
        CrowdSale {
            authority,
            min_price: 0,
            max_price: 0,
            start: 0,
            end: 0,
            price: 0,
            supply: 0,
            sold_amount: 0,
        }
    }

    /// A sale is configured once it has a price.
    pub open spec fn configured(self) -> bool {
        self.price > 0
    }

    /// What holds of a sale record at all times: no more is sold than was
    /// supplied, the price range is not empty, and a configured sale closes
    /// after it opens.
    pub open spec fn wf(self) -> bool {
        &&& self.sold_amount <= self.supply
        &&& self.min_price <= self.max_price
        &&& self.configured() ==> self.start < self.end
    }

    /// A new record for `authority`.
    pub fn new(authority: Principal) -> (sale: CrowdSale)
        ensures
            sale == CrowdSale::created(authority),
            sale.wf(),
    {
        CrowdSale {
            authority,
            min_price: 0,
            max_price: 0,
            start: 0,
            end: 0,
            price: 0,
            supply: 0,
            sold_amount: 0,
        }
    }
}

impl UserInfo {
    /// The ledger of a buyer who has bought nothing yet.
    pub open spec fn empty() -> UserInfo {
        UserInfo { bought_amount: 0, sol_amount: 0 }
    }

    /// A ledger with nothing bought and nothing paid.
    pub fn new() -> (ledger: UserInfo)
        ensures
            ledger == UserInfo::empty(),
    {
        UserInfo { bought_amount: 0, sol_amount: 0 }
    }
}

} // verus!
