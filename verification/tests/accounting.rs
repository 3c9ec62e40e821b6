//! The accounting of a whole sale, followed through runs of operations: the
//! records, the ledgers of several buyers, the escrow and the vault.

use std::collections::HashMap;

use crowdsale::{
    buy_token, create_crowdsale, deposite_token, end_sales, setting_crowdsale, withdraw, BuyToken,
    CreateCrowdsale, CrowdSale, Principal, SettingCrowdsale, TokenSale, UserInfo, Withdraw,
    ONE_UNIT,
};

/// A sale with all that belongs to it. Funds move only where the controller
/// has accepted the operation.
struct Books {
    sale: CrowdSale,
    ledgers: HashMap<[u8; 32], UserInfo>,
    escrow: u64,
    vault: u64,
    authority_balance: u64,
    paid_in: u128,
    withdrawn: u128,
    swept: u128,
}

fn authority() -> Principal {
    Principal::new([0xA0; 32])
}

fn buyer(n: u8) -> Principal {
    Principal::new([n; 32])
}

impl Books {
    fn open() -> Books {
        let mut ctx = CreateCrowdsale {
            crowdsale_account: CrowdSale::new(Principal::new([0; 32])),
            payer: authority(),
        };
        create_crowdsale(&mut ctx).unwrap();
        Books {
            sale: ctx.crowdsale_account,
            ledgers: HashMap::new(),
            escrow: 0,
            vault: 0,
            authority_balance: 0,
            paid_in: 0,
            withdrawn: 0,
            swept: 0,
        }
    }

    fn configure(
        &mut self,
        caller: Principal,
        min_price: u64,
        max_price: u64,
        start: u64,
        end: u64,
        price: u64,
        now: u64,
    ) -> bool {
        let mut ctx = SettingCrowdsale {
            crowdsale_account: self.sale,
            payer: caller,
        };
        let done = setting_crowdsale(&mut ctx, min_price, max_price, start, end, price, now).is_ok();
        self.sale = ctx.crowdsale_account;
        done
    }

    fn deposit(&mut self, caller: Principal, units: u64) -> bool {
        let mut ctx = TokenSale {
            crowdsale_account: self.sale,
            payer: caller,
        };
        if deposite_token(&mut ctx, units).is_err() {
            assert_eq!(ctx.crowdsale_account, self.sale);
            return false;
        }
        self.vault += units;
        self.sale = ctx.crowdsale_account;
        true
    }

    fn buy(&mut self, who: Principal, amount: u64, now: u64) -> Option<u64> {
        let before = self.ledgers.get(&who.bytes).copied().unwrap_or(UserInfo::new());
        let mut ctx = BuyToken {
            crowdsale_account: self.sale,
            user_info_account: before,
            payer: who,
        };
        match buy_token(&mut ctx, authority(), amount, now) {
            Ok(units) => {
                self.escrow += amount;
                self.vault -= units;
                self.paid_in += amount as u128;
                self.sale = ctx.crowdsale_account;
                self.ledgers.insert(who.bytes, ctx.user_info_account);
                Some(units)
            }
            Err(_) => {
                assert_eq!(ctx.crowdsale_account, self.sale);
                assert_eq!(ctx.user_info_account, before);
                None
            }
        }
    }

    fn withdraw(&mut self, caller: Principal, units: u64) -> bool {
        let mut ctx = Withdraw {
            crowdsale_account: self.sale,
            crowdsale_lamports: self.escrow,
            payer: caller,
            payer_lamports: self.authority_balance,
        };
        if withdraw(&mut ctx, units).is_err() {
            return false;
        }
        assert_eq!(ctx.crowdsale_account, self.sale);
        self.escrow = ctx.crowdsale_lamports;
        self.authority_balance = ctx.payer_lamports;
        self.withdrawn += units as u128;
        true
    }

    fn finalize(&mut self, caller: Principal, now: u64) -> Option<u64> {
        let mut ctx = TokenSale {
            crowdsale_account: self.sale,
            payer: caller,
        };
        match end_sales(&mut ctx, now) {
            Ok(units) => {
                self.vault -= units;
                self.swept += units as u128;
                self.sale = ctx.crowdsale_account;
                Some(units)
            }
            Err(_) => {
                assert_eq!(ctx.crowdsale_account, self.sale);
                None
            }
        }
    }

    fn total_bought(&self) -> u128 {
        self.ledgers.values().map(|l| l.bought_amount as u128).sum()
    }

    fn total_paid(&self) -> u128 {
        self.ledgers.values().map(|l| l.sol_amount as u128).sum()
    }

    fn check(&self) {
        assert!(self.sale.sold_amount <= self.sale.supply);
        for ledger in self.ledgers.values() {
            assert!(ledger.sol_amount <= self.sale.max_price);
        }
        assert_eq!(self.total_bought() + self.swept, self.sale.sold_amount as u128);
        if self.swept == 0 {
            assert_eq!(self.total_bought(), self.sale.sold_amount as u128);
        }
        assert_eq!(self.total_paid(), self.paid_in);
        assert_eq!(self.paid_in, self.escrow as u128 + self.withdrawn);
        assert_eq!(self.vault, self.sale.supply - self.sale.sold_amount);
    }
}

fn running_sale() -> Books {
    let mut books = Books::open();
    books.check();
    assert!(books.configure(authority(), 10, 1_000, 100, 200, 250_000_000, 50));
    books.check();
    assert!(books.deposit(authority(), 10_000));
    books.check();
    books
}

#[test]
fn accounting_holds_through_a_sale() {
    let mut books = running_sale();
    assert_eq!(books.vault, 10_000);

    assert_eq!(books.buy(buyer(1), 100, 100), Some(400));
    books.check();
    assert_eq!(books.buy(buyer(2), 1_000, 120), Some(4_000));
    books.check();
    assert_eq!(books.buy(buyer(1), 900, 150), Some(3_600));
    books.check();
    // Buyer 1 has reached the cap.
    assert_eq!(books.buy(buyer(1), 10, 160), None);
    books.check();
    // 2_000 units are left: 600 payment units would take 2_400.
    assert_eq!(books.buy(buyer(3), 600, 170), None);
    books.check();
    assert_eq!(books.buy(buyer(3), 500, 200), Some(2_000));
    books.check();

    assert_eq!(books.sale.sold_amount, 10_000);
    assert_eq!(books.vault, 0);
    assert_eq!(books.escrow, 2_500);
    assert_eq!(books.total_bought(), 10_000);
    assert_eq!(books.total_paid(), 2_500);
    assert_eq!(
        books.ledgers[&buyer(1).bytes],
        UserInfo {
            bought_amount: 4_000,
            sol_amount: 1_000
        }
    );

    assert!(books.withdraw(authority(), 2_000));
    books.check();
    assert!(!books.withdraw(authority(), 501));
    books.check();
    assert!(!books.withdraw(buyer(1), 1));
    books.check();
    assert!(books.withdraw(authority(), 500));
    books.check();
    assert_eq!(books.escrow, 0);
    assert_eq!(books.authority_balance, 2_500);
    assert_eq!(books.withdrawn, 2_500);

    assert_eq!(books.finalize(authority(), 200), Some(0));
    books.check();
    assert_eq!(books.swept, 0);
}

#[test]
fn accounting_holds_where_inventory_is_swept() {
    let mut books = running_sale();
    assert_eq!(books.buy(buyer(1), 100, 100), Some(400));
    assert_eq!(books.buy(buyer(2), 50, 101), Some(200));
    books.check();
    assert_eq!(books.finalize(buyer(1), 300), None);
    assert_eq!(books.finalize(authority(), 199), None);
    books.check();
    assert_eq!(books.finalize(authority(), 201), Some(9_400));
    books.check();
    assert_eq!(books.vault, 0);
    assert_eq!(books.swept, 9_400);
    assert_eq!(books.sale.sold_amount, 10_000);
    assert_eq!(books.total_bought(), 600);

    // A deposit after the end is counted, and a later finalize sweeps it.
    assert!(books.deposit(authority(), 77));
    books.check();
    assert_eq!(books.vault, 77);
    assert_eq!(books.buy(buyer(3), 10, 300), None);
    assert_eq!(books.finalize(authority(), 301), Some(77));
    books.check();
    assert_eq!(books.vault, 0);
}

#[test]
fn finalize_twice_is_finalize_once() {
    let mut books = running_sale();
    assert_eq!(books.buy(buyer(1), 100, 100), Some(400));
    assert_eq!(books.finalize(authority(), 250), Some(9_600));
    let (sale, vault, swept, escrow) = (books.sale, books.vault, books.swept, books.escrow);
    for now in [250, 251, 10_000, u64::MAX] {
        assert_eq!(books.finalize(authority(), now), Some(0));
        assert_eq!(books.sale, sale);
        assert_eq!(books.vault, vault);
        assert_eq!(books.swept, swept);
        assert_eq!(books.escrow, escrow);
        books.check();
    }
}

#[test]
fn sold_amount_is_constant_without_a_purchase() {
    let mut books = running_sale();
    assert_eq!(books.buy(buyer(1), 100, 100), Some(400));
    let sold = books.sale.sold_amount;

    assert!(books.deposit(authority(), 5));
    assert_eq!(books.sale.sold_amount, sold);
    assert!(!books.deposit(buyer(1), 5));
    assert_eq!(books.sale.sold_amount, sold);
    assert!(books.withdraw(authority(), 60));
    assert_eq!(books.sale.sold_amount, sold);
    assert!(books.configure(authority(), 10, 1_000, 120, 200, 250_000_000, 110));
    assert_eq!(books.sale.sold_amount, sold);
    assert!(!books.configure(authority(), 10, 1_000, 120, 200, 0, 110));
    assert_eq!(books.sale.sold_amount, sold);
    assert_eq!(books.finalize(authority(), 150), None);
    assert_eq!(books.sale.sold_amount, sold);
    // A purchase that is refused changes nothing either.
    assert_eq!(books.buy(buyer(1), 5, 130), None);
    assert_eq!(books.sale.sold_amount, sold);
    books.check();

    // Finalizing with unsold supply counts that supply as sold.
    assert_eq!(books.finalize(authority(), 200), Some(9_605));
    assert_eq!(books.sale.sold_amount, 10_005);
    // Once nothing is unsold, finalizing keeps the number as well.
    assert_eq!(books.finalize(authority(), 201), Some(0));
    assert_eq!(books.sale.sold_amount, 10_005);
}

#[test]
fn every_purchase_adds_more_than_nothing() {
    let mut books = running_sale();
    let mut state: u64 = 12_345;
    let mut accepted = 0;
    for round in 0..400u64 {
        state = state.wrapping_mul(6_364_136_223_846_793_005).wrapping_add(1_442_695_040_888_963_407);
        let who = buyer((state >> 60) as u8);
        let amount = (state >> 20) % 300;
        let now = 90 + round % 120;
        let sold = books.sale.sold_amount;
        let before = books.ledgers.get(&who.bytes).copied().unwrap_or(UserInfo::new());
        if let Some(units) = books.buy(who, amount, now) {
            accepted += 1;
            assert!(amount > 0 && books.sale.price <= ONE_UNIT);
            let after = books.ledgers[&who.bytes];
            assert_eq!(units, amount * 4);
            assert!(units > 0);
            assert!(books.sale.sold_amount > sold);
            assert!(after.sol_amount > before.sol_amount);
            assert!(after.bought_amount > before.bought_amount);
            assert_eq!(books.sale.sold_amount, sold + units);
            assert_eq!(after.sol_amount, before.sol_amount + amount);
            assert_eq!(after.bought_amount, before.bought_amount + units);
        } else {
            assert_eq!(books.sale.sold_amount, sold);
        }
        books.check();
    }
    assert!(accepted > 10);
    assert!(books.sale.sold_amount > 0);
}

#[test]
fn a_lower_cap_can_leave_a_buyer_above_it() {
    let mut books = running_sale();
    assert_eq!(books.buy(buyer(1), 1_000, 100), Some(4_000));
    books.check();
    assert!(books.configure(authority(), 10, 500, 300, 400, 250_000_000, 150));
    assert!(books.ledgers[&buyer(1).bytes].sol_amount > books.sale.max_price);
    // The buyer cannot add to it.
    assert_eq!(books.buy(buyer(1), 10, 300), None);
}

#[test]
fn a_purchase_changes_only_its_own() {
    let mut books = running_sale();
    assert_eq!(books.buy(buyer(1), 100, 100), Some(400));
    assert_eq!(books.buy(buyer(2), 200, 100), Some(800));
    let sale = books.sale;
    let first = books.ledgers[&buyer(1).bytes];
    let (withdrawn, swept) = (books.withdrawn, books.swept);

    assert_eq!(books.buy(buyer(2), 50, 110), Some(200));
    assert_eq!(
        books.sale,
        CrowdSale {
            sold_amount: 1_400,
            ..sale
        }
    );
    assert_eq!(books.ledgers[&buyer(1).bytes], first);
    assert_eq!(
        books.ledgers[&buyer(2).bytes],
        UserInfo {
            bought_amount: 1_000,
            sol_amount: 250
        }
    );
    assert!(!books.ledgers.contains_key(&buyer(3).bytes));
    assert_eq!((books.withdrawn, books.swept), (withdrawn, swept));
    books.check();
}

#[test]
fn only_the_authority_operates_the_sale() {
    let mut books = running_sale();
    assert_eq!(books.buy(buyer(1), 100, 100), Some(400));
    let sale = books.sale;
    let (escrow, vault) = (books.escrow, books.vault);
    for who in [buyer(1), buyer(2), Principal::new([0xA1; 32])] {
        assert!(!books.configure(who, 1, 2, 500, 600, 1, 150));
        assert!(!books.deposit(who, 1));
        assert!(!books.withdraw(who, 1));
        assert_eq!(books.finalize(who, 1_000), None);
        assert_eq!(books.sale, sale);
        assert_eq!((books.escrow, books.vault), (escrow, vault));
    }
    // The authority stays the authority through every operation.
    assert!(books.configure(authority(), 1, 2_000, 500, 600, 1, 150));
    assert!(books.deposit(authority(), 1));
    assert!(books.withdraw(authority(), 1));
    assert_eq!(books.finalize(authority(), 1_000), Some(9_601));
    assert_eq!(books.sale.authority, authority());
    books.check();
}
