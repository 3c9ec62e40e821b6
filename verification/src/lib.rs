//! Core state machine of a token crowdsale: an escrow that takes a native
//! payment asset from buyers during a sale window and issues a pre-funded
//! sale asset in return, under per-buyer and global supply limits.
//!
//! The controller checks and records; the movements of funds that an
//! operation calls for are made by its caller. The market is the model of a
//! whole sale in which the accounting is proved.

pub mod controller;
pub mod error;
pub mod kernel;
pub mod market;
pub mod principal;
pub mod state;
pub mod tally;

pub use controller::{
    buy_token, create_crowdsale, deposite_token, end_sales, setting_crowdsale, withdraw, BuyToken,
    CreateCrowdsale, SettingCrowdsale, TokenSale, Withdraw,
};
pub use error::CrowdSaleError;
pub use kernel::{calculate_reward_amount, is_price_valid, is_sale_active, ONE_UNIT};
pub use principal::Principal;
pub use state::{CrowdSale, UserInfo};
