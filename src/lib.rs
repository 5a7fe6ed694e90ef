//! A binary prediction market priced by a constant-product market maker.
//!
//! `state` holds the market and position records, `identity` the account
//! keys, `market` creation and the bet (swap) logic, `settlement` the
//! resolution and claim lifecycle, and `laws` the properties that hold
//! across operations.
pub mod identity;
pub mod state;
pub mod market;
pub mod settlement;
pub mod laws;

pub use identity::Identity;
pub use market::{initialize_market, place_bet, InitializeMarket, PlaceBet};
pub use settlement::{claim, resolve_market, Claim, ResolveMarket};
pub use state::{CustomError, Market, UserBet, SEED_RESERVE};
