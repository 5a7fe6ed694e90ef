use vstd::prelude::*;
use crate::identity::Identity;

verus! {

/// The reserve each outcome's pool is seeded with when a market is created
/// (1000 whole units at a fixed-point scale of one million).
pub const SEED_RESERVE: u64 = 1_000_000_000;

/// The shared state of one market: its pools, its stake and its resolution.
pub struct Market {
    pub authority: Identity,
    pub question: String,
    pub end_time: i64,
    pub yes_shares: u64,
    pub no_shares: u64,
    pub total_liquidity: u64,
    pub resolved: bool,
    pub outcome: Option<bool>,
}

impl Market {
    /// Both pools hold liquidity, and an outcome is recorded exactly when
    /// the market is resolved.
    pub open spec fn wf(&self) -> bool {
        &&& self.yes_shares > 0
        &&& self.no_shares > 0
        &&& self.resolved == self.outcome.is_some()
    }
}

impl Default for Market {
    /// An empty, unresolved market with no authority, as an account is
    /// before it is filled in.
    fn default() -> (r: Market)
        ensures
            r.authority@ == Seq::new(32, |i: int| 0u8),
            r.question@.len() == 0,
            r.end_time == 0,
            r.yes_shares == 0,
            r.no_shares == 0,
            r.total_liquidity == 0,
            !r.resolved,
            r.outcome.is_none(),
    {
        let r = Market {
            authority: Identity::new([0u8; 32]),
            question: String::new(),
            end_time: 0,
            yes_shares: 0,
            no_shares: 0,
            total_liquidity: 0,
            resolved: false,
            outcome: None,
        };
        assert(r.authority@ =~= Seq::new(32, |i: int| 0u8));
        r
    }
}

/// One user's position in one market.
#[derive(Clone, Copy, Debug, Default)]
pub struct UserBet {
    pub amount_invested: u64,
    pub yes_shares: u64,
    pub no_shares: u64,
    pub claimed: bool,
}

/// Why an operation was refused. A refused operation changes nothing.
#[derive(Clone, Copy, Debug, PartialEq, Eq, Structural)]
pub enum CustomError {
    /// The market was resolved by someone other than its authority.
    Unauthorized,
    /// A claim was made before the market was resolved.
    MarketNotResolved,
    /// A claim found no shares on the winning side.
    NoWinnings,
    /// A bet would overflow a counter or empty a pool.
    ArithmeticFault,
    /// A bet was placed with a zero stake.
    InvalidAmount,
}

} // verus!
