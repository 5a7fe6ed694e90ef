use vstd::prelude::*;
use crate::identity::Identity;
use crate::state::{CustomError, Market, UserBet};

verus! {

/// The accounts a resolution touches: the market and the caller.
pub struct ResolveMarket {
    pub market: Market,
    pub authority: Identity,
}

/// The accounts a claim touches: the market, the claimant's position in it,
/// and the claimant.
pub struct Claim {
    pub market: Market,
    pub user_bet: UserBet,
    pub user: Identity,
}

/// What `resolve_market` returns.
pub open spec fn resolve_result(c: ResolveMarket) -> Result<(), CustomError> {
    if c.market.authority@ == c.authority@ {
        Ok(())
    } else {
        Err(CustomError::Unauthorized)
    }
}

/// The accounts after `resolve_market`: only the market's authority
/// records an outcome.
pub open spec fn resolve_post(c: ResolveMarket, outcome: bool) -> ResolveMarket {
    if c.market.authority@ == c.authority@ {
        ResolveMarket { market: Market { resolved: true, outcome: Some(outcome), ..c.market }, ..c }
    } else {
        c
    }
}

/// The winning side's balance of a position, once an outcome is recorded.
pub open spec fn winning_balance(m: Market, b: UserBet) -> u64 {
    if m.outcome == Some(true) {
        b.yes_shares
    } else {
        b.no_shares
    }
}

/// What `claim` returns: the payout, or why there is none.
pub open spec fn claim_result(c: Claim) -> Result<u64, CustomError> {
    if !c.market.resolved || c.market.outcome.is_none() {
        Err(CustomError::MarketNotResolved)
    } else if winning_balance(c.market, c.user_bet) == 0 {
        Err(CustomError::NoWinnings)
    } else {
        Ok(winning_balance(c.market, c.user_bet))
    }
}

/// The accounts after `claim`: a paid position is emptied and marked.
pub open spec fn claim_post(c: Claim) -> Claim {
    if claim_result(c) is Ok {
        Claim {
            user_bet: UserBet { yes_shares: 0, no_shares: 0, claimed: true, ..c.user_bet },
            ..c
        }
    } else {
        c
    }
}

/// Records the outcome of a market. Only its authority may do so; anyone
/// else gets `Unauthorized` and the market is left as it was.
///
/// A later call by the authority records the new outcome in place of the
/// old one: resolution is not guarded against being repeated.
pub fn resolve_market(ctx: &mut ResolveMarket, outcome: bool) -> (r: Result<(), CustomError>)
    ensures
        r == resolve_result(*old(ctx)),
        *final(ctx) == resolve_post(*old(ctx), outcome),
        r is Ok <==> old(ctx).market.authority@ == old(ctx).authority@,
        r is Ok ==> final(ctx).market.resolved && final(ctx).market.outcome == Some(outcome),
        r is Err ==> r == Err::<(), CustomError>(CustomError::Unauthorized) && *final(ctx) == *old(ctx),
        old(ctx).market.wf() ==> final(ctx).market.wf(),
{
    if !ctx.market.authority.same_as(&ctx.authority) {
        return Err(CustomError::Unauthorized);
    }
    ctx.market.resolved = true;
    ctx.market.outcome = Some(outcome);
    Ok(())
}

/// Pays out a position on a resolved market: the balance of the winning
/// side. The position is then emptied and marked claimed, so a second
/// claim finds `NoWinnings`. The transfer of the payout itself is left to
/// the caller.
pub fn claim(ctx: &mut Claim) -> (r: Result<u64, CustomError>)
    ensures
        r == claim_result(*old(ctx)),
        *final(ctx) == claim_post(*old(ctx)),
        !old(ctx).market.resolved ==> r == Err::<u64, CustomError>(CustomError::MarketNotResolved)
            && *final(ctx) == *old(ctx),
        r matches Ok(payout) ==> {
            &&& payout > 0
            &&& payout == winning_balance(old(ctx).market, old(ctx).user_bet)
            &&& final(ctx).user_bet.yes_shares == 0
            &&& final(ctx).user_bet.no_shares == 0
            &&& final(ctx).user_bet.claimed
        },
        r is Err ==> *final(ctx) == *old(ctx),
{
    if !ctx.market.resolved {
        return Err(CustomError::MarketNotResolved);
    }
    let won: bool = match ctx.market.outcome {
        Some(o) => o,
        None => return Err(CustomError::MarketNotResolved),
    };
    let payout: u64 = if won { ctx.user_bet.yes_shares } else { ctx.user_bet.no_shares };
    if payout == 0 {
        return Err(CustomError::NoWinnings);
    }
    ctx.user_bet.yes_shares = 0;
    ctx.user_bet.no_shares = 0;
    ctx.user_bet.claimed = true;
    Ok(payout)
}

} // verus!
