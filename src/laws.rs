use vstd::prelude::*;
use crate::identity::Identity;
use crate::market::{
    bet_allowed, keep_after, lemma_swap_bounds, market_after_bet, pools, shares_credited,
};
use crate::settlement::{
    claim_post, claim_result, resolve_post, resolve_result, Claim, ResolveMarket,
};
use crate::state::{CustomError, Market, UserBet};

verus! {

/// A bet never grows the product of the two reserves, and leaves both
/// strictly positive. The product stays the same exactly when the division
/// of the swap leaves no remainder.
pub proof fn lemma_bet_keeps_product(m: Market, b: UserBet, amount: u64, is_yes: bool)
    requires
        bet_allowed(m, b, amount, is_yes),
    ensures
        market_after_bet(m, amount, is_yes).yes_shares > 0,
        market_after_bet(m, amount, is_yes).no_shares > 0,
        market_after_bet(m, amount, is_yes).yes_shares * market_after_bet(m, amount, is_yes).no_shares
            <= m.yes_shares * m.no_shares,
        (market_after_bet(m, amount, is_yes).yes_shares * market_after_bet(m, amount, is_yes).no_shares
            == m.yes_shares * m.no_shares)
            <==> (m.yes_shares * m.no_shares) % (pools(m, is_yes).1 + amount) == 0,
{
    let keep = pools(m, is_yes).0;
    let swap = pools(m, is_yes).1;
    let k = keep * swap;
    let d = swap + amount;
    let q = keep_after(keep, swap, amount as int);
    lemma_swap_bounds(keep, swap, amount as int);
    vstd::arithmetic::div_mod::lemma_fundamental_div_mod(k, d);
    vstd::arithmetic::div_mod::lemma_mod_bound(k, d);
    let after = market_after_bet(m, amount, is_yes);
    assert(k == m.yes_shares * m.no_shares) by (nonlinear_arith)
        requires
            k == keep * swap,
            (keep == m.yes_shares && swap == m.no_shares) || (keep == m.no_shares && swap == m.yes_shares),
    ;
    assert(after.yes_shares * after.no_shares == d * q) by (nonlinear_arith)
        requires
            (after.yes_shares == q && after.no_shares == d) || (after.yes_shares == d && after.no_shares == q),
    ;
}

/// A bet credits at least the stake it was placed with.
pub proof fn lemma_bet_credits_at_least_stake(m: Market, b: UserBet, amount: u64, is_yes: bool)
    requires
        bet_allowed(m, b, amount, is_yes),
    ensures
        shares_credited(m, amount, is_yes) >= amount,
{
    lemma_swap_bounds(pools(m, is_yes).0, pools(m, is_yes).1, amount as int);
}

/// Once a claim has paid out, claiming again fails with `NoWinnings` and
/// changes nothing.
pub proof fn lemma_second_claim_fails(c: Claim)
    requires
        claim_result(c) is Ok,
    ensures
        claim_result(claim_post(c)) == Err::<u64, CustomError>(CustomError::NoWinnings),
        claim_post(claim_post(c)) == claim_post(c),
{
}

/// A resolution by anyone but the market's authority fails with
/// `Unauthorized` and leaves the market, its `resolved` flag and its
/// outcome as they were.
pub proof fn lemma_unauthorized_resolve_changes_nothing(c: ResolveMarket, outcome: bool)
    requires
        c.market.authority@ != c.authority@,
    ensures
        resolve_result(c) == Err::<(), CustomError>(CustomError::Unauthorized),
        resolve_post(c, outcome) == c,
        resolve_post(c, outcome).market.resolved == c.market.resolved,
        resolve_post(c, outcome).market.outcome == c.market.outcome,
{
}

/// After the authority resolves a market to YES, a claim pays exactly the
/// position's YES balance (or fails with `NoWinnings` where it is zero),
/// and a claim after that fails with `NoWinnings`.
pub proof fn lemma_resolve_yes_then_claim(r: ResolveMarket, user_bet: UserBet, user: Identity)
    requires
        r.market.authority@ == r.authority@,
    ensures
        ({
            let c = Claim { market: resolve_post(r, true).market, user_bet, user };
            &&& user_bet.yes_shares > 0 ==> claim_result(c) == Ok::<u64, CustomError>(user_bet.yes_shares)
            &&& user_bet.yes_shares == 0 ==> claim_result(c) == Err::<u64, CustomError>(CustomError::NoWinnings)
            &&& claim_result(claim_post(c)) == Err::<u64, CustomError>(CustomError::NoWinnings)
        }),
{
}

/// A claim on a market that is not resolved fails with
/// `MarketNotResolved` and changes nothing.
pub proof fn lemma_claim_before_resolve(c: Claim)
    requires
        !c.market.resolved,
    ensures
        claim_result(c) == Err::<u64, CustomError>(CustomError::MarketNotResolved),
        claim_post(c) == c,
{
}

} // verus!
