use vstd::prelude::*;
use crate::identity::Identity;
use crate::state::{CustomError, Market, UserBet, SEED_RESERVE};

verus! {

/// The accounts a market is created with: the market to fill in and the
/// identity that will be allowed to resolve it.
pub struct InitializeMarket {
    pub market: Market,
    pub authority: Identity,
}

/// The accounts a bet touches: the shared market, the bettor's position in
/// it, and the bettor.
pub struct PlaceBet {
    pub market: Market,
    pub user_bet: UserBet,
    pub user: Identity,
}

/// A freshly created market: both pools seeded, nothing staked, unresolved.
pub open spec fn created_market(authority: Identity, question: String, end_time: i64) -> Market {
    Market {
        authority,
        question,
        end_time,
        yes_shares: SEED_RESERVE,
        no_shares: SEED_RESERVE,
        total_liquidity: 0,
        resolved: false,
        outcome: None,
    }
}

/// The reserve of the chosen side after a swap of `amount` into the
/// opposite pool: the invariant product over the grown opposite reserve,
/// rounded down so that the remainder stays with the pool.
pub open spec fn keep_after(pool_keep: int, pool_swap: int, amount: int) -> int {
    (pool_keep * pool_swap) / (pool_swap + amount)
}

/// How many shares of the chosen side the pool gives up in that swap.
pub open spec fn swap_out(pool_keep: int, pool_swap: int, amount: int) -> int {
    pool_keep - keep_after(pool_keep, pool_swap, amount)
}

/// The reserves of the chosen side and of the opposite side.
pub open spec fn pools(m: Market, is_yes: bool) -> (int, int) {
    if is_yes {
        (m.yes_shares as int, m.no_shares as int)
    } else {
        (m.no_shares as int, m.yes_shares as int)
    }
}

/// The shares a bet credits: the stake minted on the chosen side plus what
/// the swap of the unwanted side brings in.
pub open spec fn shares_credited(m: Market, amount: u64, is_yes: bool) -> int {
    amount + swap_out(pools(m, is_yes).0, pools(m, is_yes).1, amount as int)
}

/// The bettor's balance on the chosen side.
pub open spec fn side_balance(b: UserBet, is_yes: bool) -> int {
    if is_yes {
        b.yes_shares as int
    } else {
        b.no_shares as int
    }
}

/// A bet goes through when its stake is positive, the swap is defined, it
/// leaves the chosen pool non-empty, and no counter overflows.
pub open spec fn bet_allowed(m: Market, b: UserBet, amount: u64, is_yes: bool) -> bool {
    let keep = pools(m, is_yes).0;
    let swap = pools(m, is_yes).1;
    &&& amount > 0
    &&& swap + amount > 0
    &&& keep_after(keep, swap, amount as int) > 0
    &&& swap + amount <= u64::MAX
    &&& m.total_liquidity + amount <= u64::MAX
    &&& b.amount_invested + amount <= u64::MAX
    &&& side_balance(b, is_yes) + shares_credited(m, amount, is_yes) <= u64::MAX
}

/// The market after an allowed bet.
pub open spec fn market_after_bet(m: Market, amount: u64, is_yes: bool) -> Market {
    let keep = pools(m, is_yes).0;
    let swap = pools(m, is_yes).1;
    let new_keep = keep_after(keep, swap, amount as int) as u64;
    let new_swap = (swap + amount) as u64;
    let liquidity = (m.total_liquidity + amount) as u64;
    if is_yes {
        Market { yes_shares: new_keep, no_shares: new_swap, total_liquidity: liquidity, ..m }
    } else {
        Market { yes_shares: new_swap, no_shares: new_keep, total_liquidity: liquidity, ..m }
    }
}

/// The bettor's position after an allowed bet.
pub open spec fn user_after_bet(b: UserBet, m: Market, amount: u64, is_yes: bool) -> UserBet {
    let balance = (side_balance(b, is_yes) + shares_credited(m, amount, is_yes)) as u64;
    let invested = (b.amount_invested + amount) as u64;
    if is_yes {
        UserBet { amount_invested: invested, yes_shares: balance, ..b }
    } else {
        UserBet { amount_invested: invested, no_shares: balance, ..b }
    }
}

/// Rounding down keeps the swap within the pool and never lets the
/// invariant product grow.
pub proof fn lemma_swap_bounds(pool_keep: int, pool_swap: int, amount: int)
    requires
        pool_keep >= 0,
        pool_swap >= 0,
        amount >= 0,
        pool_swap + amount > 0,
    ensures
        0 <= keep_after(pool_keep, pool_swap, amount) <= pool_keep,
        keep_after(pool_keep, pool_swap, amount) * (pool_swap + amount) <= pool_keep * pool_swap,
{
    let k = pool_keep * pool_swap;
    let d = pool_swap + amount;
    let q = k / d;
    assert(k >= 0) by (nonlinear_arith)
        requires
            pool_keep >= 0,
            pool_swap >= 0,
            k == pool_keep * pool_swap,
    ;
    vstd::arithmetic::div_mod::lemma_fundamental_div_mod(k, d);
    vstd::arithmetic::div_mod::lemma_mod_bound(k, d);
    vstd::arithmetic::div_mod::lemma_div_pos_is_pos(k, d);
    assert(q * d <= k) by (nonlinear_arith)
        requires
            k == d * q + k % d,
            k % d >= 0,
    ;
    assert(q <= pool_keep) by (nonlinear_arith)
        requires
            q * d <= k,
            k == pool_keep * pool_swap,
            d == pool_swap + amount,
            amount >= 0,
            pool_keep >= 0,
            d > 0,
    ;
}

/// Fills in a new market with both pools seeded and nothing staked.
pub fn initialize_market(ctx: &mut InitializeMarket, question: String, end_time: i64) -> (r: Result<(), CustomError>)
    ensures
        r is Ok,
        final(ctx).market == created_market(old(ctx).authority, question, end_time),
        final(ctx).market.wf(),
        final(ctx).authority == old(ctx).authority,
{
    ctx.market = Market {
        authority: ctx.authority,
        question,
        end_time,
        yes_shares: SEED_RESERVE,
        no_shares: SEED_RESERVE,
        total_liquidity: 0,
        resolved: false,
        outcome: None,
    };
    Ok(())
}

/// Buys shares of one side (`is_yes` picks YES) for `amount` stake units.
///
/// The stake mints `amount` shares of both sides; the unwanted ones are
/// sold into the opposite pool at the constant product, rounded in the
/// pool's favour. Returns the shares credited to the bettor. A zero stake
/// is refused with `InvalidAmount`, a bet that would overflow a counter or
/// empty a pool with `ArithmeticFault`. A refused bet changes nothing. Bets are not gated on resolution or on `end_time`.
pub fn place_bet(ctx: &mut PlaceBet, amount: u64, is_yes: bool) -> (r: Result<u64, CustomError>)
    ensures
        r is Ok <==> bet_allowed(old(ctx).market, old(ctx).user_bet, amount, is_yes),
        r matches Ok(credited) ==> {
            &&& credited == shares_credited(old(ctx).market, amount, is_yes)
            &&& credited >= amount
            &&& final(ctx).market == market_after_bet(old(ctx).market, amount, is_yes)
            &&& final(ctx).user_bet == user_after_bet(old(ctx).user_bet, old(ctx).market, amount, is_yes)
            &&& final(ctx).user == old(ctx).user
            &&& final(ctx).market.yes_shares > 0
            &&& final(ctx).market.no_shares > 0
            &&& final(ctx).market.yes_shares * final(ctx).market.no_shares
                <= old(ctx).market.yes_shares * old(ctx).market.no_shares
        },
        amount == 0 ==> r == Err::<u64, CustomError>(CustomError::InvalidAmount),
        r matches Err(e) ==> {
            &&& amount > 0 ==> e == CustomError::ArithmeticFault
            &&& *final(ctx) == *old(ctx)
        },
        old(ctx).market.wf() ==> final(ctx).market.wf(),
{
    if amount == 0 {
        return Err(CustomError::InvalidAmount);
    }
    let pool_keep: u64 = if is_yes { ctx.market.yes_shares } else { ctx.market.no_shares };
    let pool_swap: u64 = if is_yes { ctx.market.no_shares } else { ctx.market.yes_shares };
    assert((pool_keep as int) * (pool_swap as int) <= u128::MAX) by (nonlinear_arith)
        requires
            pool_keep <= u64::MAX,
            pool_swap <= u64::MAX,
    ;
    let k: u128 = (pool_keep as u128) * (pool_swap as u128);
    let new_pool_swap: u128 = (pool_swap as u128) + (amount as u128);
    if new_pool_swap == 0 {
        return Err(CustomError::ArithmeticFault);
    }
    let new_pool_keep: u128 = k / new_pool_swap;
    proof {
        lemma_swap_bounds(pool_keep as int, pool_swap as int, amount as int);
    }
    if new_pool_keep == 0 || new_pool_swap > u64::MAX as u128 {
        return Err(CustomError::ArithmeticFault);
    }
    let shares_out: u64 = (pool_keep as u128 - new_pool_keep) as u64;
    let credited: u64 = match amount.checked_add(shares_out) {
        Some(c) => c,
        None => return Err(CustomError::ArithmeticFault),
    };
    let liquidity: u64 = match ctx.market.total_liquidity.checked_add(amount) {
        Some(l) => l,
        None => return Err(CustomError::ArithmeticFault),
    };
    let invested: u64 = match ctx.user_bet.amount_invested.checked_add(amount) {
        Some(v) => v,
        None => return Err(CustomError::ArithmeticFault),
    };
    let balance: u64 = if is_yes { ctx.user_bet.yes_shares } else { ctx.user_bet.no_shares };
    let balance: u64 = match balance.checked_add(credited) {
        Some(v) => v,
        None => return Err(CustomError::ArithmeticFault),
    };
    if is_yes {
        ctx.market.no_shares = new_pool_swap as u64;
        ctx.market.yes_shares = new_pool_keep as u64;
        ctx.user_bet.yes_shares = balance;
    } else {
        ctx.market.yes_shares = new_pool_swap as u64;
        ctx.market.no_shares = new_pool_keep as u64;
        ctx.user_bet.no_shares = balance;
    }
    ctx.market.total_liquidity = liquidity;
    ctx.user_bet.amount_invested = invested;
    proof {
        let nk = new_pool_keep as int;
        let ns = new_pool_swap as int;
        assert(nk * ns == ns * nk) by (nonlinear_arith);
        assert((pool_keep as int) * (pool_swap as int) == (pool_swap as int) * (pool_keep as int))
            by (nonlinear_arith);
    }
    Ok(credited)
}

} // verus!
