use meme_clash::{
    claim, initialize_market, place_bet, resolve_market, Claim, CustomError, Identity,
    InitializeMarket, Market, PlaceBet, ResolveMarket, UserBet,
};

fn key(b: u8) -> Identity {
    Identity::new([b; 32])
}

fn market_with_bet(amount: u64, is_yes: bool) -> (Market, UserBet) {
    let mut init = InitializeMarket { market: Market::default(), authority: key(1) };
    initialize_market(&mut init, String::from("q"), 0).unwrap();
    let mut ctx = PlaceBet { market: init.market, user_bet: UserBet::default(), user: key(2) };
    place_bet(&mut ctx, amount, is_yes).unwrap();
    (ctx.market, ctx.user_bet)
}

fn resolve(market: Market, caller: Identity, outcome: bool) -> (Market, Result<(), CustomError>) {
    let mut ctx = ResolveMarket { market, authority: caller };
    let r = resolve_market(&mut ctx, outcome);
    (ctx.market, r)
}

#[test]
fn authority_resolves_market() {
    let (m, _) = market_with_bet(10, true);
    let (m, r) = resolve(m, key(1), false);
    assert_eq!(r, Ok(()));
    assert!(m.resolved);
    assert_eq!(m.outcome, Some(false));
}

#[test]
fn stranger_cannot_resolve_market() {
    let (m, _) = market_with_bet(10, true);
    let mut other = [1u8; 32];
    other[31] = 9;
    let (m, r) = resolve(m, Identity::new(other), true);
    assert_eq!(r, Err(CustomError::Unauthorized));
    assert!(!m.resolved);
    assert_eq!(m.outcome, None);
    let (m, r) = resolve(m, key(1), true);
    assert_eq!(r, Ok(()));
    let (m, r) = resolve(m, key(3), false);
    assert_eq!(r, Err(CustomError::Unauthorized));
    assert!(m.resolved);
    assert_eq!(m.outcome, Some(true));
}

#[test]
fn second_resolution_overwrites_outcome() {
    let (m, _) = market_with_bet(10, true);
    let (m, _) = resolve(m, key(1), true);
    let (m, r) = resolve(m, key(1), false);
    assert_eq!(r, Ok(()));
    assert_eq!(m.outcome, Some(false));
}

#[test]
fn claim_before_resolve_fails() {
    let (market, user_bet) = market_with_bet(100_000_000, true);
    let mut ctx = Claim { market, user_bet, user: key(2) };
    assert_eq!(claim(&mut ctx), Err(CustomError::MarketNotResolved));
    assert_eq!(ctx.user_bet.yes_shares, 190_909_091);
    assert_eq!(ctx.user_bet.amount_invested, 100_000_000);
    assert!(!ctx.user_bet.claimed);
    assert!(!ctx.market.resolved);
}

#[test]
fn resolve_yes_then_claim_pays_yes_balance_once() {
    let (market, user_bet) = market_with_bet(100_000_000, true);
    let (market, _) = resolve(market, key(1), true);
    let mut ctx = Claim { market, user_bet, user: key(2) };
    assert_eq!(claim(&mut ctx), Ok(190_909_091));
    assert_eq!(ctx.user_bet.yes_shares, 0);
    assert_eq!(ctx.user_bet.no_shares, 0);
    assert!(ctx.user_bet.claimed);
    assert_eq!(claim(&mut ctx), Err(CustomError::NoWinnings));
    assert!(ctx.user_bet.claimed);
}

#[test]
fn losing_side_has_no_winnings() {
    let (market, user_bet) = market_with_bet(100_000_000, true);
    let (market, _) = resolve(market, key(1), false);
    let mut ctx = Claim { market, user_bet, user: key(2) };
    assert_eq!(claim(&mut ctx), Err(CustomError::NoWinnings));
    assert_eq!(ctx.user_bet.yes_shares, 190_909_091);
    assert!(!ctx.user_bet.claimed);
}

#[test]
fn claim_zeroes_both_sides() {
    let (market, _) = market_with_bet(1, true);
    let (market, _) = resolve(market, key(1), false);
    let user_bet = UserBet { amount_invested: 30, yes_shares: 11, no_shares: 42, claimed: false };
    let mut ctx = Claim { market, user_bet, user: key(2) };
    assert_eq!(claim(&mut ctx), Ok(42));
    assert_eq!(ctx.user_bet.yes_shares, 0);
    assert_eq!(ctx.user_bet.no_shares, 0);
    assert_eq!(ctx.user_bet.amount_invested, 30);
    assert!(ctx.user_bet.claimed);
}

#[test]
fn identity_compares_every_byte() {
    let a = key(4);
    let mut raw = [4u8; 32];
    assert!(a.same_as(&Identity::new(raw)));
    raw[17] = 5;
    assert!(!a.same_as(&Identity::new(raw)));
    assert_eq!(Identity::new(raw).to_bytes(), raw);
}
