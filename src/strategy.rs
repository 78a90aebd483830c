use vstd::prelude::*;

use crate::discovery::{find_accepted_buy_qty, find_accepted_sell_qty};
use crate::goods::{GoodKind, SCALE};
use crate::trader::trader_errors::{TraderDemandError, TraderSupplyError};
use crate::trader::{MarketKind, Trader};
use crate::venue::Venue;

verus! {

/// Why the arbitrage strategy stopped early.
#[derive(Debug, PartialEq, Eq, Clone, Copy, Structural)]
pub enum StrategyError {
    Supply(TraderSupplyError),
    Demand(TraderDemandError),
}

/// Rounds of each phase of the strategy.
pub const ROUNDS: u32 = 10;

/// Days waited after each round of the first phase, for its lock to expire.
pub const LOCK_EXPIRY_DAYS: u32 = 8;

/// Days waited between the two phases.
pub const SETTLE_DAYS: u32 = 10;

/// Days waited at the end.
pub const CLOSING_DAYS: u32 = 3;

/// Kept back from BFB's stock when locking it (0.1 units).
pub const LOCK_MARGIN: u64 = 100;

/// A price for `quantity` is above `unit_price` per unit.
pub open spec fn spec_dearer_than(price: u64, quantity: u64, unit_price: u64) -> bool {
    (price as int) * (SCALE as int) > (unit_price as int) * (quantity as int)
}

pub fn dearer_than(price: u64, quantity: u64, unit_price: u64) -> (r: bool)
    ensures
        r == spec_dearer_than(price, quantity, unit_price),
{
    proof {
        assert((unit_price as int) * (quantity as int) <= (u64::MAX as int) * (u64::MAX as int))
            by (nonlinear_arith)
            requires
                unit_price <= u64::MAX,
                quantity <= u64::MAX,
        ;
        assert((price as int) * (SCALE as int) <= (u64::MAX as int) * 1000) by (nonlinear_arith)
            requires
                price <= u64::MAX,
        ;
    }
    (price as u128) * (SCALE as u128) > (unit_price as u128) * (quantity as u128)
}

/// The frame that every step of the strategy keeps.
pub open spec fn keeps_frame<V: Venue, S>(before: Trader<V, S>, after: Trader<V, S>) -> bool {
    &&& after.spec_ids() == before.spec_ids()
    &&& after.spec_strategy() == before.spec_strategy()
    &&& after.spec_modified() == before.spec_modified()
}

/// Sells what the search accepts of the whole balance of `kind` to `market`,
/// where the search accepts anything.
fn sell_remaining<V: Venue, S>(trader: &mut Trader<V, S>, market: MarketKind, kind: GoodKind) -> (r:
    Result<(), StrategyError>)
    ensures
        keeps_frame(*old(trader), *final(trader)),
        r is Ok ==> old(trader).spec_has_market(market),
{
    let owned = trader.get_owned_good_qty(kind);
    let quantity = match trader.get_market(market) {
        Ok(v) => find_accepted_sell_qty(v, kind, owned),
        Err(e) => return Err(StrategyError::Supply(e)),
    };
    if quantity > 0 {
        match trader.sell(market, kind, quantity) {
            Ok(_) => {},
            Err(e) => return Err(StrategyError::Demand(e)),
        }
    }
    Ok(())
}

/// An arbitrage between BOSE and BFB in USD. First phase, for `ROUNDS`
/// rounds: lock almost all of BFB's stock to raise its price, find a
/// quantity that BFB will buy and BOSE will sell, buy it from BOSE and sell
/// it to BFB, and wait for the lock to expire. Second phase, after a pause,
/// for `ROUNDS` rounds while BFB sells below BOSE's unit price: buy BFB's
/// stock and sell back what BFB accepts. Then sell what is left to BFB, BOSE
/// and DOGE in turn, and wait. Stops at the first failed step; so it fails
/// where BFB, BOSE or DOGE is not registered.
pub fn strategy<V: Venue, S>(trader: &mut Trader<V, S>) -> (r: Result<(), StrategyError>)
    ensures
        keeps_frame(*old(trader), *final(trader)),
        r is Ok ==> {
            &&& old(trader).spec_has_market(MarketKind::BFB)
            &&& old(trader).spec_has_market(MarketKind::BOSE)
            &&& old(trader).spec_has_market(MarketKind::DOGE)
        },
{
    let kind = GoodKind::USD;
    let mut round: u32 = 0;
    while round < ROUNDS
        invariant
            keeps_frame(*old(trader), *trader),
        decreases ROUNDS - round,
    {
        let stock = trader.get_good_qty(MarketKind::BFB, kind);
        let quantity = if stock > LOCK_MARGIN {
            stock - LOCK_MARGIN
        } else {
            0
        };
        match trader.lock_without_buying(MarketKind::BFB, kind, quantity) {
            Ok(_) => {},
            Err(e) => return Err(StrategyError::Supply(e)),
        }
        let quantity = match trader.get_market(MarketKind::BFB) {
            Ok(v) => find_accepted_sell_qty(v, kind, quantity),
            Err(e) => return Err(StrategyError::Supply(e)),
        };
        let quantity = match trader.get_market(MarketKind::BOSE) {
            Ok(v) => find_accepted_buy_qty(v, kind, quantity),
            Err(e) => return Err(StrategyError::Supply(e)),
        };
        if quantity == 0 {
            break;
        }
        match trader.buy(MarketKind::BOSE, kind, quantity) {
            Ok(_) => {},
            Err(e) => return Err(StrategyError::Supply(e)),
        }
        match trader.sell(MarketKind::BFB, kind, quantity) {
            Ok(_) => {},
            Err(e) => return Err(StrategyError::Demand(e)),
        }
        trader.wait_for(LOCK_EXPIRY_DAYS);
        round = round + 1;
    }

    trader.wait_for(SETTLE_DAYS);
    let max_buy_price = match trader.get_supply_price_qt(MarketKind::BOSE, kind, SCALE) {
        Ok(p) => p,
        Err(e) => return Err(StrategyError::Supply(e)),
    };
    let mut round: u32 = 0;
    while round < ROUNDS
        invariant
            keeps_frame(*old(trader), *trader),
        decreases ROUNDS - round,
    {
        let quantity = trader.get_good_qty(MarketKind::BFB, kind);
        let price = match trader.get_supply_price_qt(MarketKind::BFB, kind, quantity) {
            Ok(p) => p,
            Err(e) => return Err(StrategyError::Supply(e)),
        };
        if dearer_than(price, quantity, max_buy_price) {
            break;
        }
        match trader.buy(MarketKind::BFB, kind, quantity) {
            Ok(_) => {},
            Err(e) => return Err(StrategyError::Supply(e)),
        }
        let quantity = match trader.get_market(MarketKind::BFB) {
            Ok(v) => find_accepted_sell_qty(v, kind, quantity),
            Err(e) => return Err(StrategyError::Supply(e)),
        };
        if quantity == 0 {
            break;
        }
        match trader.sell(MarketKind::BFB, kind, quantity) {
            Ok(_) => {},
            Err(e) => return Err(StrategyError::Demand(e)),
        }
        round = round + 1;
    }

    match sell_remaining(trader, MarketKind::BFB, kind) {
        Ok(()) => {},
        Err(e) => return Err(e),
    }
    match sell_remaining(trader, MarketKind::BOSE, kind) {
        Ok(()) => {},
        Err(e) => return Err(e),
    }
    match sell_remaining(trader, MarketKind::DOGE, kind) {
        Ok(()) => {},
        Err(e) => return Err(e),
    }
    trader.wait_for(CLOSING_DAYS);
    Ok(())
}

} // verus!
