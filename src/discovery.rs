use vstd::prelude::*;

use crate::goods::GoodKind;
use crate::venue::{QuoteError, Venue};

verus! {

/// Smallest quantity worth trading (0.01 units).
pub const MIN_QUANTITY: u64 = 10;

/// Below this a purchase search does not start (0.001 units).
pub const MIN_BUY_START: u64 = 1;

/// A quantity that a venue will buy, with the price it quoted for it and the
/// budget it reported when asked.
#[derive(Debug, Clone, Copy, PartialEq, Eq, Structural)]
pub struct SellOffer {
    pub quantity: u64,
    pub price: u64,
    pub budget: u64,
}

/// A quantity that a venue will sell, with the price it quoted for it.
#[derive(Debug, Clone, Copy, PartialEq, Eq, Structural)]
pub struct BuyOffer {
    pub quantity: u64,
    pub price: u64,
}

/// `initial` divided by `divisor`, rounded down.
pub open spec fn share(initial: u64, divisor: int) -> int {
    initial as int / divisor
}

/// `q` is one of the candidates of a search from `initial`:
/// `initial / 1`, `initial / 2`, `initial / 3`, ... no smaller than `MIN_QUANTITY`.
pub open spec fn is_candidate(initial: u64, q: u64) -> bool {
    &&& MIN_QUANTITY <= q <= initial
    &&& exists|d: int| d >= 1 && q == #[trigger] share(initial, d)
}

/// A venue's answer accepts a sale when it quotes a price below its budget.
pub open spec fn spec_sale_accepted(quote: Result<u64, QuoteError>, budget: u64) -> bool {
    match quote {
        Ok(price) => price < budget,
        Err(_) => false,
    }
}

pub fn sale_accepted(quote: Result<u64, QuoteError>, budget: u64) -> (r: bool)
    ensures
        r == spec_sale_accepted(quote, budget),
{
    match quote {
        Ok(price) => price < budget,
        Err(_) => false,
    }
}

proof fn lemma_candidate_bound(initial: u64, i: u64)
    requires
        i >= 1,
        initial as int / i as int >= MIN_QUANTITY,
    ensures
        i < initial,
        initial as int / i as int <= initial,
{
    let q = initial as int / i as int;
    assert(q * (i as int) <= initial as int) by (nonlinear_arith)
        requires
            q == initial as int / i as int,
            i >= 1,
    ;
    assert(i < initial) by (nonlinear_arith)
        requires
            q * (i as int) <= initial as int,
            q >= 10,
            i >= 1,
    ;
    assert(q <= initial) by (nonlinear_arith)
        requires
            q * (i as int) <= initial as int,
            q >= 10,
            i >= 1,
    ;
}

/// Searches `initial_quantity / 1, / 2, / 3, ...` for the first quantity that
/// `market` quotes for a sale below its budget. Gives up with `None` as soon
/// as the candidate falls under `MIN_QUANTITY`, and so at once where the
/// quantity is under `MIN_QUANTITY`.
pub fn search_sell_quantity<V: Venue>(market: &V, kind: GoodKind, initial_quantity: u64) -> (r:
    Option<SellOffer>)
    ensures
        initial_quantity < MIN_QUANTITY ==> r is None,
        r matches Some(offer) ==> {
            &&& is_candidate(initial_quantity, offer.quantity)
            &&& offer.price < offer.budget
        },
{
    if initial_quantity < MIN_QUANTITY {
        return None;
    }
    let mut i: u64 = 1;
    loop
        invariant
            1 <= i,
            initial_quantity >= MIN_QUANTITY,
        decreases initial_quantity - i,
    {
        let quantity = initial_quantity / i;
        if quantity < MIN_QUANTITY {
            return None;
        }
        proof {
            lemma_candidate_bound(initial_quantity, i);
            assert(quantity == share(initial_quantity, i as int));
        }
        let quote = market.quote_sell(kind, quantity);
        let budget = market.budget();
        if sale_accepted(quote, budget) {
            let price = match quote {
                Ok(p) => p,
                Err(_) => 0,
            };
            return Some(SellOffer { quantity, price, budget });
        }
        i = i + 1;
    }
}

/// The quantity that `search_sell_quantity` finds, or 0 where it finds none.
pub fn find_accepted_sell_qty<V: Venue>(market: &V, kind: GoodKind, initial_quantity: u64) -> (r:
    u64)
    ensures
        initial_quantity < MIN_QUANTITY ==> r == 0,
        r == 0 || is_candidate(initial_quantity, r),
{
    match search_sell_quantity(market, kind, initial_quantity) {
        Some(offer) => offer.quantity,
        None => 0,
    }
}

/// Searches `initial_quantity / 1, / 2, / 3, ...` for the first quantity that
/// `market` will quote for a purchase at all. Gives up with `None` as soon as
/// the candidate falls under `MIN_QUANTITY`, and at once where the quantity
/// is under `MIN_BUY_START`.
pub fn search_buy_quantity<V: Venue>(market: &V, kind: GoodKind, initial_quantity: u64) -> (r:
    Option<BuyOffer>)
    ensures
        initial_quantity < MIN_QUANTITY ==> r is None,
        r matches Some(offer) ==> is_candidate(initial_quantity, offer.quantity),
{
    if initial_quantity < MIN_BUY_START {
        return None;
    }
    let mut i: u64 = 1;
    loop
        invariant
            1 <= i,
        decreases initial_quantity - i,
    {
        let quantity = initial_quantity / i;
        if quantity < MIN_QUANTITY {
            return None;
        }
        proof {
            lemma_candidate_bound(initial_quantity, i);
            assert(quantity == share(initial_quantity, i as int));
        }
        match market.quote_buy(kind, quantity) {
            Ok(price) => {
                return Some(BuyOffer { quantity, price });
            },
            Err(_) => {},
        }
        i = i + 1;
    }
}

/// The quantity that `search_buy_quantity` finds, or 0 where it finds none.
pub fn find_accepted_buy_qty<V: Venue>(market: &V, kind: GoodKind, initial_quantity: u64) -> (r:
    u64)
    ensures
        initial_quantity < MIN_QUANTITY ==> r == 0,
        r == 0 || is_candidate(initial_quantity, r),
{
    match search_buy_quantity(market, kind, initial_quantity) {
        Some(offer) => offer.quantity,
        None => 0,
    }
}

} // verus!
