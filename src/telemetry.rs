use vstd::prelude::*;

use crate::goods::{spec_traded_kinds, traded_kinds};
use crate::trader::MarketKind;
use crate::venue::{GoodLabel, QuoteError, Venue};

verus! {

/// The quantity for which quotes are sampled (0.01 units).
pub const PROBE_QUANTITY: u64 = 10;

/// Recorded in place of a price where a venue declines to quote
/// (1,000,000 units).
pub const INFINITY: u64 = 1_000_000_000;

/// One venue's state at one moment.
#[derive(Debug, Clone)]
pub struct VenueSample {
    pub market: MarketKind,
    /// Cost of buying `PROBE_QUANTITY` of each kind of `traded_kinds()`.
    pub buy_quotes: Vec<u64>,
    /// Receipt for selling `PROBE_QUANTITY` of each kind of `traded_kinds()`.
    pub sell_quotes: Vec<u64>,
    /// What the venue reported holding.
    pub liquidity: Vec<GoodLabel>,
}

/// Every venue's state and the trader's balances at one moment.
#[derive(Debug, Clone)]
pub struct Sample {
    /// One entry per registered venue, in the order of registration.
    pub venues: Vec<VenueSample>,
    /// The trader's balances, in the order of `all_kinds()`.
    pub ledger: Vec<u64>,
}

pub open spec fn spec_quote_or_sentinel(quote: Result<u64, QuoteError>) -> u64 {
    match quote {
        Ok(price) => price,
        Err(_) => INFINITY,
    }
}

/// The quoted price, or `INFINITY` where the venue declined to quote.
pub fn quote_or_sentinel(quote: Result<u64, QuoteError>) -> (r: u64)
    ensures
        r == spec_quote_or_sentinel(quote),
{
    match quote {
        Ok(price) => price,
        Err(_) => INFINITY,
    }
}

impl VenueSample {
    /// The sample has a buy and a sell quote for each traded kind.
    pub open spec fn wf(self) -> bool {
        &&& self.buy_quotes@.len() == spec_traded_kinds().len()
        &&& self.sell_quotes@.len() == spec_traded_kinds().len()
    }
}

/// Samples the quotes of `venue` for `PROBE_QUANTITY` of every traded kind,
/// and its inventory.
pub fn sample_venue<V: Venue>(market: MarketKind, venue: &V) -> (r: VenueSample)
    ensures
        r.market == market,
        r.wf(),
{
    let kinds = traded_kinds();
    let mut buy_quotes: Vec<u64> = Vec::new();
    let mut sell_quotes: Vec<u64> = Vec::new();
    let mut j: usize = 0;
    while j < kinds.len()
        invariant
            kinds@ == spec_traded_kinds(),
            j <= kinds@.len(),
            buy_quotes@.len() == j,
            sell_quotes@.len() == j,
        decreases kinds@.len() - j,
    {
        let kind = kinds[j];
        sell_quotes.push(quote_or_sentinel(venue.quote_sell(kind, PROBE_QUANTITY)));
        buy_quotes.push(quote_or_sentinel(venue.quote_buy(kind, PROBE_QUANTITY)));
        j = j + 1;
    }
    VenueSample { market, buy_quotes, sell_quotes, liquidity: venue.inventory() }
}

} // verus!
