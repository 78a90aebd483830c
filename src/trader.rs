use vstd::prelude::*;

pub mod trader_errors;

use crate::goods::{
    all_kinds, spec_all_kinds, spec_traded_kinds, spec_value_in_base, traded_kinds, ExchangeRates,
    Good, GoodKind, Ledger,
};
use crate::selection::{
    best_buyer_choice, cheapest_supplier_choice, is_best_buyer_at, is_cheapest_supplier_at,
    pick_best_buyer, pick_cheapest_supplier, quantity_in, quotes_cover, Quote,
};
use crate::telemetry::{sample_venue, Sample, VenueSample};
use crate::trader::trader_errors::{TraderDemandError, TraderSupplyError};
use crate::venue::Venue;

verus! {

/// The name under which the trader reserves trades.
pub const TRADER_NAME: &'static str = "TASE Trader";

/// The quantity that the price getters without a quantity ask about (1000 units).
pub const DEFAULT_TRANSACTION_AMOUNT: u64 = 1_000_000;

/// The base currency that a new trader holds (1000 units).
pub const INITIAL_MONEY: u64 = 1_000_000;

/// The largest quantity that `bailout` sells in one trade (10000 units).
pub const BAILOUT_CHUNK: u64 = 10_000_000;

/// Names under which venues are registered.
#[derive(Debug, Clone, Copy, PartialEq, Eq, Hash, Structural)]
pub enum MarketKind {
    TASE,
    BOSE,
    DOGE,
    BFB,
    PANIC,
}

/// What one completed trade moved: `paid` left the ledger, `received` came in.
#[derive(Debug, Clone, Copy, PartialEq, Eq, Structural)]
pub struct Fill {
    pub paid: u64,
    pub received: u64,
}

/// A trading agent: its balances, the venues it trades with, the strategy it
/// runs, and the samples it has recorded.
pub struct Trader<V, S> {
    strategy: Option<S>,
    strategy_just_modified: bool,
    owned_goods: Ledger,
    markets: Vec<(MarketKind, V)>,
    amazingness: u64,
    data: Vec<Sample>,
}

/// `s` records `ledger` and one venue sample per name of `ids`, in order.
pub open spec fn is_sample_of(s: Sample, ledger: Ledger, ids: Seq<MarketKind>) -> bool {
    &&& s.ledger@ == ledger.spec_balances()
    &&& s.venues@.len() == ids.len()
    &&& forall|i: int|
        0 <= i < ids.len() ==> (#[trigger] s.venues@[i]).market == ids[i] && s.venues@[i].wf()
}

/// `new` is `old` with one sample of `ledger` and `ids` appended.
pub open spec fn one_sample_added(
    old: Seq<Sample>,
    new: Seq<Sample>,
    ledger: Ledger,
    ids: Seq<MarketKind>,
) -> bool {
    &&& new.len() == old.len() + 1
    &&& new.subrange(0, old.len() as int) == old
    &&& is_sample_of(new.last(), ledger, ids)
}

// Registry, ledger access and sampling.
impl<V: Venue, S> Trader<V, S> {
    pub closed spec fn spec_ledger(self) -> Ledger {
        self.owned_goods
    }

    /// The names of the registered venues, in the order of registration.
    pub closed spec fn spec_ids(self) -> Seq<MarketKind> {
        self.markets@.map_values(|p: (MarketKind, V)| p.0)
    }

    pub closed spec fn spec_venues(self) -> Seq<(MarketKind, V)> {
        self.markets@
    }

    pub closed spec fn spec_samples(self) -> Seq<Sample> {
        self.data@
    }

    pub closed spec fn spec_strategy(self) -> Option<S> {
        self.strategy
    }

    pub closed spec fn spec_modified(self) -> bool {
        self.strategy_just_modified
    }

    pub closed spec fn spec_amazingness(self) -> u64 {
        self.amazingness
    }

    /// No name is registered twice.
    pub open spec fn wf(self) -> bool {
        forall|i: int, j: int|
            0 <= i < j < self.spec_ids().len() ==> self.spec_ids()[i] != self.spec_ids()[j]
    }

    pub open spec fn spec_has_market(self, market: MarketKind) -> bool {
        self.spec_ids().contains(market)
    }

    /// Everything but the venues' own state and the samples is as in `other`.
    pub open spec fn same_books(self, other: Self) -> bool {
        &&& self.spec_ids() == other.spec_ids()
        &&& self.spec_ledger() == other.spec_ledger()
        &&& self.spec_strategy() == other.spec_strategy()
        &&& self.spec_modified() == other.spec_modified()
        &&& self.spec_amazingness() == other.spec_amazingness()
    }

    /// The books, venues and samples are as in `other`; only the strategy
    /// slot and its change mark may differ.
    pub open spec fn same_run_state(self, other: Self) -> bool {
        &&& self.spec_ids() == other.spec_ids()
        &&& self.spec_venues() == other.spec_venues()
        &&& self.spec_ledger() == other.spec_ledger()
        &&& self.spec_samples() == other.spec_samples()
        &&& self.spec_amazingness() == other.spec_amazingness()
    }

    /// A trader with `INITIAL_MONEY` of base currency, nothing else, no
    /// venue, no strategy, and no sample.
    pub fn new() -> (r: Self)
        ensures
            r.wf(),
            r.spec_ledger() == Ledger::new_spec(INITIAL_MONEY),
            r.spec_ids().len() == 0,
            r.spec_samples().len() == 0,
            r.spec_strategy() is None,
            !r.spec_modified(),
            r.spec_amazingness() == 1,
    {
        Self::new_super_duper_amazing_trader(1)
    }

    /// As `new`, with the given amazingness.
    pub fn new_super_duper_amazing_trader(amazingness: u64) -> (r: Self)
        ensures
            r.wf(),
            r.spec_ledger() == Ledger::new_spec(INITIAL_MONEY),
            r.spec_ids().len() == 0,
            r.spec_samples().len() == 0,
            r.spec_strategy() is None,
            !r.spec_modified(),
            r.spec_amazingness() == amazingness,
    {
        let r = Trader {
            strategy: None,
            strategy_just_modified: false,
            owned_goods: Ledger::new(INITIAL_MONEY),
            markets: Vec::new(),
            amazingness,
            data: Vec::new(),
        };
        assert(r.spec_ids() =~= Seq::<MarketKind>::empty());
        r
    }

    /// Position of `market` among the registered venues.
    fn find_market(&self, market: MarketKind) -> (r: Option<usize>)
        ensures
            r matches Some(i) ==> i < self.spec_ids().len() && self.spec_ids()[i as int] == market,
            r is None <==> !self.spec_has_market(market),
    {
        let mut i: usize = 0;
        while i < self.markets.len()
            invariant
                i <= self.markets@.len(),
                forall|j: int| 0 <= j < i ==> self.spec_ids()[j] != market,
            decreases self.markets@.len() - i,
        {
            if self.markets[i].0 == market {
                return Some(i);
            }
            i = i + 1;
        }
        proof {
            if self.spec_has_market(market) {
                let j = self.spec_ids().index_of(market);
                assert(self.spec_ids()[j] == market);
            }
        }
        None
    }

    /// Registers `market` under `kind`, replacing a venue already registered
    /// under that name.
    pub fn with_market(self, kind: MarketKind, market: V) -> (r: Self)
        requires
            self.wf(),
        ensures
            r.wf(),
            r.spec_ledger() == self.spec_ledger(),
            r.spec_samples() == self.spec_samples(),
            r.spec_strategy() == self.spec_strategy(),
            r.spec_modified() == self.spec_modified(),
            r.spec_amazingness() == self.spec_amazingness(),
            r.spec_has_market(kind),
            self.spec_has_market(kind) ==> r.spec_ids() == self.spec_ids(),
            !self.spec_has_market(kind) ==> r.spec_ids() == self.spec_ids().push(kind),
            r.spec_venues() == if self.spec_has_market(kind) {
                self.spec_venues().update(self.spec_ids().index_of(kind), (kind, market))
            } else {
                self.spec_venues().push((kind, market))
            },
    {
        let mut t = self;
        let ghost old_ids = t.spec_ids();
        match t.find_market(kind) {
            Some(i) => {
                proof {
                    let j = old_ids.index_of(kind);
                    assert(old_ids[j] == kind);
                    assert(j == i as int);
                }
                t.markets.set(i, (kind, market));
                assert(t.spec_ids() =~= old_ids);
                assert(t.spec_ids()[i as int] == kind);
            },
            None => {
                t.markets.push((kind, market));
                assert(t.spec_ids() =~= old_ids.push(kind));
                assert(t.spec_ids().last() == kind);
            },
        }
        t
    }

    /// Sets the base-currency balance to `money`.
    pub fn with_initial_money(self, money: u64) -> (r: Self)
        ensures
            r.spec_ledger() == self.spec_ledger().spec_set(GoodKind::EUR, money),
            r.spec_ids() == self.spec_ids(),
            r.spec_samples() == self.spec_samples(),
            r.spec_strategy() == self.spec_strategy(),
            r.spec_modified() == self.spec_modified(),
            r.spec_venues() == self.spec_venues(),
            r.spec_amazingness() == self.spec_amazingness(),
    {
        let mut t = self;
        t.owned_goods.set(GoodKind::EUR, money);
        t
    }

    /// Sets the balance of `good` to `qty`.
    pub fn with_good(self, good: GoodKind, qty: u64) -> (r: Self)
        ensures
            r.spec_ledger() == self.spec_ledger().spec_set(good, qty),
            r.spec_ids() == self.spec_ids(),
            r.spec_samples() == self.spec_samples(),
            r.spec_strategy() == self.spec_strategy(),
            r.spec_modified() == self.spec_modified(),
            r.spec_venues() == self.spec_venues(),
            r.spec_amazingness() == self.spec_amazingness(),
    {
        let mut t = self;
        t.owned_goods.set(good, qty);
        t
    }

    /// Appends a sample of every venue and of the ledger.
    fn save_data(&mut self)
        ensures
            final(self).same_books(*old(self)),
            final(self).spec_venues() == old(self).spec_venues(),
            one_sample_added(
                old(self).spec_samples(),
                final(self).spec_samples(),
                old(self).spec_ledger(),
                old(self).spec_ids(),
            ),
    {
        let mut venues: Vec<VenueSample> = Vec::new();
        let mut i: usize = 0;
        while i < self.markets.len()
            invariant
                i <= self.markets@.len(),
                venues@.len() == i,
                forall|j: int|
                    0 <= j < i ==> (#[trigger] venues@[j]).market == self.spec_ids()[j]
                        && venues@[j].wf(),
            decreases self.markets@.len() - i,
        {
            let s = sample_venue(self.markets[i].0, &self.markets[i].1);
            venues.push(s);
            i = i + 1;
        }
        let sample = Sample { venues, ledger: self.owned_goods.balances() };
        let ghost old_data = self.data@;
        self.data.push(sample);
        assert(self.data@.subrange(0, old_data.len() as int) =~= old_data);
    }

    /// The names of the registered venues, in the order of registration.
    pub fn market_ids(&self) -> (r: Vec<MarketKind>)
        ensures
            r@ == self.spec_ids(),
    {
        let mut r: Vec<MarketKind> = Vec::new();
        let mut i: usize = 0;
        while i < self.markets.len()
            invariant
                i <= self.markets@.len(),
                r@ == self.spec_ids().subrange(0, i as int),
            decreases self.markets@.len() - i,
        {
            r.push(self.markets[i].0);
            i = i + 1;
            assert(r@ =~= self.spec_ids().subrange(0, i as int));
        }
        assert(r@ =~= self.spec_ids());
        r
    }

    /// The samples recorded so far, oldest first.
    pub fn get_data(&self) -> (r: &Vec<Sample>)
        ensures
            r@ == self.spec_samples(),
    {
        &self.data
    }

    pub fn get_owned_good_qty(&self, kind: GoodKind) -> (r: u64)
        ensures
            r == self.spec_ledger().spec_balance(kind),
    {
        self.owned_goods.balance(kind)
    }

    /// Every balance, in the order of `all_kinds()`.
    pub fn get_goods(&self) -> (r: Vec<Good>)
        ensures
            r@.len() == spec_all_kinds().len(),
            forall|i: int|
                0 <= i < r@.len() ==> (#[trigger] r@[i]).kind == spec_all_kinds()[i]
                    && r@[i].quantity == self.spec_ledger().spec_balance(spec_all_kinds()[i]),
    {
        let kinds = all_kinds();
        let mut r: Vec<Good> = Vec::new();
        let mut i: usize = 0;
        while i < kinds.len()
            invariant
                kinds@ == spec_all_kinds(),
                i <= kinds@.len(),
                r@.len() == i,
                forall|j: int|
                    0 <= j < i ==> (#[trigger] r@[j]).kind == spec_all_kinds()[j]
                        && r@[j].quantity == self.spec_ledger().spec_balance(spec_all_kinds()[j]),
            decreases kinds@.len() - i,
        {
            let kind = kinds[i];
            r.push(Good { kind, quantity: self.owned_goods.balance(kind) });
            i = i + 1;
        }
        r
    }

    /// The ledger valued in base currency at `rates`.
    pub fn get_capital(&self, rates: &ExchangeRates) -> (r: u128)
        requires
            rates.wf(),
        ensures
            r as int == self.spec_ledger().spec_capital(*rates),
    {
        self.owned_goods.capital(rates)
    }

    /// The venue registered under `market`.
    pub fn get_market(&self, market: MarketKind) -> (r: Result<&V, TraderSupplyError>)
        ensures
            r is Err <==> !self.spec_has_market(market),
            r is Err ==> r == Err::<&V, TraderSupplyError>(TraderSupplyError::MarketNotFound),
            r matches Ok(v) ==> exists|i: int|
                0 <= i < self.spec_venues().len() && self.spec_venues()[i] == (market, *v),
    {
        match self.find_market(market) {
            Some(i) => {
                let v = &self.markets[i].1;
                assert(self.spec_venues()[i as int] == (market, *v));
                Ok(v)
            },
            None => Err(TraderSupplyError::MarketNotFound),
        }
    }
}

/// What a purchase does to the books, given how it ended.
pub open spec fn buy_outcome(
    old: Ledger,
    new: Ledger,
    kind: GoodKind,
    r: Result<Fill, TraderSupplyError>,
) -> bool {
    match r {
        Ok(fill) => fill.paid <= old.spec_balance(GoodKind::EUR) && new == old.spec_exchange(
            GoodKind::EUR,
            fill.paid,
            kind,
            fill.received,
        ),
        Err(TraderSupplyError::TraderInsufficientFunds) => new.spec_balance(GoodKind::EUR)
            <= old.spec_balance(GoodKind::EUR) && new == old.spec_set(
            GoodKind::EUR,
            new.spec_balance(GoodKind::EUR),
        ),
        Err(TraderSupplyError::GoodsNotFound) => false,
        Err(_) => new == old,
    }
}

/// What a sale of `quantity` does to the books, given how it ended.
pub open spec fn sell_outcome(
    old: Ledger,
    new: Ledger,
    kind: GoodKind,
    quantity: u64,
    r: Result<Fill, TraderDemandError>,
) -> bool {
    match r {
        Ok(fill) => fill.paid == quantity && quantity <= old.spec_balance(kind) && new
            == old.spec_exchange(kind, quantity, GoodKind::EUR, fill.received),
        Err(TraderDemandError::TraderInsufficientGoods) => new == old || (quantity
            <= old.spec_balance(kind) && new == old.spec_set(
            kind,
            (old.spec_balance(kind) - quantity) as u64,
        )),
        Err(_) => new == old,
    }
}

// The two-phase transaction engine.
impl<V: Venue, S> Trader<V, S> {
    /// Buys `amount` of `kind` from `market`: quotes the price, reserves the
    /// trade at that price, takes the price from the base-currency balance,
    /// and settles. The goods delivered are added to the balance of `kind`
    /// and a sample is recorded.
    ///
    /// A venue that is not registered gives `MarketNotFound`; a quote or a
    /// reservation the venue declines gives `MarketInsufficientSupply`;
    /// both leave the ledger as it was. A base-currency balance below the
    /// price, or a settlement the venue refuses, gives
    /// `TraderInsufficientFunds`: in the second case the price has been
    /// paid and is not given back. No failure records a sample.
    pub fn execute_buy(&mut self, market: MarketKind, kind: GoodKind, amount: u64) -> (r: Result<
        Fill,
        TraderSupplyError,
    >)
        ensures
            final(self).spec_ids() == old(self).spec_ids(),
            final(self).spec_strategy() == old(self).spec_strategy(),
            final(self).spec_modified() == old(self).spec_modified(),
            final(self).spec_amazingness() == old(self).spec_amazingness(),
            r == Err::<Fill, TraderSupplyError>(TraderSupplyError::MarketNotFound)
                <==> !old(self).spec_has_market(market),
            !old(self).spec_has_market(market) ==> *final(self) == *old(self),
            buy_outcome(old(self).spec_ledger(), final(self).spec_ledger(), kind, r),
            r is Err ==> final(self).spec_samples() == old(self).spec_samples(),
            r is Ok ==> one_sample_added(
                old(self).spec_samples(),
                final(self).spec_samples(),
                final(self).spec_ledger(),
                final(self).spec_ids(),
            ),
    {
        let i = match self.find_market(market) {
            Some(i) => i,
            None => return Err(TraderSupplyError::MarketNotFound),
        };
        let ghost ids = self.spec_ids();
        let price = match self.markets[i].1.quote_buy(kind, amount) {
            Ok(p) => p,
            Err(e) => return Err(TraderSupplyError::from(e)),
        };
        let token = match self.markets[i].1.lock_buy(kind, amount, price, TRADER_NAME.to_owned()) {
            Ok(t) => t,
            Err(e) => {
                assert(self.spec_ids() =~= ids);
                return Err(TraderSupplyError::from(e));
            },
        };
        assert(self.spec_ids() =~= ids);
        match self.owned_goods.debit(GoodKind::EUR, price) {
            Ok(()) => {},
            Err(_) => return Err(TraderSupplyError::TraderInsufficientFunds),
        }
        let received = match self.markets[i].1.confirm_buy(token, price) {
            Ok(g) => g,
            Err(e) => {
                assert(self.spec_ids() =~= ids);
                return Err(TraderSupplyError::from(e));
            },
        };
        assert(self.spec_ids() =~= ids);
        self.owned_goods.deposit(kind, received);
        self.save_data();
        Ok(Fill { paid: price, received })
    }

    /// `execute_buy`, giving the quantity delivered.
    pub fn buy(&mut self, market: MarketKind, kind: GoodKind, amount: u64) -> (r: Result<
        u64,
        TraderSupplyError,
    >)
        ensures
            final(self).spec_ids() == old(self).spec_ids(),
            final(self).spec_strategy() == old(self).spec_strategy(),
            final(self).spec_modified() == old(self).spec_modified(),
            r == Err::<u64, TraderSupplyError>(TraderSupplyError::MarketNotFound)
                <==> !old(self).spec_has_market(market),
            !old(self).spec_has_market(market) ==> *final(self) == *old(self),
            r is Err ==> final(self).spec_samples() == old(self).spec_samples(),
            r is Err ==> buy_outcome(
                old(self).spec_ledger(),
                final(self).spec_ledger(),
                kind,
                Err(r->Err_0),
            ),
            r matches Ok(received) ==> exists|fill: Fill|
                fill.received == received && #[trigger] buy_outcome(
                    old(self).spec_ledger(),
                    final(self).spec_ledger(),
                    kind,
                    Ok(fill),
                ),
            r is Ok ==> one_sample_added(
                old(self).spec_samples(),
                final(self).spec_samples(),
                final(self).spec_ledger(),
                final(self).spec_ids(),
            ),
    {
        let ghost before = self.spec_ledger();
        match self.execute_buy(market, kind, amount) {
            Ok(fill) => {
                assert(buy_outcome(before, self.spec_ledger(), kind, Ok(fill)));
                Ok(fill.received)
            },
            Err(e) => Err(e),
        }
    }

    /// Quotes and reserves the purchase of `amount` of `kind` at `market`
    /// without settling it; gives the token and the price, and records a
    /// sample. The ledger is not touched. Failures are those of the first
    /// two steps of `execute_buy`, and record nothing.
    pub fn lock_without_buying(&mut self, market: MarketKind, kind: GoodKind, amount: u64) -> (r:
        Result<(String, u64), TraderSupplyError>)
        ensures
            final(self).same_books(*old(self)),
            r matches Err(e) ==> e == TraderSupplyError::MarketNotFound || e
                == TraderSupplyError::MarketInsufficientSupply,
            r == Err::<(String, u64), TraderSupplyError>(TraderSupplyError::MarketNotFound)
                <==> !old(self).spec_has_market(market),
            !old(self).spec_has_market(market) ==> *final(self) == *old(self),
            r is Err ==> final(self).spec_samples() == old(self).spec_samples(),
            r is Ok ==> one_sample_added(
                old(self).spec_samples(),
                final(self).spec_samples(),
                final(self).spec_ledger(),
                final(self).spec_ids(),
            ),
    {
        let i = match self.find_market(market) {
            Some(i) => i,
            None => return Err(TraderSupplyError::MarketNotFound),
        };
        let ghost ids = self.spec_ids();
        let price = match self.markets[i].1.quote_buy(kind, amount) {
            Ok(p) => p,
            Err(e) => return Err(TraderSupplyError::from(e)),
        };
        let token = match self.markets[i].1.lock_buy(kind, amount, price, TRADER_NAME.to_owned()) {
            Ok(t) => t,
            Err(e) => {
                assert(self.spec_ids() =~= ids);
                return Err(TraderSupplyError::from(e));
            },
        };
        assert(self.spec_ids() =~= ids);
        self.save_data();
        Ok((token, price))
    }

    /// Sells `amount` of `kind` to `market`: quotes what the venue pays,
    /// reserves the trade at that price, takes `amount` from the balance of
    /// `kind`, and settles. The currency paid is added to the base-currency
    /// balance and a sample is recorded.
    ///
    /// A venue that is not registered gives `MarketNotFound`; a quote or a
    /// reservation the venue declines gives `MarketInsufficientFunds`; both
    /// leave the ledger as it was. A balance of `kind` below `amount`, or a
    /// settlement the venue refuses, gives `TraderInsufficientGoods`: in the
    /// second case the goods have been handed over and are not given back.
    /// No failure records a sample.
    pub fn execute_sell(&mut self, market: MarketKind, kind: GoodKind, amount: u64) -> (r: Result<
        Fill,
        TraderDemandError,
    >)
        ensures
            final(self).spec_ids() == old(self).spec_ids(),
            final(self).spec_strategy() == old(self).spec_strategy(),
            final(self).spec_modified() == old(self).spec_modified(),
            final(self).spec_amazingness() == old(self).spec_amazingness(),
            r == Err::<Fill, TraderDemandError>(TraderDemandError::MarketNotFound)
                <==> !old(self).spec_has_market(market),
            !old(self).spec_has_market(market) ==> *final(self) == *old(self),
            sell_outcome(old(self).spec_ledger(), final(self).spec_ledger(), kind, amount, r),
            r is Err ==> final(self).spec_samples() == old(self).spec_samples(),
            r is Ok ==> one_sample_added(
                old(self).spec_samples(),
                final(self).spec_samples(),
                final(self).spec_ledger(),
                final(self).spec_ids(),
            ),
    {
        let i = match self.find_market(market) {
            Some(i) => i,
            None => return Err(TraderDemandError::MarketNotFound),
        };
        let ghost ids = self.spec_ids();
        let price = match self.markets[i].1.quote_sell(kind, amount) {
            Ok(p) => p,
            Err(e) => return Err(TraderDemandError::from(e)),
        };
        let token = match self.markets[i].1.lock_sell(kind, amount, price, TRADER_NAME.to_owned()) {
            Ok(t) => t,
            Err(e) => {
                assert(self.spec_ids() =~= ids);
                return Err(TraderDemandError::from(e));
            },
        };
        assert(self.spec_ids() =~= ids);
        match self.owned_goods.debit(kind, amount) {
            Ok(()) => {},
            Err(_) => return Err(TraderDemandError::TraderInsufficientGoods),
        }
        let received = match self.markets[i].1.confirm_sell(token, amount) {
            Ok(m) => m,
            Err(e) => {
                assert(self.spec_ids() =~= ids);
                return Err(TraderDemandError::from(e));
            },
        };
        assert(self.spec_ids() =~= ids);
        self.owned_goods.deposit(GoodKind::EUR, received);
        self.save_data();
        Ok(Fill { paid: amount, received })
    }

    /// `execute_sell`, giving the base currency received.
    pub fn sell(&mut self, market: MarketKind, kind: GoodKind, amount: u64) -> (r: Result<
        u64,
        TraderDemandError,
    >)
        ensures
            final(self).spec_ids() == old(self).spec_ids(),
            final(self).spec_strategy() == old(self).spec_strategy(),
            final(self).spec_modified() == old(self).spec_modified(),
            r == Err::<u64, TraderDemandError>(TraderDemandError::MarketNotFound)
                <==> !old(self).spec_has_market(market),
            !old(self).spec_has_market(market) ==> *final(self) == *old(self),
            r is Err ==> final(self).spec_samples() == old(self).spec_samples(),
            r is Err ==> sell_outcome(
                old(self).spec_ledger(),
                final(self).spec_ledger(),
                kind,
                amount,
                Err(r->Err_0),
            ),
            r matches Ok(received) ==> sell_outcome(
                old(self).spec_ledger(),
                final(self).spec_ledger(),
                kind,
                amount,
                Ok(Fill { paid: amount, received }),
            ),
            r is Ok ==> one_sample_added(
                old(self).spec_samples(),
                final(self).spec_samples(),
                final(self).spec_ledger(),
                final(self).spec_ids(),
            ),
    {
        match self.execute_sell(market, kind, amount) {
            Ok(fill) => Ok(fill.received),
            Err(e) => Err(e),
        }
    }

    /// Quotes and reserves the sale of `amount` of `kind` to `market` without
    /// settling it; gives the token and the price, and records a sample. The
    /// ledger is not touched. Failures are those of the first two steps of
    /// `execute_sell`, and record nothing.
    pub fn lock_without_selling(&mut self, market: MarketKind, kind: GoodKind, amount: u64) -> (r:
        Result<(String, u64), TraderDemandError>)
        ensures
            final(self).same_books(*old(self)),
            r matches Err(e) ==> e == TraderDemandError::MarketNotFound || e
                == TraderDemandError::MarketInsufficientFunds,
            r == Err::<(String, u64), TraderDemandError>(TraderDemandError::MarketNotFound)
                <==> !old(self).spec_has_market(market),
            !old(self).spec_has_market(market) ==> *final(self) == *old(self),
            r is Err ==> final(self).spec_samples() == old(self).spec_samples(),
            r is Ok ==> one_sample_added(
                old(self).spec_samples(),
                final(self).spec_samples(),
                final(self).spec_ledger(),
                final(self).spec_ids(),
            ),
    {
        let i = match self.find_market(market) {
            Some(i) => i,
            None => return Err(TraderDemandError::MarketNotFound),
        };
        let ghost ids = self.spec_ids();
        let price = match self.markets[i].1.quote_sell(kind, amount) {
            Ok(p) => p,
            Err(e) => return Err(TraderDemandError::from(e)),
        };
        let token = match self.markets[i].1.lock_sell(kind, amount, price, TRADER_NAME.to_owned()) {
            Ok(t) => t,
            Err(e) => {
                assert(self.spec_ids() =~= ids);
                return Err(TraderDemandError::from(e));
            },
        };
        assert(self.spec_ids() =~= ids);
        self.save_data();
        Ok((token, price))
    }
}

// Prices, venue selection and the logical clock.
impl<V: Venue, S> Trader<V, S> {
    /// What buying `quantity` of `kind` from `market` costs.
    pub fn get_supply_price_qt(&self, market: MarketKind, kind: GoodKind, quantity: u64) -> (r:
        Result<u64, TraderSupplyError>)
        ensures
            r == Err::<u64, TraderSupplyError>(TraderSupplyError::MarketNotFound)
                <==> !self.spec_has_market(market),
            r matches Err(e) ==> e == TraderSupplyError::MarketNotFound || e
                == TraderSupplyError::MarketInsufficientSupply,
    {
        let i = match self.find_market(market) {
            Some(i) => i,
            None => return Err(TraderSupplyError::MarketNotFound),
        };
        match self.markets[i].1.quote_buy(kind, quantity) {
            Ok(p) => Ok(p),
            Err(e) => Err(TraderSupplyError::from(e)),
        }
    }

    /// What buying `DEFAULT_TRANSACTION_AMOUNT` of `kind` from `market` costs.
    pub fn get_supply_price(&self, market: MarketKind, kind: GoodKind) -> (r: Result<
        u64,
        TraderSupplyError,
    >)
        ensures
            r == Err::<u64, TraderSupplyError>(TraderSupplyError::MarketNotFound)
                <==> !self.spec_has_market(market),
            r matches Err(e) ==> e == TraderSupplyError::MarketNotFound || e
                == TraderSupplyError::MarketInsufficientSupply,
    {
        self.get_supply_price_qt(market, kind, DEFAULT_TRANSACTION_AMOUNT)
    }

    /// What `market` pays for `quantity` of `kind`.
    pub fn get_demand_price_qt(&self, market: MarketKind, kind: GoodKind, quantity: u64) -> (r:
        Result<u64, TraderDemandError>)
        ensures
            r == Err::<u64, TraderDemandError>(TraderDemandError::MarketNotFound)
                <==> !self.spec_has_market(market),
            r matches Err(e) ==> e == TraderDemandError::MarketNotFound || e
                == TraderDemandError::MarketInsufficientFunds,
    {
        let i = match self.find_market(market) {
            Some(i) => i,
            None => return Err(TraderDemandError::MarketNotFound),
        };
        match self.markets[i].1.quote_sell(kind, quantity) {
            Ok(p) => Ok(p),
            Err(e) => Err(TraderDemandError::from(e)),
        }
    }

    /// What `market` pays for `DEFAULT_TRANSACTION_AMOUNT` of `kind`.
    pub fn get_demand_price(&self, market: MarketKind, kind: GoodKind) -> (r: Result<
        u64,
        TraderDemandError,
    >)
        ensures
            r == Err::<u64, TraderDemandError>(TraderDemandError::MarketNotFound)
                <==> !self.spec_has_market(market),
            r matches Err(e) ==> e == TraderDemandError::MarketNotFound || e
                == TraderDemandError::MarketInsufficientFunds,
    {
        self.get_demand_price_qt(market, kind, DEFAULT_TRANSACTION_AMOUNT)
    }

    /// Every venue's price for selling it `quantity` of `kind`, with its
    /// budget, in the order of registration.
    pub fn sell_quotes(&self, kind: GoodKind, quantity: u64) -> (r: Vec<Quote>)
        ensures
            quotes_cover(r@, self.spec_ids()),
    {
        let mut r: Vec<Quote> = Vec::new();
        let mut i: usize = 0;
        while i < self.markets.len()
            invariant
                i <= self.markets@.len(),
                r@.len() == i,
                forall|j: int| 0 <= j < i ==> (#[trigger] r@[j]).market == self.spec_ids()[j],
            decreases self.markets@.len() - i,
        {
            let venue = &self.markets[i].1;
            let price = venue.quote_sell(kind, quantity);
            let budget = venue.budget();
            r.push(Quote { market: self.markets[i].0, price, budget });
            i = i + 1;
        }
        r
    }

    /// Every venue's price for buying `quantity` of `kind` from it, with its
    /// budget, in the order of registration.
    pub fn buy_quotes(&self, kind: GoodKind, quantity: u64) -> (r: Vec<Quote>)
        ensures
            quotes_cover(r@, self.spec_ids()),
    {
        let mut r: Vec<Quote> = Vec::new();
        let mut i: usize = 0;
        while i < self.markets.len()
            invariant
                i <= self.markets@.len(),
                r@.len() == i,
                forall|j: int| 0 <= j < i ==> (#[trigger] r@[j]).market == self.spec_ids()[j],
            decreases self.markets@.len() - i,
        {
            let venue = &self.markets[i].1;
            let price = venue.quote_buy(kind, quantity);
            let budget = venue.budget();
            r.push(Quote { market: self.markets[i].0, price, budget });
            i = i + 1;
        }
        r
    }

    /// The registered venue that pays the most for `quantity` of `kind`
    /// among those whose budget covers their own quote, over the quotes that
    /// `sell_quotes` gathers (see `pick_best_buyer`); `None` exactly where no
    /// gathered quote is covered by its venue's budget.
    pub fn best_buyer_for(&self, kind: GoodKind, quantity: u64) -> (r: Option<MarketKind>)
        ensures
            r matches Some(m) ==> self.spec_has_market(m),
            self.spec_ids().len() == 0 ==> r is None,
            exists|qs: Seq<Quote>|
                #[trigger] quotes_cover(qs, self.spec_ids()) && best_buyer_choice(qs, r),
    {
        let quotes = self.sell_quotes(kind, quantity);
        let r = pick_best_buyer(&quotes);
        proof {
            if let Some(m) = r {
                let j = choose|j: int| is_best_buyer_at(quotes@, j, m);
                assert(self.spec_ids()[j] == m);
            }
            assert(quotes_cover(quotes@, self.spec_ids()));
        }
        r
    }

    /// `best_buyer_for` with `DEFAULT_TRANSACTION_AMOUNT`.
    pub fn best_buyer(&self, kind: GoodKind) -> (r: Option<MarketKind>)
        ensures
            r matches Some(m) ==> self.spec_has_market(m),
            self.spec_ids().len() == 0 ==> r is None,
            exists|qs: Seq<Quote>|
                #[trigger] quotes_cover(qs, self.spec_ids()) && best_buyer_choice(qs, r),
    {
        self.best_buyer_for(kind, DEFAULT_TRANSACTION_AMOUNT)
    }

    /// The registered venue that charges the least for `quantity` of `kind`,
    /// over the quotes that `buy_quotes` gathers (see
    /// `pick_cheapest_supplier`); `None` exactly where no venue quotes.
    pub fn cheapest_supplier_for(&self, kind: GoodKind, quantity: u64) -> (r: Option<MarketKind>)
        ensures
            r matches Some(m) ==> self.spec_has_market(m),
            self.spec_ids().len() == 0 ==> r is None,
            exists|qs: Seq<Quote>|
                #[trigger] quotes_cover(qs, self.spec_ids()) && cheapest_supplier_choice(qs, r),
    {
        let quotes = self.buy_quotes(kind, quantity);
        let r = pick_cheapest_supplier(&quotes);
        proof {
            if let Some(m) = r {
                let j = choose|j: int| is_cheapest_supplier_at(quotes@, j, m);
                assert(self.spec_ids()[j] == m);
            }
            assert(quotes_cover(quotes@, self.spec_ids()));
        }
        r
    }

    /// `cheapest_supplier_for` with `DEFAULT_TRANSACTION_AMOUNT`.
    pub fn cheapest_supplier(&self, kind: GoodKind) -> (r: Option<MarketKind>)
        ensures
            r matches Some(m) ==> self.spec_has_market(m),
            self.spec_ids().len() == 0 ==> r is None,
            exists|qs: Seq<Quote>|
                #[trigger] quotes_cover(qs, self.spec_ids()) && cheapest_supplier_choice(qs, r),
    {
        self.cheapest_supplier_for(kind, DEFAULT_TRANSACTION_AMOUNT)
    }

    /// The quantity of `kind` that `market` reports holding; 0 where the
    /// venue is not registered or reports none.
    pub fn get_good_qty(&self, market: MarketKind, kind: GoodKind) -> (r: u64)
        ensures
            !self.spec_has_market(market) ==> r == 0,
    {
        match self.find_market(market) {
            Some(i) => {
                let labels = self.markets[i].1.inventory();
                quantity_in(&labels, kind)
            },
            None => 0,
        }
    }

    /// One logical day passes at every venue; then a sample is recorded.
    pub fn wait(&mut self)
        ensures
            final(self).same_books(*old(self)),
            one_sample_added(
                old(self).spec_samples(),
                final(self).spec_samples(),
                old(self).spec_ledger(),
                old(self).spec_ids(),
            ),
    {
        let ghost start = *self;
        let mut i: usize = 0;
        while i < self.markets.len()
            invariant
                i <= self.markets@.len(),
                self.same_books(start),
                self.spec_samples() == start.spec_samples(),
            decreases self.markets@.len() - i,
        {
            let ghost ids = self.spec_ids();
            self.markets[i].1.advance_time();
            assert(self.spec_ids() =~= ids);
            i = i + 1;
        }
        self.save_data();
    }

    /// `days` times: `wait`, then one more sample.
    pub fn wait_for(&mut self, days: u32)
        ensures
            final(self).same_books(*old(self)),
            final(self).spec_samples().len() == old(self).spec_samples().len() + 2 * days,
            final(self).spec_samples().subrange(0, old(self).spec_samples().len() as int) == old(
                self,
            ).spec_samples(),
    {
        let ghost start = *self;
        let mut d: u32 = 0;
        while d < days
            invariant
                d <= days,
                self.same_books(start),
                self.spec_samples().len() == start.spec_samples().len() + 2 * d,
                self.spec_samples().subrange(0, start.spec_samples().len() as int)
                    == start.spec_samples(),
            decreases days - d,
        {
            let ghost before = self.spec_samples();
            self.wait();
            self.save_data();
            assert(self.spec_samples().subrange(0, start.spec_samples().len() as int)
                =~= before.subrange(0, start.spec_samples().len() as int));
            d = d + 1;
        }
    }
}

// Liquidation, and the decisions of the strategy runner.
impl<V: Venue, S> Trader<V, S> {
    /// Sells every balance other than the base currency, in chunks of at
    /// most `BAILOUT_CHUNK`, each to the venue that `best_buyer_for` picks
    /// for it. Stops at the first chunk that finds no buyer
    /// (`MarketInsufficientFunds`) or whose sale fails (that error).
    pub fn bailout(&mut self) -> (r: Result<(), TraderDemandError>)
        ensures
            final(self).spec_ids() == old(self).spec_ids(),
            final(self).spec_strategy() == old(self).spec_strategy(),
            final(self).spec_modified() == old(self).spec_modified(),
            r is Ok ==> forall|k: GoodKind|
                !k.is_base() ==> #[trigger] final(self).spec_ledger().spec_balance(k) == 0,
            final(self).spec_ledger().spec_balance(GoodKind::EUR) >= old(self).spec_ledger().spec_balance(
                GoodKind::EUR,
            ),
    {
        let kinds = traded_kinds();
        let mut j: usize = 0;
        while j < kinds.len()
            invariant
                kinds@ == spec_traded_kinds(),
                j <= kinds@.len(),
                self.spec_ids() == old(self).spec_ids(),
                self.spec_strategy() == old(self).spec_strategy(),
                self.spec_modified() == old(self).spec_modified(),
                self.spec_ledger().spec_balance(GoodKind::EUR) >= old(self).spec_ledger().spec_balance(
                    GoodKind::EUR,
                ),
                forall|jj: int|
                    0 <= jj < j ==> self.spec_ledger().spec_balance(
                        #[trigger] spec_traded_kinds()[jj],
                    ) == 0,
            decreases kinds@.len() - j,
        {
            let kind = kinds[j];
            let mut amount = self.owned_goods.balance(kind);
            while amount > 0
                invariant
                    kind == spec_traded_kinds()[j as int],
                    0 <= j < 3,
                    amount == self.spec_ledger().spec_balance(kind),
                    self.spec_ids() == old(self).spec_ids(),
                    self.spec_strategy() == old(self).spec_strategy(),
                    self.spec_modified() == old(self).spec_modified(),
                    self.spec_ledger().spec_balance(GoodKind::EUR) >= old(
                        self,
                    ).spec_ledger().spec_balance(GoodKind::EUR),
                    forall|jj: int|
                        0 <= jj < j ==> self.spec_ledger().spec_balance(
                            #[trigger] spec_traded_kinds()[jj],
                        ) == 0,
                decreases amount,
            {
                let chunk = if amount < BAILOUT_CHUNK {
                    amount
                } else {
                    BAILOUT_CHUNK
                };
                let buyer = match self.best_buyer_for(kind, chunk) {
                    Some(m) => m,
                    None => return Err(TraderDemandError::MarketInsufficientFunds),
                };
                match self.sell(buyer, kind, chunk) {
                    Ok(_) => {},
                    Err(e) => return Err(e),
                }
                amount = amount - chunk;
            }
            j = j + 1;
        }
        proof {
            assert(spec_traded_kinds()[0] == GoodKind::USD);
            assert(spec_traded_kinds()[1] == GoodKind::YEN);
            assert(spec_traded_kinds()[2] == GoodKind::YUAN);
        }
        Ok(())
    }

    /// Installs the strategy to run, and marks that it changed.
    pub fn set_strategy(&mut self, function: S)
        ensures
            final(self).spec_strategy() == Some(function),
            final(self).spec_modified(),
            final(self).same_run_state(*old(self)),
    {
        self.strategy = Some(function);
        self.strategy_just_modified = true;
    }

    /// Hands the installed strategy out for one invocation, leaving the slot
    /// empty and the change mark cleared, so that the invocation may install
    /// another.
    pub fn take_strategy(&mut self) -> (r: Option<S>)
        ensures
            r == old(self).spec_strategy(),
            final(self).spec_strategy() is None,
            !final(self).spec_modified(),
            final(self).same_run_state(*old(self)),
    {
        self.strategy_just_modified = false;
        self.strategy.take()
    }

    /// Whether a run of `iterations` goes on after `completed` of them.
    pub fn should_run(completed: i32, iterations: i32) -> (r: bool)
        ensures
            r == spec_should_run(completed as int, iterations as int),
    {
        completed < iterations
    }

    /// Ends one invocation of `invoked`, the strategy that `take_strategy`
    /// handed out, and gives the new count of completed iterations. Where the
    /// invocation installed another strategy, that one stays, the mark is
    /// cleared and the count does not move: the new strategy gets a run of
    /// its own. Otherwise `invoked` goes back in the slot and the count
    /// advances by one.
    pub fn finish_invocation(&mut self, invoked: Option<S>, completed: i32) -> (r: i32)
        requires
            completed < i32::MAX,
        ensures
            r == spec_next_count(old(self).spec_modified(), completed as int),
            final(self).spec_strategy() == spec_next_strategy(
                old(self).spec_modified(),
                old(self).spec_strategy(),
                invoked,
            ),
            !final(self).spec_modified(),
            final(self).same_run_state(*old(self)),
    {
        if self.strategy_just_modified {
            self.strategy_just_modified = false;
            completed
        } else {
            self.strategy = invoked;
            completed + 1
        }
    }
}

/// The count of completed iterations after an invocation: unchanged where
/// the invocation installed a strategy, one more otherwise.
pub open spec fn spec_next_count(modified: bool, completed: int) -> int {
    if modified {
        completed
    } else {
        completed + 1
    }
}

/// The strategy installed after an invocation of `invoked`: the one the
/// invocation installed, if it did, else `invoked` again.
pub open spec fn spec_next_strategy<S>(
    modified: bool,
    installed: Option<S>,
    invoked: Option<S>,
) -> Option<S> {
    if modified {
        installed
    } else {
        invoked
    }
}

/// A strategy installed from within a running invocation (the state that
/// `set_strategy` leaves, which trades and waits keep) is the one that runs
/// next, and its run does not use up an iteration of the run that was going
/// on.
pub proof fn lemma_handoff_starts_fresh<V: Venue, S>(
    during: Trader<V, S>,
    invoked: Option<S>,
    next: S,
    completed: int,
)
    requires
        during.spec_strategy() == Some(next),
        during.spec_modified(),
    ensures
        spec_next_count(during.spec_modified(), completed) == completed,
        spec_next_strategy(during.spec_modified(), during.spec_strategy(), invoked) == Some(next),
{
}

/// An invocation that installs nothing (the state that `take_strategy`
/// leaves, which trades and waits keep) uses up one iteration, and the
/// strategy it ran is put back.
pub proof fn lemma_plain_invocation_counts<V: Venue, S>(
    during: Trader<V, S>,
    invoked: Option<S>,
    completed: int,
)
    requires
        !during.spec_modified(),
    ensures
        spec_next_count(during.spec_modified(), completed) == completed + 1,
        spec_next_strategy(during.spec_modified(), during.spec_strategy(), invoked) == invoked,
{
}

/// A run of `iterations` goes on while fewer have been completed.
pub open spec fn spec_should_run(completed: int, iterations: int) -> bool {
    completed < iterations
}

/// A run of zero iterations (or fewer) invokes nothing: it stops before the
/// first invocation.
pub proof fn lemma_zero_iterations_invoke_nothing(iterations: int)
    requires
        iterations <= 0,
    ensures
        !spec_should_run(0, iterations),
{
}

/// A completed purchase moves exactly the amounts of its fill: the price
/// leaves the base currency, the goods delivered arrive, nothing else moves;
/// so capital at any reference rates changes only by the goods' reference
/// value less the price. (Deposits are capped at `u64::MAX`, so the sum must
/// fit.)
pub proof fn lemma_buy_moves_exact_amounts(
    old: Ledger,
    new: Ledger,
    kind: GoodKind,
    fill: Fill,
    rates: ExchangeRates,
)
    requires
        buy_outcome(old, new, kind, Ok(fill)),
        old.spec_balance(kind) - (if kind.is_base() { fill.paid as int } else { 0 }) + fill.received
            <= u64::MAX,
        rates.wf(),
    ensures
        !kind.is_base() ==> {
            &&& new.spec_balance(GoodKind::EUR) == old.spec_balance(GoodKind::EUR) - fill.paid
            &&& new.spec_balance(kind) == old.spec_balance(kind) + fill.received
            &&& forall|k: GoodKind|
                k != kind && !k.is_base() ==> #[trigger] new.spec_balance(k) == old.spec_balance(k)
            &&& new.spec_capital(rates) == old.spec_capital(rates) - fill.paid + spec_value_in_base(
                new.spec_balance(kind) as int,
                kind,
                rates,
            ) - spec_value_in_base(old.spec_balance(kind) as int, kind, rates)
        },
        kind.is_base() ==> {
            &&& new.spec_balance(GoodKind::EUR) == old.spec_balance(GoodKind::EUR) - fill.paid
                + fill.received
            &&& forall|k: GoodKind| !k.is_base() ==> #[trigger] new.spec_balance(k) == old.spec_balance(k)
        },
{
}

/// A completed sale moves exactly the amounts of its fill: the quantity sold
/// leaves its kind, the currency paid arrives in the base currency, nothing
/// else moves; so capital at any reference rates changes only by the
/// currency received less the goods' reference value. (Deposits are capped
/// at `u64::MAX`, so the sum must fit.)
pub proof fn lemma_sell_moves_exact_amounts(
    old: Ledger,
    new: Ledger,
    kind: GoodKind,
    quantity: u64,
    fill: Fill,
    rates: ExchangeRates,
)
    requires
        sell_outcome(old, new, kind, quantity, Ok(fill)),
        old.spec_balance(GoodKind::EUR) - (if kind.is_base() { quantity as int } else { 0 })
            + fill.received <= u64::MAX,
        rates.wf(),
    ensures
        fill.paid == quantity,
        !kind.is_base() ==> {
            &&& new.spec_balance(kind) == old.spec_balance(kind) - quantity
            &&& new.spec_balance(GoodKind::EUR) == old.spec_balance(GoodKind::EUR) + fill.received
            &&& forall|k: GoodKind|
                k != kind && !k.is_base() ==> #[trigger] new.spec_balance(k) == old.spec_balance(k)
            &&& new.spec_capital(rates) == old.spec_capital(rates) + fill.received
                + spec_value_in_base(new.spec_balance(kind) as int, kind, rates)
                - spec_value_in_base(old.spec_balance(kind) as int, kind, rates)
        },
        kind.is_base() ==> {
            &&& new.spec_balance(GoodKind::EUR) == old.spec_balance(GoodKind::EUR) - quantity
                + fill.received
            &&& forall|k: GoodKind| !k.is_base() ==> #[trigger] new.spec_balance(k) == old.spec_balance(k)
        },
{
}

/// Sample sets of which each is the one before with one sample added.
pub open spec fn one_sample_each(sets: Seq<Seq<Sample>>) -> bool {
    forall|i: int|
        0 <= i < sets.len() - 1 ==> #[trigger] sets[i + 1].len() == sets[i].len() + 1
}

/// After `n` operations that each record one sample, there are exactly `n`
/// more samples: `k` purchases or sales and `k` calls of `wait` record `2k`.
pub proof fn lemma_samples_count(sets: Seq<Seq<Sample>>)
    requires
        sets.len() >= 1,
        one_sample_each(sets),
    ensures
        sets.last().len() == sets[0].len() + sets.len() - 1,
    decreases sets.len(),
{
    if sets.len() > 1 {
        let shorter = sets.drop_last();
        assert forall|i: int| 0 <= i < shorter.len() - 1 implies #[trigger] shorter[i + 1].len()
            == shorter[i].len() + 1 by {
            assert(sets[i + 1].len() == sets[i].len() + 1);
        }
        lemma_samples_count(shorter);
        let i = sets.len() - 2;
        assert(sets[i + 1].len() == sets[i].len() + 1);
        assert(shorter.last() == sets[i]);
    }
}

} // verus!
