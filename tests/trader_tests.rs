use trader::discovery::{
    find_accepted_buy_qty, find_accepted_sell_qty, search_sell_quantity, MIN_QUANTITY,
};
use trader::goods::{ExchangeRates, GoodKind, Ledger, LedgerError, SCALE};
use trader::selection::{pick_best_buyer, pick_cheapest_supplier, quantity_in, Quote};
use trader::strategy::{dearer_than, strategy, StrategyError};
use trader::telemetry::{quote_or_sentinel, INFINITY, PROBE_QUANTITY};
use trader::trader::trader_errors::{TraderDemandError, TraderSupplyError};
use trader::trader::{MarketKind, Trader, INITIAL_MONEY};
use trader::venue::{ConfirmError, GoodLabel, LockError, QuoteError, Venue};

/// A venue with linear prices: a quantity `q` (in thousandths) costs
/// `q * rate / SCALE`.
#[derive(Debug, Clone)]
struct MockVenue {
    name: String,
    buy_rate: Option<u64>,
    sell_rate: Option<u64>,
    max_quote_quantity: u64,
    budget: u64,
    lock_ok: bool,
    confirm_ok: bool,
    inventory: Vec<GoodLabel>,
    locked: Option<(u64, u64)>,
    days: u32,
}

impl MockVenue {
    fn new(name: &str, buy_rate: Option<u64>, sell_rate: Option<u64>, budget: u64) -> Self {
        MockVenue {
            name: name.to_string(),
            buy_rate,
            sell_rate,
            max_quote_quantity: u64::MAX,
            budget,
            lock_ok: true,
            confirm_ok: true,
            inventory: vec![GoodLabel { good_kind: GoodKind::USD, quantity: 5_000 }],
            locked: None,
            days: 0,
        }
    }

    fn price(rate: Option<u64>, quantity: u64, max: u64) -> Option<u64> {
        if quantity > max {
            return None;
        }
        rate.map(|r| ((quantity as u128) * (r as u128) / (SCALE as u128)) as u64)
    }
}

impl Venue for MockVenue {
    fn get_name(&self) -> String {
        self.name.clone()
    }

    fn quote_buy(&self, _kind: GoodKind, quantity: u64) -> Result<u64, QuoteError> {
        MockVenue::price(self.buy_rate, quantity, self.max_quote_quantity)
            .ok_or(QuoteError::InsufficientSupply)
    }

    fn quote_sell(&self, _kind: GoodKind, quantity: u64) -> Result<u64, QuoteError> {
        MockVenue::price(self.sell_rate, quantity, self.max_quote_quantity)
            .ok_or(QuoteError::InsufficientFunds)
    }

    fn lock_buy(
        &mut self,
        _kind: GoodKind,
        quantity: u64,
        price: u64,
        _trader_name: String,
    ) -> Result<String, LockError> {
        if !self.lock_ok {
            return Err(LockError::QuantityUnavailable);
        }
        self.locked = Some((quantity, price));
        Ok("buy-token".to_string())
    }

    fn lock_sell(
        &mut self,
        _kind: GoodKind,
        quantity: u64,
        price: u64,
        _trader_name: String,
    ) -> Result<String, LockError> {
        if !self.lock_ok {
            return Err(LockError::PriceMismatch);
        }
        self.locked = Some((quantity, price));
        Ok("sell-token".to_string())
    }

    fn confirm_buy(&mut self, _token: String, _payment: u64) -> Result<u64, ConfirmError> {
        if !self.confirm_ok {
            return Err(ConfirmError::InvalidToken);
        }
        let (quantity, _) = self.locked.take().ok_or(ConfirmError::InvalidToken)?;
        Ok(quantity)
    }

    fn confirm_sell(&mut self, _token: String, _goods: u64) -> Result<u64, ConfirmError> {
        if !self.confirm_ok {
            return Err(ConfirmError::InsufficientPayment);
        }
        let (_, price) = self.locked.take().ok_or(ConfirmError::InvalidToken)?;
        Ok(price)
    }

    fn inventory(&self) -> Vec<GoodLabel> {
        self.inventory.clone()
    }

    fn budget(&self) -> u64 {
        self.budget
    }

    fn advance_time(&mut self) {
        self.days += 1;
    }
}

struct Strategy(fn(&mut Trader<MockVenue, Strategy>));

type TestTrader = Trader<MockVenue, Strategy>;

/// The runner loop as a program drives it.
fn run(trader: &mut TestTrader, iterations: i32) {
    let mut completed: i32 = 0;
    while TestTrader::should_run(completed, iterations) {
        let strategy = trader.take_strategy();
        if let Some(s) = &strategy {
            (s.0)(trader);
        }
        completed = trader.finish_invocation(strategy, completed);
    }
}

fn trader_with(venues: Vec<(MarketKind, MockVenue)>) -> TestTrader {
    let mut t: TestTrader = Trader::new();
    for (kind, venue) in venues {
        t = t.with_market(kind, venue);
    }
    t
}

fn example_strategy(trader: &mut TestTrader) {
    for _ in 0..1000 {
        let _ = trader.get_demand_price(MarketKind::BFB, GoodKind::YUAN);
        trader
            .sell(MarketKind::BFB, GoodKind::YUAN, 10)
            .expect("Example trader does not successed");
    }
}

#[test]
fn trader_example() {
    let bose = MockVenue::new("BOSE", Some(1_000), Some(900), 1_000_000_000);
    let bfb = MockVenue::new("BFB", Some(1_000), Some(900), 1_000_000_000);
    let tase = MockVenue::new("TASE", Some(1_000), Some(900), 1_000_000_000);

    let mut trader: TestTrader = Trader::new_super_duper_amazing_trader(10)
        .with_market(MarketKind::BOSE, bose)
        .with_market(MarketKind::BFB, bfb)
        .with_market(MarketKind::TASE, tase)
        .with_initial_money(10_001_000)
        .with_good(GoodKind::YUAN, 10_000_000_000);

    trader.set_strategy(Strategy(example_strategy));

    assert_eq!(trader.get_owned_good_qty(GoodKind::EUR), 10_001_000);
    assert_eq!(trader.get_owned_good_qty(GoodKind::YUAN), 10_000_000_000);
    assert_eq!(
        trader.market_ids(),
        vec![MarketKind::BOSE, MarketKind::BFB, MarketKind::TASE]
    );
}

#[test]
fn buy_then_sell_moves_exact_amounts() {
    let v = MockVenue::new("V", Some(5_000), Some(4_800), 1_000_000_000);
    let mut t = trader_with(vec![(MarketKind::BOSE, v)]);
    assert_eq!(t.get_owned_good_qty(GoodKind::EUR), INITIAL_MONEY);
    assert_eq!(t.get_owned_good_qty(GoodKind::USD), 0);

    let fill = t.execute_buy(MarketKind::BOSE, GoodKind::USD, 10_000).unwrap();
    assert_eq!(fill.paid, 50_000);
    assert_eq!(fill.received, 10_000);
    assert_eq!(t.get_owned_good_qty(GoodKind::EUR), 950_000);
    assert_eq!(t.get_owned_good_qty(GoodKind::USD), 10_000);

    let got = t.sell(MarketKind::BOSE, GoodKind::USD, 10_000).unwrap();
    assert_eq!(got, 48_000);
    assert_eq!(t.get_owned_good_qty(GoodKind::EUR), 998_000);
    assert_eq!(t.get_owned_good_qty(GoodKind::USD), 0);
    assert_eq!(t.get_data().len(), 2);
}

#[test]
fn failed_quote_leaves_ledger_untouched() {
    let v = MockVenue::new("V", None, None, 1_000_000_000);
    let mut t = trader_with(vec![(MarketKind::BOSE, v)]);
    let before = t.get_goods();
    assert_eq!(
        t.execute_buy(MarketKind::BOSE, GoodKind::USD, 10_000),
        Err(TraderSupplyError::MarketInsufficientSupply)
    );
    assert_eq!(t.get_goods(), before);
    assert_eq!(t.get_data().len(), 0);
    assert_eq!(
        t.execute_sell(MarketKind::BOSE, GoodKind::USD, 10_000),
        Err(TraderDemandError::MarketInsufficientFunds)
    );
    assert_eq!(t.get_goods(), before);
}

#[test]
fn failed_lock_gives_market_errors() {
    let mut v = MockVenue::new("V", Some(1_000), Some(1_000), 1_000_000_000);
    v.lock_ok = false;
    let mut t = trader_with(vec![(MarketKind::BFB, v)]).with_good(GoodKind::USD, 1_000);
    let before = t.get_goods();
    assert_eq!(
        t.buy(MarketKind::BFB, GoodKind::USD, 1_000),
        Err(TraderSupplyError::MarketInsufficientSupply)
    );
    assert_eq!(
        t.sell(MarketKind::BFB, GoodKind::USD, 1_000),
        Err(TraderDemandError::MarketInsufficientFunds)
    );
    assert_eq!(t.get_goods(), before);
}

#[test]
fn refused_settlement_keeps_what_was_paid() {
    let mut v = MockVenue::new("V", Some(5_000), Some(4_000), 1_000_000_000);
    v.confirm_ok = false;
    let mut t = trader_with(vec![(MarketKind::BOSE, v)]).with_good(GoodKind::YEN, 3_000);
    assert_eq!(
        t.buy(MarketKind::BOSE, GoodKind::USD, 10_000),
        Err(TraderSupplyError::TraderInsufficientFunds)
    );
    assert_eq!(t.get_owned_good_qty(GoodKind::EUR), 950_000);
    assert_eq!(t.get_owned_good_qty(GoodKind::USD), 0);
    assert_eq!(
        t.sell(MarketKind::BOSE, GoodKind::YEN, 3_000),
        Err(TraderDemandError::TraderInsufficientGoods)
    );
    assert_eq!(t.get_owned_good_qty(GoodKind::YEN), 0);
    assert_eq!(t.get_owned_good_qty(GoodKind::EUR), 950_000);
    assert_eq!(t.get_data().len(), 0);
}

#[test]
fn short_balances_fail_without_change() {
    let v = MockVenue::new("V", Some(5_000), Some(4_000), 1_000_000_000);
    let mut t = trader_with(vec![(MarketKind::BOSE, v)]);
    assert_eq!(
        t.buy(MarketKind::BOSE, GoodKind::USD, 1_000_000),
        Err(TraderSupplyError::TraderInsufficientFunds)
    );
    assert_eq!(t.get_owned_good_qty(GoodKind::EUR), INITIAL_MONEY);
    assert_eq!(
        t.sell(MarketKind::BOSE, GoodKind::USD, 1),
        Err(TraderDemandError::TraderInsufficientGoods)
    );
    assert_eq!(t.get_owned_good_qty(GoodKind::USD), 0);
}

#[test]
fn unknown_market_is_reported() {
    let mut t = trader_with(vec![]);
    assert_eq!(
        t.buy(MarketKind::DOGE, GoodKind::USD, 10),
        Err(TraderSupplyError::MarketNotFound)
    );
    assert_eq!(
        t.sell(MarketKind::DOGE, GoodKind::USD, 10),
        Err(TraderDemandError::MarketNotFound)
    );
    assert!(t.get_market(MarketKind::DOGE).is_err());
    assert_eq!(
        t.get_supply_price(MarketKind::DOGE, GoodKind::USD),
        Err(TraderSupplyError::MarketNotFound)
    );
    assert_eq!(
        t.get_demand_price(MarketKind::DOGE, GoodKind::USD),
        Err(TraderDemandError::MarketNotFound)
    );
    assert_eq!(t.get_good_qty(MarketKind::DOGE, GoodKind::USD), 0);
    assert_eq!(t.best_buyer(GoodKind::USD), None);
    assert_eq!(t.cheapest_supplier(GoodKind::USD), None);
}

#[test]
fn lock_only_moves_no_assets() {
    let v = MockVenue::new("V", Some(2_000), Some(1_500), 1_000_000_000);
    let mut t = trader_with(vec![(MarketKind::BFB, v)]);
    let before = t.get_goods();
    let (token, price) = t.lock_without_buying(MarketKind::BFB, GoodKind::USD, 3_000).unwrap();
    assert_eq!(token, "buy-token");
    assert_eq!(price, 6_000);
    let (token, price) = t.lock_without_selling(MarketKind::BFB, GoodKind::USD, 3_000).unwrap();
    assert_eq!(token, "sell-token");
    assert_eq!(price, 4_500);
    assert_eq!(t.get_goods(), before);
    assert_eq!(t.get_data().len(), 2);
}

#[test]
fn prices_are_quoted_for_the_default_amount() {
    let v = MockVenue::new("V", Some(2_000), Some(1_500), 1_000_000_000);
    let t = trader_with(vec![(MarketKind::BFB, v)]);
    assert_eq!(t.get_supply_price(MarketKind::BFB, GoodKind::USD), Ok(2_000_000));
    assert_eq!(t.get_demand_price(MarketKind::BFB, GoodKind::USD), Ok(1_500_000));
    assert_eq!(t.get_supply_price_qt(MarketKind::BFB, GoodKind::USD, 500), Ok(1_000));
    assert_eq!(t.get_demand_price_qt(MarketKind::BFB, GoodKind::USD, 500), Ok(750));
}

#[test]
fn best_buyer_skips_a_venue_that_cannot_pay() {
    let quotes = vec![
        Quote { market: MarketKind::BOSE, price: Ok(10), budget: 5 },
        Quote { market: MarketKind::BFB, price: Ok(8), budget: 100 },
    ];
    assert_eq!(pick_best_buyer(&quotes), Some(MarketKind::BFB));

    let a = MockVenue::new("A", None, Some(10_000), 5_000);
    let b = MockVenue::new("B", None, Some(8_000), 100_000);
    let t = trader_with(vec![(MarketKind::BOSE, a), (MarketKind::BFB, b)]);
    assert_eq!(t.best_buyer_for(GoodKind::USD, 1_000), Some(MarketKind::BFB));
}

#[test]
fn best_buyer_takes_highest_price_and_first_on_tie() {
    let quotes = vec![
        Quote { market: MarketKind::TASE, price: Err(QuoteError::InsufficientFunds), budget: 1_000 },
        Quote { market: MarketKind::BOSE, price: Ok(7), budget: 100 },
        Quote { market: MarketKind::BFB, price: Ok(9), budget: 100 },
        Quote { market: MarketKind::DOGE, price: Ok(9), budget: 100 },
    ];
    assert_eq!(pick_best_buyer(&quotes), Some(MarketKind::BFB));
    let none = vec![Quote { market: MarketKind::BOSE, price: Ok(10), budget: 10 }];
    assert_eq!(pick_best_buyer(&none), None);
    assert_eq!(pick_best_buyer(&vec![]), None);
}

#[test]
fn cheapest_supplier_takes_lowest_price() {
    let quotes = vec![
        Quote { market: MarketKind::BOSE, price: Ok(12), budget: 0 },
        Quote { market: MarketKind::DOGE, price: Err(QuoteError::InsufficientSupply), budget: 0 },
        Quote { market: MarketKind::BFB, price: Ok(11), budget: 0 },
        Quote { market: MarketKind::TASE, price: Ok(11), budget: 0 },
    ];
    assert_eq!(pick_cheapest_supplier(&quotes), Some(MarketKind::BFB));

    let a = MockVenue::new("A", Some(3_000), None, 0);
    let b = MockVenue::new("B", Some(2_000), None, 0);
    let c = MockVenue::new("C", None, None, 0);
    let t = trader_with(vec![(MarketKind::BOSE, a), (MarketKind::BFB, b), (MarketKind::DOGE, c)]);
    assert_eq!(t.cheapest_supplier_for(GoodKind::YEN, 1_000), Some(MarketKind::BFB));
    assert_eq!(t.cheapest_supplier(GoodKind::YEN), Some(MarketKind::BFB));
}

#[test]
fn sell_search_finds_first_quantity_under_budget() {
    let v = MockVenue::new("V", None, Some(2_000), 1_000_000);
    let offer = search_sell_quantity(&v, GoodKind::USD, 2_000_000).unwrap();
    assert_eq!(offer.quantity, 400_000);
    assert_eq!(offer.price, 800_000);
    assert_eq!(offer.budget, 1_000_000);
    assert_eq!(find_accepted_sell_qty(&v, GoodKind::USD, 2_000_000), 400_000);
    assert_eq!(find_accepted_sell_qty(&v, GoodKind::USD, 100_000), 100_000);
}

#[test]
fn sell_search_gives_up() {
    let small_budget = MockVenue::new("V", None, Some(2_000), 99_999);
    assert_eq!(find_accepted_sell_qty(&small_budget, GoodKind::USD, 2_000_000), 48_780);
    let tiny_budget = MockVenue::new("V", None, Some(2_000), 19);
    assert_eq!(find_accepted_sell_qty(&tiny_budget, GoodKind::USD, 2_000_000), 0);
    let v = MockVenue::new("V", None, Some(2_000), 1_000_000);
    assert_eq!(find_accepted_sell_qty(&v, GoodKind::USD, MIN_QUANTITY - 1), 0);
    let no_quote = MockVenue::new("V", None, None, 1_000_000);
    assert_eq!(find_accepted_sell_qty(&no_quote, GoodKind::USD, 1_000), 0);
}

#[test]
fn buy_search_finds_first_quoted_quantity() {
    let mut v = MockVenue::new("V", Some(1_000), None, 0);
    v.max_quote_quantity = 300;
    assert_eq!(find_accepted_buy_qty(&v, GoodKind::USD, 1_000), 250);
    assert_eq!(find_accepted_buy_qty(&v, GoodKind::USD, 200), 200);
    assert_eq!(find_accepted_buy_qty(&v, GoodKind::USD, 0), 0);
    v.max_quote_quantity = 5;
    assert_eq!(find_accepted_buy_qty(&v, GoodKind::USD, 1_000), 0);
}

fn first(trader: &mut TestTrader) {
    trader.wait();
    trader.set_strategy(Strategy(second));
}

fn second(trader: &mut TestTrader) {
    trader.set_strategy(Strategy(third));
    trader.wait();
}

fn third(trader: &mut TestTrader) {
    trader.wait();
    trader.wait();
}

fn wait_step(trader: &mut TestTrader) {
    trader.wait();
}

#[test]
fn handed_off_strategy_gets_a_fresh_iteration() {
    let mut t = trader_with(vec![]);
    t.set_strategy(Strategy(first));
    run(&mut t, 1);
    // first (1 sample), then second (1), then third (2): one iteration used.
    assert_eq!(t.get_data().len(), 4);
    run(&mut t, 1);
    assert_eq!(t.get_data().len(), 6);
}

#[test]
fn zero_iterations_invoke_nothing() {
    let mut t = trader_with(vec![]);
    t.set_strategy(Strategy(wait_step));
    run(&mut t, 0);
    assert_eq!(t.get_data().len(), 0);
    run(&mut t, 3);
    assert_eq!(t.get_data().len(), 3);
    assert!(!TestTrader::should_run(0, 0));
    assert!(TestTrader::should_run(0, 1));
}

#[test]
fn samples_follow_each_operation_and_each_wait() {
    let v = MockVenue::new("V", Some(1_000), Some(1_000), 1_000_000_000);
    let mut t = trader_with(vec![(MarketKind::BOSE, v)]);
    t.buy(MarketKind::BOSE, GoodKind::USD, 1_000).unwrap();
    t.wait();
    t.sell(MarketKind::BOSE, GoodKind::USD, 1_000).unwrap();
    t.wait();
    assert_eq!(t.get_data().len(), 4);
    t.wait_for(3);
    assert_eq!(t.get_data().len(), 10);
    assert_eq!(t.get_market(MarketKind::BOSE).unwrap().days, 5);
    let last = &t.get_data()[3];
    assert_eq!(last.ledger, vec![INITIAL_MONEY, 0, 0, 0]);
    assert_eq!(last.venues.len(), 1);
    assert_eq!(last.venues[0].market, MarketKind::BOSE);
    assert_eq!(last.venues[0].buy_quotes, vec![PROBE_QUANTITY; 3]);
    assert_eq!(last.venues[0].liquidity[0].quantity, 5_000);
}

#[test]
fn refused_quote_is_sampled_as_sentinel() {
    let v = MockVenue::new("V", Some(1_000), None, 1_000_000_000);
    let mut t = trader_with(vec![(MarketKind::DOGE, v)]);
    t.wait();
    let s = &t.get_data()[0];
    assert_eq!(s.venues[0].sell_quotes, vec![INFINITY; 3]);
    assert_eq!(s.venues[0].buy_quotes, vec![10; 3]);
    assert_eq!(quote_or_sentinel(Err(QuoteError::InsufficientSupply)), INFINITY);
    assert_eq!(quote_or_sentinel(Ok(42)), 42);
}

#[test]
fn ledger_debit_beyond_balance_fails() {
    let mut l = Ledger::new(1_000);
    assert_eq!(l.debit(GoodKind::EUR, 1_001), Err(LedgerError::InsufficientBalance));
    assert_eq!(l, Ledger::new(1_000));
    assert_eq!(l.debit(GoodKind::USD, 1), Err(LedgerError::InsufficientBalance));
    assert_eq!(l.debit(GoodKind::EUR, 1_000), Ok(()));
    assert_eq!(l.balance(GoodKind::EUR), 0);
    assert_eq!(l.credit(GoodKind::YEN, 7), Ok(()));
    assert_eq!(l.balance(GoodKind::YEN), 7);
    assert_eq!(l.credit(GoodKind::YEN, u64::MAX), Err(LedgerError::InvalidAmount));
    assert_eq!(l.balance(GoodKind::YEN), 7);
    l.deposit(GoodKind::YEN, u64::MAX);
    assert_eq!(l.balance(GoodKind::YEN), u64::MAX);
}

#[test]
fn capital_values_other_kinds_at_reference_rates() {
    let rates = ExchangeRates { usd: 2_000, yen: 100_000, yuan: 4_000 };
    let mut l = Ledger::new(1_000_000);
    assert_eq!(l.capital(&rates), 1_000_000);
    l.set(GoodKind::USD, 10_000);
    l.set(GoodKind::YEN, 1_000_000);
    l.set(GoodKind::YUAN, 8_000);
    assert_eq!(l.capital(&rates), 1_000_000 + 5_000 + 10_000 + 2_000);
    let t = trader_with(vec![]).with_good(GoodKind::USD, 10_000);
    assert_eq!(t.get_capital(&rates), 1_005_000);
}

#[test]
fn venue_inventory_lookup_takes_last_line() {
    let labels = vec![
        GoodLabel { good_kind: GoodKind::USD, quantity: 1 },
        GoodLabel { good_kind: GoodKind::YEN, quantity: 2 },
        GoodLabel { good_kind: GoodKind::USD, quantity: 3 },
    ];
    assert_eq!(quantity_in(&labels, GoodKind::USD), 3);
    assert_eq!(quantity_in(&labels, GoodKind::YEN), 2);
    assert_eq!(quantity_in(&labels, GoodKind::EUR), 0);
    let v = MockVenue::new("V", None, None, 0);
    let t = trader_with(vec![(MarketKind::BFB, v)]);
    assert_eq!(t.get_good_qty(MarketKind::BFB, GoodKind::USD), 5_000);
    assert_eq!(t.get_good_qty(MarketKind::BFB, GoodKind::YEN), 0);
}

#[test]
fn bailout_sells_everything_to_the_best_buyer() {
    let a = MockVenue::new("A", None, Some(1_000), 1_000_000_000_000);
    let b = MockVenue::new("B", None, Some(2_000), 1_000_000_000_000);
    let mut t = trader_with(vec![(MarketKind::BOSE, a), (MarketKind::BFB, b)])
        .with_good(GoodKind::USD, 25_000_000)
        .with_good(GoodKind::YUAN, 1_000);
    assert_eq!(t.bailout(), Ok(()));
    assert_eq!(t.get_owned_good_qty(GoodKind::USD), 0);
    assert_eq!(t.get_owned_good_qty(GoodKind::YUAN), 0);
    assert_eq!(t.get_owned_good_qty(GoodKind::EUR), INITIAL_MONEY + 50_000_000 + 2_000);
    // three chunks of USD, one of YUAN
    assert_eq!(t.get_data().len(), 4);
}

#[test]
fn bailout_without_buyer_fails() {
    let mut t = trader_with(vec![]).with_good(GoodKind::YEN, 5);
    assert_eq!(t.bailout(), Err(TraderDemandError::MarketInsufficientFunds));
    assert_eq!(t.get_owned_good_qty(GoodKind::YEN), 5);
}

#[test]
fn registering_twice_replaces_the_venue() {
    let a = MockVenue::new("A", Some(1_000), None, 0);
    let b = MockVenue::new("B", Some(3_000), None, 0);
    let t = trader_with(vec![(MarketKind::BOSE, a), (MarketKind::BOSE, b)]);
    assert_eq!(t.market_ids(), vec![MarketKind::BOSE]);
    assert_eq!(t.get_market(MarketKind::BOSE).unwrap().get_name(), "B");
    assert_eq!(t.get_supply_price_qt(MarketKind::BOSE, GoodKind::USD, 1_000), Ok(3_000));
}

#[test]
fn venue_errors_map_to_trader_errors() {
    assert_eq!(
        TraderSupplyError::from(QuoteError::InsufficientSupply),
        TraderSupplyError::MarketInsufficientSupply
    );
    assert_eq!(
        TraderSupplyError::from(LockError::PriceMismatch),
        TraderSupplyError::MarketInsufficientSupply
    );
    assert_eq!(
        TraderSupplyError::from(ConfirmError::InsufficientPayment),
        TraderSupplyError::TraderInsufficientFunds
    );
    assert_eq!(
        TraderDemandError::from(QuoteError::InsufficientFunds),
        TraderDemandError::MarketInsufficientFunds
    );
    assert_eq!(
        TraderDemandError::from(LockError::QuantityUnavailable),
        TraderDemandError::MarketInsufficientFunds
    );
    assert_eq!(
        TraderDemandError::from(ConfirmError::InvalidToken),
        TraderDemandError::TraderInsufficientGoods
    );
}

#[test]
fn capital_moves_only_by_the_two_legs_of_a_fill() {
    let rates = ExchangeRates { usd: 2_000, yen: 100_000, yuan: 4_000 };
    let v = MockVenue::new("V", Some(600), Some(400), 1_000_000_000);
    let mut t = trader_with(vec![(MarketKind::BOSE, v)]);
    assert_eq!(t.get_capital(&rates), 1_000_000);
    let fill = t.execute_buy(MarketKind::BOSE, GoodKind::USD, 100_000).unwrap();
    assert_eq!(fill.paid, 60_000);
    // 1_000_000 - 60_000 paid + 100_000 USD worth 50_000
    assert_eq!(t.get_capital(&rates), 990_000);
    let fill = t.execute_sell(MarketKind::BOSE, GoodKind::USD, 100_000).unwrap();
    assert_eq!(fill.paid, 100_000);
    assert_eq!(fill.received, 40_000);
    assert_eq!(t.get_capital(&rates), 980_000);
}

#[test]
fn strategy_stops_when_bfb_will_not_quote() {
    let none = MockVenue::new("none", None, None, 1_000_000_000);
    let mut t = trader_with(vec![
        (MarketKind::BFB, none.clone()),
        (MarketKind::BOSE, none.clone()),
        (MarketKind::DOGE, none),
    ]);
    assert_eq!(
        strategy(&mut t),
        Err(StrategyError::Supply(TraderSupplyError::MarketInsufficientSupply))
    );
    assert_eq!(t.get_owned_good_qty(GoodKind::EUR), INITIAL_MONEY);
    assert_eq!(t.get_data().len(), 0);
}

#[test]
fn strategy_runs_both_phases() {
    let v = MockVenue::new("V", Some(1_000), Some(900), 1_000_000_000);
    let mut t = trader_with(vec![
        (MarketKind::BFB, v.clone()),
        (MarketKind::BOSE, v.clone()),
        (MarketKind::DOGE, v),
    ]);
    assert_eq!(strategy(&mut t), Ok(()));
    assert_eq!(t.get_owned_good_qty(GoodKind::EUR), INITIAL_MONEY - 4_900 - 5_000);
    assert_eq!(t.get_owned_good_qty(GoodKind::USD), 0);
    assert_eq!(t.get_data().len(), 190 + 20 + 20 + 6);
}

#[test]
fn unit_price_comparison() {
    assert!(!dearer_than(5_000, 5_000, 1_000));
    assert!(dearer_than(5_001, 5_000, 1_000));
    assert!(!dearer_than(0, 0, 0));
    assert!(dearer_than(u64::MAX, 1, u64::MAX));
}

#[test]
fn missing_market_converts_from_supply_to_demand() {
    assert_eq!(
        TraderDemandError::try_from(TraderSupplyError::MarketNotFound),
        Ok(TraderDemandError::MarketNotFound)
    );
    assert_eq!(
        TraderDemandError::try_from(TraderSupplyError::TraderInsufficientFunds),
        Err(TraderSupplyError::TraderInsufficientFunds)
    );
    assert_eq!(
        TraderDemandError::try_from(TraderSupplyError::GoodsNotFound),
        Err(TraderSupplyError::GoodsNotFound)
    );
}

#[test]
fn strategy_fails_without_doge() {
    let v = MockVenue::new("V", Some(1_000), Some(900), 1_000_000_000);
    let mut t = trader_with(vec![(MarketKind::BFB, v.clone()), (MarketKind::BOSE, v)]);
    assert_eq!(
        strategy(&mut t),
        Err(StrategyError::Supply(TraderSupplyError::MarketNotFound))
    );
}
