use vstd::prelude::*;

use crate::trader::MarketKind;
use crate::venue::{GoodLabel, QuoteError};

verus! {

/// What one venue answered when asked for a price, with its budget.
#[derive(Debug, Clone, Copy)]
pub struct Quote {
    pub market: MarketKind,
    pub price: Result<u64, QuoteError>,
    pub budget: u64,
}

/// The venue quoted a price that its budget covers.
pub open spec fn can_buy(q: Quote) -> bool {
    q.price is Ok && q.price->Ok_0 < q.budget
}

/// The venue quoted a price.
pub open spec fn can_sell(q: Quote) -> bool {
    q.price is Ok
}

/// `qs[j]` is the first of the highest prices among the venues that can buy.
pub open spec fn is_best_buyer(qs: Seq<Quote>, j: int) -> bool {
    &&& 0 <= j < qs.len()
    &&& can_buy(qs[j])
    &&& forall|i: int|
        0 <= i < qs.len() && #[trigger] can_buy(qs[i]) ==> qs[i].price->Ok_0 <= qs[j].price->Ok_0
            && (i < j ==> qs[i].price->Ok_0 < qs[j].price->Ok_0)
}

/// `qs[j]` is the first of the lowest prices among the venues that quoted.
pub open spec fn is_cheapest_supplier(qs: Seq<Quote>, j: int) -> bool {
    &&& 0 <= j < qs.len()
    &&& can_sell(qs[j])
    &&& forall|i: int|
        0 <= i < qs.len() && #[trigger] can_sell(qs[i]) ==> qs[j].price->Ok_0 <= qs[i].price->Ok_0
            && (i < j ==> qs[j].price->Ok_0 < qs[i].price->Ok_0)
}

/// `qs[j]` is the best buyer and is named `m`.
pub open spec fn is_best_buyer_at(qs: Seq<Quote>, j: int, m: MarketKind) -> bool {
    is_best_buyer(qs, j) && qs[j].market == m
}

/// `qs[j]` is the cheapest supplier and is named `m`.
pub open spec fn is_cheapest_supplier_at(qs: Seq<Quote>, j: int, m: MarketKind) -> bool {
    is_cheapest_supplier(qs, j) && qs[j].market == m
}

/// `r` is what `pick_best_buyer` gives for `qs`: `None` exactly when no
/// venue can buy, else the name of the best buyer.
pub open spec fn best_buyer_choice(qs: Seq<Quote>, r: Option<MarketKind>) -> bool {
    &&& (r is None <==> forall|i: int| 0 <= i < qs.len() ==> !can_buy(#[trigger] qs[i]))
    &&& (r matches Some(m) ==> exists|j: int| #[trigger] is_best_buyer_at(qs, j, m))
}

/// `r` is what `pick_cheapest_supplier` gives for `qs`: `None` exactly when
/// no venue quoted, else the name of the cheapest supplier.
pub open spec fn cheapest_supplier_choice(qs: Seq<Quote>, r: Option<MarketKind>) -> bool {
    &&& (r is None <==> forall|i: int| 0 <= i < qs.len() ==> !can_sell(#[trigger] qs[i]))
    &&& (r matches Some(m) ==> exists|j: int| #[trigger] is_cheapest_supplier_at(qs, j, m))
}

/// `qs` holds one quote per name of `ids`, in the same order.
pub open spec fn quotes_cover(qs: Seq<Quote>, ids: Seq<MarketKind>) -> bool {
    &&& qs.len() == ids.len()
    &&& forall|i: int| 0 <= i < qs.len() ==> (#[trigger] qs[i]).market == ids[i]
}

/// The venue that pays the most among those whose budget covers their own
/// quote; the first of them on a tie; `None` where no venue qualifies.
pub fn pick_best_buyer(quotes: &Vec<Quote>) -> (r: Option<MarketKind>)
    ensures
        r is None <==> forall|i: int| 0 <= i < quotes@.len() ==> !can_buy(#[trigger] quotes@[i]),
        r matches Some(m) ==> exists|j: int| #[trigger] is_best_buyer_at(quotes@, j, m),
        best_buyer_choice(quotes@, r),
{
    let mut best: Option<(usize, u64)> = None;
    let mut i: usize = 0;
    while i < quotes.len()
        invariant
            i <= quotes@.len(),
            best is None ==> forall|k: int| 0 <= k < i ==> !can_buy(#[trigger] quotes@[k]),
            best matches Some(b) ==> {
                &&& b.0 < i
                &&& can_buy(quotes@[b.0 as int])
                &&& quotes@[b.0 as int].price->Ok_0 == b.1
                &&& forall|k: int|
                    0 <= k < i && #[trigger] can_buy(quotes@[k]) ==> quotes@[k].price->Ok_0 <= b.1
                        && (k < b.0 ==> quotes@[k].price->Ok_0 < b.1)
            },
        decreases quotes@.len() - i,
    {
        let q = quotes[i];
        match q.price {
            Ok(p) => {
                if q.budget > p {
                    match best {
                        Some(b) => {
                            if p > b.1 {
                                best = Some((i, p));
                            }
                        },
                        None => {
                            best = Some((i, p));
                        },
                    }
                }
            },
            Err(_) => {},
        }
        i = i + 1;
    }
    match best {
        Some(b) => {
            assert(is_best_buyer_at(quotes@, b.0 as int, quotes@[b.0 as int].market));
            Some(quotes[b.0].market)
        },
        None => None,
    }
}

/// The venue that charges the least among those that quoted; the first of
/// them on a tie; `None` where none quoted.
pub fn pick_cheapest_supplier(quotes: &Vec<Quote>) -> (r: Option<MarketKind>)
    ensures
        r is None <==> forall|i: int| 0 <= i < quotes@.len() ==> !can_sell(#[trigger] quotes@[i]),
        r matches Some(m) ==> exists|j: int| #[trigger] is_cheapest_supplier_at(quotes@, j, m),
        cheapest_supplier_choice(quotes@, r),
{
    let mut best: Option<(usize, u64)> = None;
    let mut i: usize = 0;
    while i < quotes.len()
        invariant
            i <= quotes@.len(),
            best is None ==> forall|k: int| 0 <= k < i ==> !can_sell(#[trigger] quotes@[k]),
            best matches Some(b) ==> {
                &&& b.0 < i
                &&& can_sell(quotes@[b.0 as int])
                &&& quotes@[b.0 as int].price->Ok_0 == b.1
                &&& forall|k: int|
                    0 <= k < i && #[trigger] can_sell(quotes@[k]) ==> b.1 <= quotes@[k].price->Ok_0
                        && (k < b.0 ==> b.1 < quotes@[k].price->Ok_0)
            },
        decreases quotes@.len() - i,
    {
        let q = quotes[i];
        match q.price {
            Ok(p) => {
                match best {
                    Some(b) => {
                        if p < b.1 {
                            best = Some((i, p));
                        }
                    },
                    None => {
                        best = Some((i, p));
                    },
                }
            },
            Err(_) => {},
        }
        i = i + 1;
    }
    match best {
        Some(b) => {
            assert(is_cheapest_supplier_at(quotes@, b.0 as int, quotes@[b.0 as int].market));
            Some(quotes[b.0].market)
        },
        None => None,
    }
}

/// The quantity of the last line of `labels` for `kind`, or 0 where none is.
pub open spec fn spec_quantity_in(labels: Seq<GoodLabel>, kind: crate::goods::GoodKind) -> u64
    decreases labels.len(),
{
    if labels.len() == 0 {
        0
    } else if labels.last().good_kind == kind {
        labels.last().quantity
    } else {
        spec_quantity_in(labels.drop_last(), kind)
    }
}

pub fn quantity_in(labels: &Vec<GoodLabel>, kind: crate::goods::GoodKind) -> (r: u64)
    ensures
        r == spec_quantity_in(labels@, kind),
{
    let mut r: u64 = 0;
    let mut i: usize = 0;
    while i < labels.len()
        invariant
            i <= labels@.len(),
            r == spec_quantity_in(labels@.subrange(0, i as int), kind),
        decreases labels@.len() - i,
    {
        let ghost prefix = labels@.subrange(0, i as int + 1);
        assert(prefix.drop_last() =~= labels@.subrange(0, i as int));
        if labels[i].good_kind == kind {
            r = labels[i].quantity;
        }
        i = i + 1;
    }
    assert(labels@.subrange(0, labels@.len() as int) =~= labels@);
    r
}

} // verus!
