use vstd::prelude::*;

use crate::venue::{ConfirmError, LockError, QuoteError};

verus! {

/// Why a purchase failed.
#[derive(Debug, PartialEq, Eq, Clone, Copy, Structural)]
pub enum TraderSupplyError {
    MarketNotFound,
    GoodsNotFound,
    MarketInsufficientSupply,
    TraderInsufficientFunds,
}

/// Why a sale failed.
#[derive(Debug, PartialEq, Eq, Clone, Copy, Structural)]
pub enum TraderDemandError {
    MarketNotFound,
    MarketInsufficientFunds,
    TraderInsufficientGoods,
}

/// A venue that cannot quote a purchase cannot supply the quantity.
impl From<QuoteError> for TraderSupplyError {
    fn from(e: QuoteError) -> (r: Self) {
        TraderSupplyError::MarketInsufficientSupply
    }
}

impl vstd::std_specs::convert::FromSpecImpl<QuoteError> for TraderSupplyError {
    open spec fn obeys_from_spec() -> bool {
        true
    }

    open spec fn from_spec(e: QuoteError) -> Self {
        TraderSupplyError::MarketInsufficientSupply
    }
}

/// A venue that cannot reserve a purchase cannot supply the quantity.
impl From<LockError> for TraderSupplyError {
    fn from(e: LockError) -> (r: Self) {
        TraderSupplyError::MarketInsufficientSupply
    }
}

impl vstd::std_specs::convert::FromSpecImpl<LockError> for TraderSupplyError {
    open spec fn obeys_from_spec() -> bool {
        true
    }

    open spec fn from_spec(e: LockError) -> Self {
        TraderSupplyError::MarketInsufficientSupply
    }
}

/// A venue that refuses to settle a purchase has refused the payment.
impl From<ConfirmError> for TraderSupplyError {
    fn from(e: ConfirmError) -> (r: Self) {
        TraderSupplyError::TraderInsufficientFunds
    }
}

impl vstd::std_specs::convert::FromSpecImpl<ConfirmError> for TraderSupplyError {
    open spec fn obeys_from_spec() -> bool {
        true
    }

    open spec fn from_spec(e: ConfirmError) -> Self {
        TraderSupplyError::TraderInsufficientFunds
    }
}

/// A venue that cannot quote a sale cannot afford the quantity.
impl From<QuoteError> for TraderDemandError {
    fn from(e: QuoteError) -> (r: Self) {
        TraderDemandError::MarketInsufficientFunds
    }
}

impl vstd::std_specs::convert::FromSpecImpl<QuoteError> for TraderDemandError {
    open spec fn obeys_from_spec() -> bool {
        true
    }

    open spec fn from_spec(e: QuoteError) -> Self {
        TraderDemandError::MarketInsufficientFunds
    }
}

/// A venue that cannot reserve a sale cannot afford the quantity.
impl From<LockError> for TraderDemandError {
    fn from(e: LockError) -> (r: Self) {
        TraderDemandError::MarketInsufficientFunds
    }
}

impl vstd::std_specs::convert::FromSpecImpl<LockError> for TraderDemandError {
    open spec fn obeys_from_spec() -> bool {
        true
    }

    open spec fn from_spec(e: LockError) -> Self {
        TraderDemandError::MarketInsufficientFunds
    }
}

/// A venue that refuses to settle a sale has refused the goods.
impl From<ConfirmError> for TraderDemandError {
    fn from(e: ConfirmError) -> (r: Self) {
        TraderDemandError::TraderInsufficientGoods
    }
}

impl vstd::std_specs::convert::FromSpecImpl<ConfirmError> for TraderDemandError {
    open spec fn obeys_from_spec() -> bool {
        true
    }

    open spec fn from_spec(e: ConfirmError) -> Self {
        TraderDemandError::TraderInsufficientGoods
    }
}

/// A missing venue is missing for a sale as for a purchase. The other
/// failures of a purchase have no counterpart on the sale side: they are
/// handed back unchanged.
impl TryFrom<TraderSupplyError> for TraderDemandError {
    type Error = TraderSupplyError;

    fn try_from(e: TraderSupplyError) -> (r: Result<Self, Self::Error>) {
        match e {
            TraderSupplyError::MarketNotFound => Ok(TraderDemandError::MarketNotFound),
            _ => Err(e),
        }
    }
}

impl vstd::std_specs::convert::TryFromSpecImpl<TraderSupplyError> for TraderDemandError {
    open spec fn obeys_try_from_spec() -> bool {
        true
    }

    open spec fn try_from_spec(e: TraderSupplyError) -> Result<Self, Self::Error> {
        match e {
            TraderSupplyError::MarketNotFound => Ok(TraderDemandError::MarketNotFound),
            _ => Err(e),
        }
    }
}

} // verus!
