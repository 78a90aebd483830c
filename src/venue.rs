use vstd::prelude::*;

use crate::goods::GoodKind;

verus! {

/// Why a venue declined to quote a price.
#[derive(Debug, Clone, Copy, PartialEq, Eq, Structural)]
pub enum QuoteError {
    /// The venue does not hold enough of the kind to sell that quantity.
    InsufficientSupply,
    /// The venue does not hold enough currency to buy that quantity.
    InsufficientFunds,
}

/// Why a venue declined to reserve a trade.
#[derive(Debug, Clone, Copy, PartialEq, Eq, Structural)]
pub enum LockError {
    /// The venue cannot cover the trade: it lacks the goods or the currency.
    QuantityUnavailable,
    /// The offered price no longer matches the venue's price for the quantity.
    PriceMismatch,
}

/// Why a venue refused to settle a reserved trade.
#[derive(Debug, Clone, Copy, PartialEq, Eq, Structural)]
pub enum ConfirmError {
    /// What was handed over does not cover the reserved trade.
    InsufficientPayment,
    /// The token is unknown, already used, or its window has passed.
    InvalidToken,
}

/// One line of a venue's inventory.
#[derive(Debug, Clone, Copy, PartialEq, Eq, Structural)]
pub struct GoodLabel {
    pub good_kind: GoodKind,
    pub quantity: u64,
}

/// What the trader needs of an exchange venue. Prices and quantities are
/// counted in thousandths, as everywhere in this crate.
///
/// Nothing is assumed of an implementation: what this crate proves of the
/// operations that use a venue holds whatever the venue answers.
pub trait Venue {
    /// A name for display.
    fn get_name(&self) -> String;

    /// What buying `quantity` of `kind` from the venue costs, in base currency.
    fn quote_buy(&self, kind: GoodKind, quantity: u64) -> Result<u64, QuoteError>;

    /// What the venue pays, in base currency, for `quantity` of `kind`.
    fn quote_sell(&self, kind: GoodKind, quantity: u64) -> Result<u64, QuoteError>;

    /// Reserves the purchase of `quantity` of `kind` at `price`; returns a token.
    fn lock_buy(&mut self, kind: GoodKind, quantity: u64, price: u64, trader_name: String) -> Result<
        String,
        LockError,
    >;

    /// Reserves the sale of `quantity` of `kind` at `price`; returns a token.
    fn lock_sell(
        &mut self,
        kind: GoodKind,
        quantity: u64,
        price: u64,
        trader_name: String,
    ) -> Result<String, LockError>;

    /// Settles a reserved purchase with `payment` in base currency; returns
    /// the quantity of goods delivered.
    fn confirm_buy(&mut self, token: String, payment: u64) -> Result<u64, ConfirmError>;

    /// Settles a reserved sale with `goods` of the reserved kind; returns the
    /// base currency paid.
    fn confirm_sell(&mut self, token: String, goods: u64) -> Result<u64, ConfirmError>;

    /// What the venue holds.
    fn inventory(&self) -> Vec<GoodLabel>;

    /// The base currency the venue holds.
    fn budget(&self) -> u64;

    /// One logical day passes.
    fn advance_time(&mut self);
}

} // verus!
