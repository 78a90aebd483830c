use vstd::prelude::*;

verus! {

/// Every amount in this crate (balances, quantities, prices) is an integer
/// count of thousandths of a unit: `SCALE` of them make one unit.
pub const SCALE: u64 = 1000;

/// The kinds of asset that the trader holds. `EUR` is the base currency.
#[derive(Debug, Clone, Copy, PartialEq, Eq, Hash, Structural)]
pub enum GoodKind {
    EUR,
    USD,
    YEN,
    YUAN,
}

impl GoodKind {
    /// Position of the kind in `all_kinds()`.
    pub open spec fn spec_index(self) -> int {
        match self {
            GoodKind::EUR => 0,
            GoodKind::USD => 1,
            GoodKind::YEN => 2,
            GoodKind::YUAN => 3,
        }
    }

    pub fn index(&self) -> (r: usize)
        ensures
            r == self.spec_index(),
    {
        match self {
            GoodKind::EUR => 0,
            GoodKind::USD => 1,
            GoodKind::YEN => 2,
            GoodKind::YUAN => 3,
        }
    }

    pub open spec fn is_base(self) -> bool {
        self == GoodKind::EUR
    }
}

/// Every kind, base currency first.
pub open spec fn spec_all_kinds() -> Seq<GoodKind> {
    seq![GoodKind::EUR, GoodKind::USD, GoodKind::YEN, GoodKind::YUAN]
}

/// The kinds other than the base currency, in the order in which quotes are sampled.
pub open spec fn spec_traded_kinds() -> Seq<GoodKind> {
    seq![GoodKind::USD, GoodKind::YEN, GoodKind::YUAN]
}

pub fn all_kinds() -> (r: Vec<GoodKind>)
    ensures
        r@ == spec_all_kinds(),
{
    let r = vec![GoodKind::EUR, GoodKind::USD, GoodKind::YEN, GoodKind::YUAN];
    assert(r@ =~= spec_all_kinds());
    r
}

pub fn traded_kinds() -> (r: Vec<GoodKind>)
    ensures
        r@ == spec_traded_kinds(),
{
    let r = vec![GoodKind::USD, GoodKind::YEN, GoodKind::YUAN];
    assert(r@ =~= spec_traded_kinds());
    r
}

/// A quantity of one kind of asset.
#[derive(Debug, Clone, Copy, PartialEq, Eq, Structural)]
pub struct Good {
    pub kind: GoodKind,
    pub quantity: u64,
}

impl Good {
    pub fn get_kind(&self) -> (r: GoodKind)
        ensures
            r == self.kind,
    {
        self.kind
    }

    pub fn get_qty(&self) -> (r: u64)
        ensures
            r == self.quantity,
    {
        self.quantity
    }
}

#[derive(Debug, Clone, Copy, PartialEq, Eq, Structural)]
pub enum LedgerError {
    /// The amount cannot be added: the balance would exceed `u64::MAX`.
    InvalidAmount,
    /// The amount to take is larger than the balance.
    InsufficientBalance,
}

/// How many units of a kind one unit of the base currency is worth, in
/// thousandths, for each kind other than the base currency.
#[derive(Debug, Clone, Copy, PartialEq, Eq, Structural)]
pub struct ExchangeRates {
    pub usd: u64,
    pub yen: u64,
    pub yuan: u64,
}

impl ExchangeRates {
    pub open spec fn wf(self) -> bool {
        self.usd > 0 && self.yen > 0 && self.yuan > 0
    }

    pub open spec fn spec_rate(self, kind: GoodKind) -> u64 {
        match kind {
            GoodKind::EUR => SCALE,
            GoodKind::USD => self.usd,
            GoodKind::YEN => self.yen,
            GoodKind::YUAN => self.yuan,
        }
    }
}

/// A balance of one kind, valued in the base currency at the reference rate.
pub open spec fn spec_value_in_base(amount: int, kind: GoodKind, rates: ExchangeRates) -> int {
    if kind.is_base() {
        amount
    } else {
        amount * (SCALE as int) / (rates.spec_rate(kind) as int)
    }
}

/// The trader's balances, one per kind. Every kind is always present.
#[derive(Debug, Clone, Copy, PartialEq, Eq, Structural)]
pub struct Ledger {
    pub eur: u64,
    pub usd: u64,
    pub yen: u64,
    pub yuan: u64,
}

impl Ledger {
    pub open spec fn spec_balance(self, kind: GoodKind) -> u64 {
        match kind {
            GoodKind::EUR => self.eur,
            GoodKind::USD => self.usd,
            GoodKind::YEN => self.yen,
            GoodKind::YUAN => self.yuan,
        }
    }

    /// The ledger with the balance of `kind` replaced by `amount`.
    pub open spec fn spec_set(self, kind: GoodKind, amount: u64) -> Ledger {
        match kind {
            GoodKind::EUR => Ledger { eur: amount, ..self },
            GoodKind::USD => Ledger { usd: amount, ..self },
            GoodKind::YEN => Ledger { yen: amount, ..self },
            GoodKind::YUAN => Ledger { yuan: amount, ..self },
        }
    }

    /// `amount` added to the balance of `kind`, capped at `u64::MAX`.
    pub open spec fn spec_deposit(self, kind: GoodKind, amount: u64) -> Ledger {
        let sum = self.spec_balance(kind) + amount;
        self.spec_set(kind, if sum > u64::MAX { u64::MAX } else { sum as u64 })
    }

    /// `out_amount` of `out_kind` taken, then `in_amount` of `in_kind` deposited.
    pub open spec fn spec_exchange(
        self,
        out_kind: GoodKind,
        out_amount: u64,
        in_kind: GoodKind,
        in_amount: u64,
    ) -> Ledger {
        self.spec_set(out_kind, (self.spec_balance(out_kind) - out_amount) as u64).spec_deposit(
            in_kind,
            in_amount,
        )
    }

    /// The balances, in the order of `spec_all_kinds()`.
    pub open spec fn spec_balances(self) -> Seq<u64> {
        seq![self.eur, self.usd, self.yen, self.yuan]
    }

    /// Value of all balances in the base currency at the reference rates.
    pub open spec fn spec_capital(self, rates: ExchangeRates) -> int {
        spec_value_in_base(self.eur as int, GoodKind::EUR, rates) + spec_value_in_base(
            self.usd as int,
            GoodKind::USD,
            rates,
        ) + spec_value_in_base(self.yen as int, GoodKind::YEN, rates) + spec_value_in_base(
            self.yuan as int,
            GoodKind::YUAN,
            rates,
        )
    }

    pub open spec fn new_spec(base: u64) -> Ledger {
        Ledger { eur: base, usd: 0, yen: 0, yuan: 0 }
    }

    /// A ledger with `base` in the base currency and nothing of any other kind.
    pub fn new(base: u64) -> (r: Ledger)
        ensures
            r == Ledger::new_spec(base),
            r.spec_balance(GoodKind::EUR) == base,
            r.spec_balance(GoodKind::USD) == 0,
            r.spec_balance(GoodKind::YEN) == 0,
            r.spec_balance(GoodKind::YUAN) == 0,
    {
        Ledger { eur: base, usd: 0, yen: 0, yuan: 0 }
    }

    pub fn balance(&self, kind: GoodKind) -> (r: u64)
        ensures
            r == self.spec_balance(kind),
    {
        match kind {
            GoodKind::EUR => self.eur,
            GoodKind::USD => self.usd,
            GoodKind::YEN => self.yen,
            GoodKind::YUAN => self.yuan,
        }
    }

    pub fn balances(&self) -> (r: Vec<u64>)
        ensures
            r@ == self.spec_balances(),
    {
        let r = vec![self.eur, self.usd, self.yen, self.yuan];
        assert(r@ =~= self.spec_balances());
        r
    }

    /// Replaces the balance of `kind`.
    pub fn set(&mut self, kind: GoodKind, amount: u64)
        ensures
            *final(self) == old(self).spec_set(kind, amount),
    {
        match kind {
            GoodKind::EUR => self.eur = amount,
            GoodKind::USD => self.usd = amount,
            GoodKind::YEN => self.yen = amount,
            GoodKind::YUAN => self.yuan = amount,
        }
    }

    /// Adds `amount` to the balance of `kind`; fails, changing nothing, where
    /// the sum would not fit.
    pub fn credit(&mut self, kind: GoodKind, amount: u64) -> (r: Result<(), LedgerError>)
        ensures
            r is Ok <==> old(self).spec_balance(kind) + amount <= u64::MAX,
            r is Ok ==> *final(self) == old(self).spec_set(
                kind,
                (old(self).spec_balance(kind) + amount) as u64,
            ),
            r is Err ==> r == Err::<(), LedgerError>(LedgerError::InvalidAmount) && *final(self)
                == *old(self),
    {
        let b = self.balance(kind);
        if amount > u64::MAX - b {
            return Err(LedgerError::InvalidAmount);
        }
        self.set(kind, b + amount);
        Ok(())
    }

    /// Adds `amount` to the balance of `kind`, keeping at most `u64::MAX`.
    pub fn deposit(&mut self, kind: GoodKind, amount: u64)
        ensures
            *final(self) == old(self).spec_deposit(kind, amount),
    {
        let b = self.balance(kind);
        if amount > u64::MAX - b {
            self.set(kind, u64::MAX);
        } else {
            self.set(kind, b + amount);
        }
    }

    /// Takes `amount` from the balance of `kind`; fails, changing nothing,
    /// where the balance is smaller.
    pub fn debit(&mut self, kind: GoodKind, amount: u64) -> (r: Result<(), LedgerError>)
        ensures
            r is Ok <==> amount <= old(self).spec_balance(kind),
            r is Ok ==> *final(self) == old(self).spec_set(
                kind,
                (old(self).spec_balance(kind) - amount) as u64,
            ),
            r is Err ==> r == Err::<(), LedgerError>(LedgerError::InsufficientBalance)
                && *final(self) == *old(self),
    {
        let b = self.balance(kind);
        if amount > b {
            return Err(LedgerError::InsufficientBalance);
        }
        self.set(kind, b - amount);
        Ok(())
    }

    /// Value of all balances in the base currency at the reference rates:
    /// each other kind's balance divided by its rate.
    pub fn capital(&self, rates: &ExchangeRates) -> (r: u128)
        requires
            rates.wf(),
        ensures
            r as int == self.spec_capital(*rates),
    {
        let usd = (self.usd as u128) * (SCALE as u128) / (rates.usd as u128);
        let yen = (self.yen as u128) * (SCALE as u128) / (rates.yen as u128);
        let yuan = (self.yuan as u128) * (SCALE as u128) / (rates.yuan as u128);
        proof {
            lemma_value_bound(self.usd, rates.usd);
            lemma_value_bound(self.yen, rates.yen);
            lemma_value_bound(self.yuan, rates.yuan);
        }
        self.eur as u128 + usd + yen + yuan
    }
}

proof fn lemma_value_bound(amount: u64, rate: u64)
    requires
        rate > 0,
    ensures
        0 <= (amount as int) * (SCALE as int) / (rate as int) <= (amount as int) * (SCALE as int),
{
    assert(0 <= (amount as int) * (SCALE as int) / (rate as int) <= (amount as int) * (SCALE as int))
        by (nonlinear_arith)
        requires
            rate > 0,
            amount >= 0,
    ;
}

} // verus!
