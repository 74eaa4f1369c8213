//! The portfolio state machine: cash, share count and the trade rules.
//!
//! Prices are integer cents; money is held in integer units of one hundredth
//! of a cent, so a quoted price of `p` cents converts to `100 * p` money
//! units and the one-percent fee on either side of a trade is exact:
//! buying one share costs `101 * p` money units, selling one credits
//! `99 * p`.
//!
//! Ineligible trades are silent no-ops: eligibility is part of the public
//! contract, not an error path.

use vstd::prelude::*;

verus! {

/// Money units per cent: the scale that makes the one-percent spread exact.
pub const MONEY_UNITS_PER_CENT: i128 = 100;

/// Largest share count a portfolio may reach; one more buy is refused.
pub const MAX_SHARES: u64 = 1_000_000_000;

/// Largest cash magnitude (in money units) a trade may leave behind; a trade
/// that would step outside is refused. Generous enough that net worth always
/// fits the machine word.
pub const CASH_LIMIT: i128 = 1_000_000_000_000_000_000_000_000_000_000;

/// Cost in money units of buying one share quoted at `price` cents:
/// the price plus the one-percent fee.
pub open spec fn buy_cost(price: i64) -> int {
    101 * price
}

/// Credit in money units for selling one share quoted at `price` cents:
/// the price minus the one-percent fee.
pub open spec fn sell_credit(price: i64) -> int {
    99 * price
}

pub open spec fn in_cash_range(x: int) -> bool {
    -(CASH_LIMIT as int) <= x <= CASH_LIMIT as int
}

/// The mathematical state of a portfolio.
pub ghost struct PortfolioModel {
    pub cash: int,
    pub shares: int,
    pub reference_worth: int,
    pub frozen: bool,
}

impl PortfolioModel {
    pub open spec fn wf(self) -> bool {
        &&& 0 <= self.shares <= MAX_SHARES as int
        &&& in_cash_range(self.cash)
        &&& in_cash_range(self.reference_worth)
        &&& (self.frozen ==> self.shares == 0)
    }

    /// A buy is eligible while the portfolio is not frozen, the cash covers
    /// the quoted cost, and machine limits on cash and shares are kept.
    pub open spec fn can_buy(self, price: i64) -> bool {
        &&& !self.frozen
        &&& self.cash >= buy_cost(price)
        &&& in_cash_range(self.cash - buy_cost(price))
        &&& self.shares < MAX_SHARES as int
    }

    /// A sell is eligible while the portfolio is not frozen, at least one
    /// share is held, and the machine limit on cash is kept.
    pub open spec fn can_sell(self, price: i64) -> bool {
        &&& !self.frozen
        &&& self.shares >= 1
        &&& in_cash_range(self.cash + sell_credit(price))
    }

    /// Buying one share at `price`: on the transition from empty to holding
    /// the pre-trade cash is recorded as the reference worth. An ineligible
    /// buy changes nothing.
    pub open spec fn buy_step(self, price: i64) -> PortfolioModel {
        if self.can_buy(price) {
            PortfolioModel {
                cash: self.cash - buy_cost(price),
                shares: self.shares + 1,
                reference_worth: if self.shares == 0 {
                    self.cash
                } else {
                    self.reference_worth
                },
                frozen: self.frozen,
            }
        } else {
            self
        }
    }

    /// Selling one share at `price`. An ineligible sell changes nothing.
    pub open spec fn sell_step(self, price: i64) -> PortfolioModel {
        if self.can_sell(price) {
            PortfolioModel {
                cash: self.cash + sell_credit(price),
                shares: self.shares - 1,
                reference_worth: self.reference_worth,
                frozen: self.frozen,
            }
        } else {
            self
        }
    }

    /// Forced liquidation at zero: remaining shares are wiped without
    /// crediting cash, and no later trade has any effect.
    pub open spec fn freeze_step(self) -> PortfolioModel {
        PortfolioModel { cash: self.cash, shares: 0, reference_worth: self.reference_worth, frozen: true }
    }

    /// Cash plus shares valued at the instantaneous sell price.
    pub open spec fn net_worth_at(self, price: i64) -> int {
        self.cash + self.shares * sell_credit(price)
    }
}

/// Cash, a non-negative share count, and the reference-worth baseline.
pub struct Portfolio {
    cash: i128,
    shares: u64,
    reference_worth: i128,
    frozen: bool,
}

impl View for Portfolio {
    type V = PortfolioModel;

    closed spec fn view(&self) -> PortfolioModel {
        PortfolioModel {
            cash: self.cash as int,
            shares: self.shares as int,
            reference_worth: self.reference_worth as int,
            frozen: self.frozen,
        }
    }
}

impl Portfolio {
    pub fn new(initial_cash: i128) -> (r: Self)
        requires
            in_cash_range(initial_cash as int),
        ensures
            r@.wf(),
            r@ == (PortfolioModel { cash: initial_cash as int, shares: 0, reference_worth: 0, frozen: false }),
    {
        Portfolio { cash: initial_cash, shares: 0, reference_worth: 0, frozen: false }
    }

    pub fn cash(&self) -> (r: i128)
        ensures
            r == self@.cash,
    {
        self.cash
    }

    pub fn shares(&self) -> (r: u64)
        ensures
            r == self@.shares,
    {
        self.shares
    }

    pub fn reference_worth(&self) -> (r: i128)
        ensures
            r == self@.reference_worth,
    {
        self.reference_worth
    }

    pub fn is_frozen(&self) -> (r: bool)
        ensures
            r == self@.frozen,
    {
        self.frozen
    }

    /// The eligibility predicate that `buy` itself applies, for callers that
    /// gate the action (for instance to enable a button).
    pub fn can_buy(&self, price: i64) -> (r: bool)
        requires
            self@.wf(),
        ensures
            r == self@.can_buy(price),
    {
        if self.frozen {
            return false;
        }
        let cost: i128 = 101 * (price as i128);
        self.cash >= cost && -CASH_LIMIT <= self.cash - cost && self.cash - cost <= CASH_LIMIT
            && self.shares < MAX_SHARES
    }

    /// The eligibility predicate that `sell` itself applies.
    pub fn can_sell(&self, price: i64) -> (r: bool)
        requires
            self@.wf(),
        ensures
            r == self@.can_sell(price),
    {
        if self.frozen {
            return false;
        }
        let credit: i128 = 99 * (price as i128);
        self.shares >= 1 && -CASH_LIMIT <= self.cash + credit && self.cash + credit <= CASH_LIMIT
    }

    /// Buys one share quoted at `price` cents; a no-op when ineligible.
    pub fn buy(&mut self, price: i64)
        requires
            old(self)@.wf(),
        ensures
            final(self)@.wf(),
            final(self)@ == old(self)@.buy_step(price),
    {
        if self.can_buy(price) {
            if self.shares == 0 {
                self.reference_worth = self.cash;
            }
            self.cash = self.cash - 101 * (price as i128);
            self.shares = self.shares + 1;
        }
    }

    /// Sells one share quoted at `price` cents; a no-op when ineligible.
    pub fn sell(&mut self, price: i64)
        requires
            old(self)@.wf(),
        ensures
            final(self)@.wf(),
            final(self)@ == old(self)@.sell_step(price),
    {
        if self.can_sell(price) {
            self.cash = self.cash + 99 * (price as i128);
            self.shares = self.shares - 1;
        }
    }

    /// Forced liquidation at zero value; the portfolio is frozen for good.
    pub fn freeze(&mut self)
        requires
            old(self)@.wf(),
        ensures
            final(self)@.wf(),
            final(self)@ == old(self)@.freeze_step(),
    {
        self.shares = 0;
        self.frozen = true;
    }

    /// Net worth at the given quote: cash plus shares valued at the
    /// instantaneous sell price.
    pub fn net_worth(&self, price: i64) -> (r: i128)
        requires
            self@.wf(),
        ensures
            r == self@.net_worth_at(price),
    {
        let credit: i128 = 99 * (price as i128);
        proof {
            let s = self.shares as int;
            let c = credit as int;
            assert(-(MAX_SHARES as int * 922337203685477580700) <= s * c
                && s * c <= MAX_SHARES as int * 922337203685477580700) by (nonlinear_arith)
                requires
                    0 <= s <= MAX_SHARES as int,
                    -922337203685477580700 <= c <= 922337203685477580700,
            ;
        }
        let holdings: i128 = (self.shares as i128) * credit;
        self.cash + holdings
    }
}

/// Net worth of a well-formed portfolio stays far inside the machine word:
/// the cash is bounded by `CASH_LIMIT` and the holdings by the share cap
/// times the largest credit a price can quote.
pub proof fn lemma_net_worth_bounds(m: PortfolioModel, price: i64)
    requires
        m.wf(),
    ensures
        -2 * CASH_LIMIT as int <= m.net_worth_at(price) <= 2 * CASH_LIMIT as int,
{
    let s = m.shares;
    let c = sell_credit(price);
    assert(-(MAX_SHARES as int * 922337203685477580700) <= s * c
        && s * c <= MAX_SHARES as int * 922337203685477580700) by (nonlinear_arith)
        requires
            0 <= s <= MAX_SHARES as int,
            -922337203685477580700 <= c <= 922337203685477580700,
    ;
}

/// Law: a buy followed immediately by a sell at the same positive quoted
/// price strictly decreases cash, by exactly twice the price in money units
/// (the fee asymmetry of the spread), and returns the share count to where
/// it was.
pub proof fn lemma_spread_loss(m: PortfolioModel, price: i64)
    requires
        m.wf(),
        m.can_buy(price),
        price > 0,
    ensures
        m.buy_step(price).sell_step(price).cash == m.cash - 2 * price,
        m.buy_step(price).sell_step(price).cash < m.cash,
        m.buy_step(price).sell_step(price).shares == m.shares,
{
    let after_buy = m.buy_step(price);
    assert(after_buy.can_sell(price));
}

/// Law: the share count is never negative, increases only by an eligible
/// buy and only by one, decreases only by an eligible sell and only by one,
/// and is zeroed by a freeze; no other portfolio transition touches it.
pub proof fn lemma_shares_transitions(m: PortfolioModel, price: i64)
    requires
        m.wf(),
    ensures
        m.buy_step(price).shares >= 0,
        m.sell_step(price).shares >= 0,
        m.buy_step(price).shares == if m.can_buy(price) { m.shares + 1 } else { m.shares },
        m.sell_step(price).shares == if m.can_sell(price) { m.shares - 1 } else { m.shares },
        m.freeze_step().shares == 0,
{
}

/// Law: freezing zeroes the share count without crediting cash, and once a
/// portfolio is frozen no buy or sell changes anything.
pub proof fn lemma_freeze_is_terminal(m: PortfolioModel, price: i64)
    requires
        m.wf(),
    ensures
        m.freeze_step().shares == 0,
        m.freeze_step().cash == m.cash,
        m.freeze_step().frozen,
        m.freeze_step().buy_step(price) == m.freeze_step(),
        m.freeze_step().sell_step(price) == m.freeze_step(),
        m.frozen ==> m.shares == 0 && m.buy_step(price) == m && m.sell_step(price) == m,
{
}

/// Law: the reference worth is written exactly at each empty-to-holding buy
/// (recording the pre-trade cash) and at no other transition: buys from a
/// holding state, sells and freezes leave it alone, and a later
/// empty-to-holding buy overwrites it anew.
pub proof fn lemma_reference_worth(m: PortfolioModel, price: i64)
    requires
        m.wf(),
    ensures
        m.can_buy(price) && m.shares == 0 ==> m.buy_step(price).reference_worth == m.cash,
        m.can_buy(price) && m.shares > 0 ==> m.buy_step(price).reference_worth == m.reference_worth,
        !m.can_buy(price) ==> m.buy_step(price).reference_worth == m.reference_worth,
        m.sell_step(price).reference_worth == m.reference_worth,
        m.freeze_step().reference_worth == m.reference_worth,
{
}

} // verus!
