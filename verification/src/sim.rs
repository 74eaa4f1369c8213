//! The simulation loop: one tick advances the price by a random-walk step,
//! records it in the rolling window, and — when the insolvency rule is
//! enforced and the price reaches zero or below — ends the session and
//! freezes the portfolio. Trades are executed against the latest quoted
//! price, and the derived metrics (net worth, profit, return on investment)
//! are read from here.

use vstd::prelude::*;

use crate::external::now_ms;
use crate::history::{pushed, PriceHistory, DEFAULT_CAPACITY};
use crate::portfolio::{buy_cost, in_cash_range, sell_credit, Portfolio, PortfolioModel};
use crate::session::{Session, SessionModel};

verus! {

/// Starting cash of a default session, in money units (one thousand
/// currency units).
pub const INITIAL_CASH: i128 = 10_000_000;

/// Seed of the price walk, in cents (one hundred currency units); the first
/// tick steps away from it.
pub const SEED_PRICE_CENTS: i64 = 10_000;

/// Standard deviation of one random-walk step, in cents (one currency unit).
pub const STEP_STDDEV_CENTS: u64 = 100;

/// How often the embedding is expected to tick the simulation.
pub const TICK_INTERVAL_MS: u64 = 200;

/// Addition on prices, saturating at the machine bounds of a price.
pub open spec fn sat_add_price(a: i64, b: i64) -> i64 {
    if a + b > i64::MAX {
        i64::MAX
    } else if a + b < i64::MIN {
        i64::MIN
    } else {
        (a + b) as i64
    }
}

/// The mathematical state of a whole simulation.
pub ghost struct SimModel {
    pub prices: Seq<i64>,
    pub capacity: nat,
    pub portfolio: PortfolioModel,
    pub session: SessionModel,
    pub enforce_insolvency: bool,
    pub seed_price: i64,
    pub initial_cash: int,
}

impl SimModel {
    pub open spec fn wf(self) -> bool {
        &&& self.capacity >= 1
        &&& self.prices.len() <= self.capacity
        &&& self.portfolio.wf()
        &&& 0 < self.initial_cash
        &&& in_cash_range(self.initial_cash)
        &&& (self.portfolio.frozen ==> self.session.over())
    }

    /// The price a tick steps away from: the latest recorded price, or the
    /// seed before the first tick.
    pub open spec fn base_price(self) -> i64 {
        if self.prices.len() == 0 {
            self.seed_price
        } else {
            self.prices.last()
        }
    }

    /// One tick at time `now` with random-walk step `step`: a no-op once the
    /// session is over; otherwise the next price is recorded, and if it is
    /// non-positive while the insolvency rule is enforced, the session ends
    /// at `now` and the portfolio is frozen.
    pub open spec fn tick_step(self, step: i64, now: int) -> SimModel {
        if self.session.over() {
            self
        } else {
            let next = sat_add_price(self.base_price(), step);
            let recorded = SimModel {
                prices: pushed(self.prices, self.capacity, next),
                ..self
            };
            if next <= 0 && self.enforce_insolvency {
                SimModel {
                    portfolio: self.portfolio.freeze_step(),
                    session: SessionModel {
                        started_at_ms: self.session.started_at_ms,
                        ended_at_ms: Some(now),
                    },
                    ..recorded
                }
            } else {
                recorded
            }
        }
    }

    /// Net worth at the latest price; meaningful only once a price exists.
    pub open spec fn net_worth(self) -> int {
        self.portfolio.net_worth_at(self.prices.last())
    }
}

/// Inputs of the return-on-investment figure, handed to the presentation
/// layer once the metric is available: the exponentiation itself is a
/// floating-point operation that the verified core does not perform.
pub struct RoiBasis {
    /// Net worth at the latest price, in money units.
    pub net_worth: i128,
    /// The starting cash the growth is measured against, in money units.
    pub initial_cash: i128,
    /// Elapsed session time; positive.
    pub elapsed_ms: i128,
}

/// A trading session: price window, portfolio, clock and configuration.
pub struct Sim {
    history: PriceHistory,
    portfolio: Portfolio,
    session: Session,
    enforce_insolvency: bool,
    seed_price: i64,
    initial_cash: i128,
}

impl View for Sim {
    type V = SimModel;

    closed spec fn view(&self) -> SimModel {
        SimModel {
            prices: self.history@,
            capacity: self.history.cap(),
            portfolio: self.portfolio@,
            session: self.session@,
            enforce_insolvency: self.enforce_insolvency,
            seed_price: self.seed_price,
            initial_cash: self.initial_cash as int,
        }
    }
}

impl Sim {
    pub closed spec fn wf(&self) -> bool {
        &&& self.history.wf()
        &&& self@.wf()
    }

    pub fn new(
        initial_cash: i128,
        seed_price: i64,
        capacity: usize,
        enforce_insolvency: bool,
        now_ms: i64,
    ) -> (r: Sim)
        requires
            capacity >= 1,
            0 < initial_cash,
            in_cash_range(initial_cash as int),
        ensures
            r.wf(),
            r@ == (SimModel {
                prices: Seq::<i64>::empty(),
                capacity: capacity as nat,
                portfolio: PortfolioModel {
                    cash: initial_cash as int,
                    shares: 0,
                    reference_worth: 0,
                    frozen: false,
                },
                session: SessionModel { started_at_ms: now_ms as int, ended_at_ms: None },
                enforce_insolvency,
                seed_price,
                initial_cash: initial_cash as int,
            }),
    {
        Sim {
            history: PriceHistory::new(capacity),
            portfolio: Portfolio::new(initial_cash),
            session: Session::new(now_ms),
            enforce_insolvency,
            seed_price,
            initial_cash,
        }
    }

    /// Begins a session with the default configuration, started at the
    /// current wall-clock time.
    pub fn start(enforce_insolvency: bool) -> (r: Sim)
        ensures
            r.wf(),
            r@.prices == Seq::<i64>::empty(),
            r@.capacity == DEFAULT_CAPACITY as nat,
            r@.portfolio == (PortfolioModel {
                cash: INITIAL_CASH as int,
                shares: 0,
                reference_worth: 0,
                frozen: false,
            }),
            !r@.session.over(),
            r@.enforce_insolvency == enforce_insolvency,
            r@.seed_price == SEED_PRICE_CENTS,
            r@.initial_cash == INITIAL_CASH as int,
    {
        let begun_at = now_ms();
        Sim::new(INITIAL_CASH, SEED_PRICE_CENTS, DEFAULT_CAPACITY, enforce_insolvency, begun_at)
    }

    /// One tick with the given random-walk step, at the given moment.
    pub fn advance_at(&mut self, step_cents: i64, now_ms: i64)
        requires
            old(self).wf(),
        ensures
            final(self).wf(),
            final(self)@ == old(self)@.tick_step(step_cents, now_ms as int),
            old(self)@.session.over() ==> final(self)@ == old(self)@,
    {
        if self.session.is_over() {
            return;
        }
        let base: i64 = match self.history.latest() {
            Some(p) => p,
            None => self.seed_price,
        };
        let wide: i128 = (base as i128) + (step_cents as i128);
        let next: i64 = if wide > (i64::MAX as i128) {
            i64::MAX
        } else if wide < (i64::MIN as i128) {
            i64::MIN
        } else {
            wide as i64
        };
        self.history.push(next);
        if next <= 0 && self.enforce_insolvency {
            self.session.end(now_ms);
            self.portfolio.freeze();
        }
    }

    /// One tick with the given random-walk step, at the current wall-clock
    /// time. The step is drawn by the embedding from the configured normal
    /// distribution (a floating-point draw the verified core does not hold).
    pub fn advance(&mut self, step_cents: i64)
        requires
            old(self).wf(),
        ensures
            final(self).wf(),
            exists|now: int| final(self)@ == old(self)@.tick_step(step_cents, now),
            old(self)@.session.over() ==> final(self)@ == old(self)@,
            final(self)@.portfolio.cash == old(self)@.portfolio.cash,
            final(self)@.portfolio.reference_worth == old(self)@.portfolio.reference_worth,
            final(self)@.session.started_at_ms == old(self)@.session.started_at_ms,
            old(self)@.session.over() ==> final(self)@.session == old(self)@.session,
    {
        let moment = now_ms();
        self.advance_at(step_cents, moment);
        proof {
            assert(final(self)@ == old(self)@.tick_step(step_cents, moment as int));
        }
    }

    /// The most recent price in cents, or none before the first tick.
    pub fn latest_price(&self) -> (r: Option<i64>)
        ensures
            self@.prices.len() > 0 ==> r == Some(self@.prices.last()),
            self@.prices.len() == 0 ==> r.is_none(),
    {
        self.history.latest()
    }

    /// The rolling window of recent prices, oldest first.
    pub fn price_series(&self) -> (r: Vec<i64>)
        ensures
            r@ == self@.prices,
    {
        self.history.series()
    }

    pub fn capacity(&self) -> (r: usize)
        ensures
            r == self@.capacity,
    {
        self.history.capacity()
    }

    pub fn cash(&self) -> (r: i128)
        ensures
            r == self@.portfolio.cash,
    {
        self.portfolio.cash()
    }

    pub fn shares(&self) -> (r: u64)
        ensures
            r == self@.portfolio.shares,
    {
        self.portfolio.shares()
    }

    pub fn reference_worth(&self) -> (r: i128)
        ensures
            r == self@.portfolio.reference_worth,
    {
        self.portfolio.reference_worth()
    }

    pub fn initial_cash(&self) -> (r: i128)
        ensures
            r == self@.initial_cash,
    {
        self.initial_cash
    }

    pub fn is_over(&self) -> (r: bool)
        ensures
            r == self@.session.over(),
    {
        self.session.is_over()
    }

    pub fn started_at_ms(&self) -> (r: i64)
        ensures
            r == self@.session.started_at_ms,
    {
        self.session.started_at_ms()
    }

    pub fn ended_at_ms(&self) -> (r: Option<i64>)
        ensures
            r is Some <==> self@.session.over(),
            r matches Some(e) ==> self@.session.ended_at_ms == Some(e as int),
    {
        self.session.ended_at_ms()
    }

    /// The quoted cost of buying one share now — the latest price plus the
    /// one-percent fee, in money units — or none before the first tick.
    pub fn quoted_buy(&self) -> (r: Option<i128>)
        ensures
            self@.prices.len() > 0 ==> r == Some(buy_cost(self@.prices.last()) as i128),
            self@.prices.len() == 0 ==> r.is_none(),
    {
        match self.history.latest() {
            Some(p) => Some(101 * (p as i128)),
            None => None,
        }
    }

    /// The quoted credit for selling one share now — the latest price minus
    /// the one-percent fee, in money units — or none before the first tick.
    pub fn quoted_sell(&self) -> (r: Option<i128>)
        ensures
            self@.prices.len() > 0 ==> r == Some(sell_credit(self@.prices.last()) as i128),
            self@.prices.len() == 0 ==> r.is_none(),
    {
        match self.history.latest() {
            Some(p) => Some(99 * (p as i128)),
            None => None,
        }
    }

    /// Whether a buy at the latest quote would go through.
    pub fn can_buy(&self) -> (r: bool)
        requires
            self.wf(),
        ensures
            r == (self@.prices.len() > 0 && self@.portfolio.can_buy(self@.prices.last())),
    {
        match self.history.latest() {
            Some(p) => self.portfolio.can_buy(p),
            None => false,
        }
    }

    /// Whether a sell at the latest quote would go through.
    pub fn can_sell(&self) -> (r: bool)
        requires
            self.wf(),
        ensures
            r == (self@.prices.len() > 0 && self@.portfolio.can_sell(self@.prices.last())),
    {
        match self.history.latest() {
            Some(p) => self.portfolio.can_sell(p),
            None => false,
        }
    }

    /// Buys one share at the latest quoted price; a silent no-op before the
    /// first tick or when the portfolio refuses the trade.
    pub fn buy(&mut self)
        requires
            old(self).wf(),
        ensures
            final(self).wf(),
            old(self)@.prices.len() == 0 ==> final(self)@ == old(self)@,
            old(self)@.prices.len() > 0 ==> final(self)@ == (SimModel {
                portfolio: old(self)@.portfolio.buy_step(old(self)@.prices.last()),
                ..old(self)@
            }),
    {
        let latest = self.history.latest();
        if let Some(p) = latest {
            self.portfolio.buy(p);
        }
    }

    /// Sells one share at the latest quoted price; a silent no-op before the
    /// first tick or when the portfolio refuses the trade.
    pub fn sell(&mut self)
        requires
            old(self).wf(),
        ensures
            final(self).wf(),
            old(self)@.prices.len() == 0 ==> final(self)@ == old(self)@,
            old(self)@.prices.len() > 0 ==> final(self)@ == (SimModel {
                portfolio: old(self)@.portfolio.sell_step(old(self)@.prices.last()),
                ..old(self)@
            }),
    {
        let latest = self.history.latest();
        if let Some(p) = latest {
            self.portfolio.sell(p);
        }
    }

    /// Net worth at the latest price — cash plus shares valued at the
    /// quoted sell price — or none before the first tick.
    pub fn net_worth(&self) -> (r: Option<i128>)
        requires
            self.wf(),
        ensures
            r matches Some(w) ==> w == self@.net_worth(),
            r is Some <==> self@.prices.len() > 0,
    {
        match self.history.latest() {
            Some(p) => Some(self.portfolio.net_worth(p)),
            None => None,
        }
    }

    /// Net worth minus the starting cash, or none before the first tick.
    pub fn total_profit(&self) -> (r: Option<i128>)
        requires
            self.wf(),
        ensures
            r matches Some(p) ==> p == self@.net_worth() - self@.initial_cash,
            r is Some <==> self@.prices.len() > 0,
    {
        match self.net_worth() {
            Some(w) => {
                proof {
                    crate::portfolio::lemma_net_worth_bounds(self@.portfolio, self@.prices.last());
                }
                Some(w - self.initial_cash)
            },
            None => None,
        }
    }

    /// The inputs of the return-on-investment-per-minute figure at the given
    /// moment. Unavailable — with no fault raised — until the session has
    /// both a price and a positive elapsed time, so the singular growth
    /// exponent at elapsed zero is never formed.
    pub fn roi_basis_at(&self, now_ms: i64) -> (r: Option<RoiBasis>)
        requires
            self.wf(),
        ensures
            r is Some <==> (self@.session.elapsed_ms(now_ms as int) > 0 && self@.prices.len() > 0),
            r matches Some(b) ==> {
                &&& b.net_worth == self@.net_worth()
                &&& b.initial_cash == self@.initial_cash
                &&& b.elapsed_ms == self@.session.elapsed_ms(now_ms as int)
            },
    {
        let elapsed = self.session.elapsed_ms(now_ms);
        if elapsed <= 0 {
            return None;
        }
        match self.net_worth() {
            Some(w) => Some(RoiBasis { net_worth: w, initial_cash: self.initial_cash, elapsed_ms: elapsed }),
            None => None,
        }
    }

    /// The return-on-investment inputs at the current wall-clock time; see
    /// `roi_basis_at`. While the session runs the availability depends on
    /// the clock; once it is over the elapsed time is frozen at the recorded
    /// end, the clock no longer decides, and the figure is owed exactly when
    /// that frozen elapsed time is positive and a price exists.
    pub fn roi_basis(&self) -> (r: Option<RoiBasis>)
        requires
            self.wf(),
        ensures
            r matches Some(b) ==> {
                &&& b.net_worth == self@.net_worth()
                &&& b.initial_cash == self@.initial_cash
                &&& b.elapsed_ms > 0
                &&& self@.prices.len() > 0
            },
            self@.prices.len() == 0 ==> r.is_none(),
            self@.session.over() ==> (r is Some <==> (self@.session.elapsed_ms(0) > 0
                && self@.prices.len() > 0)),
            self@.session.over() ==> (r matches Some(b) ==> b.elapsed_ms
                == self@.session.elapsed_ms(0)),
    {
        let moment = now_ms();
        self.roi_basis_at(moment)
    }
}

/// Law: once the session is over a tick changes nothing — in particular the
/// price window stays exactly as it was — and a session that a tick has just
/// ended stays over through every later tick.
pub proof fn lemma_over_is_terminal(m: SimModel, step: i64, now: int, step2: i64, now2: int)
    requires
        m.wf(),
    ensures
        m.session.over() ==> m.tick_step(step, now) == m,
        m.tick_step(step, now).session.over() ==> m.tick_step(step, now).tick_step(step2, now2)
            == m.tick_step(step, now),
        m.tick_step(step, now).session.over() && !m.session.over() ==> m.tick_step(
            step,
            now,
        ).portfolio.shares == 0,
{
}

/// Law: a tick ends the session exactly when the insolvency rule is
/// enforced and the newly recorded price is non-positive; it never trades —
/// cash and the reference worth are untouched, and the share count changes
/// only by the freeze that ends the game.
pub proof fn lemma_tick_never_trades(m: SimModel, step: i64, now: int)
    requires
        m.wf(),
        !m.session.over(),
    ensures
        m.tick_step(step, now).portfolio.cash == m.portfolio.cash,
        m.tick_step(step, now).portfolio.reference_worth == m.portfolio.reference_worth,
        m.tick_step(step, now).session.over() <==> (m.enforce_insolvency && sat_add_price(
            m.base_price(),
            step,
        ) <= 0),
        m.tick_step(step, now).session.over() ==> m.tick_step(step, now).portfolio.shares == 0,
        !m.tick_step(step, now).session.over() ==> m.tick_step(step, now).portfolio
            == m.portfolio,
{
}

} // verus!
