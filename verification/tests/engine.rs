use trader_core::history::PriceHistory;
use trader_core::portfolio::Portfolio;
use trader_core::sim::{RoiBasis, Sim, INITIAL_CASH, SEED_PRICE_CENTS};

// Money units are hundredths of a cent: 1 currency unit = 10_000 money
// units. Prices are in cents: 1 currency unit = 100 cents.

#[test]
fn window_never_exceeds_capacity_and_fills_exactly() {
    let mut h = PriceHistory::new(3);
    assert_eq!(h.len(), 0);
    for p in 1..=5i64 {
        h.push(p);
        assert!(h.len() <= 3);
    }
    assert_eq!(h.len(), 3);
    assert_eq!(h.series(), vec![3, 4, 5]);
    assert_eq!(h.latest(), Some(5));
}

#[test]
fn window_keeps_all_until_full() {
    let mut h = PriceHistory::new(100);
    for p in 0..42i64 {
        h.push(p);
    }
    assert_eq!(h.len(), 42);
    assert_eq!(h.latest(), Some(41));
    assert_eq!(h.capacity(), 100);
}

#[test]
fn buy_then_sell_same_price_loses_the_spread() {
    // Initial cash 1000, price 100: buy costs 101, sell returns 99.
    let mut pf = Portfolio::new(10_000_000);
    pf.buy(10_000);
    assert_eq!(pf.cash(), 8_990_000);
    assert_eq!(pf.shares(), 1);
    assert_eq!(pf.reference_worth(), 10_000_000);
    pf.sell(10_000);
    assert_eq!(pf.cash(), 9_980_000);
    assert_eq!(pf.shares(), 0);
    // Net loss of 2 currency units versus the 1000 baseline.
    assert_eq!(10_000_000 - pf.cash(), 20_000);
}

#[test]
fn ineligible_trades_are_silent_no_ops() {
    let mut pf = Portfolio::new(10_000_000);
    // Selling with no shares changes nothing.
    pf.sell(10_000);
    assert_eq!(pf.cash(), 10_000_000);
    assert_eq!(pf.shares(), 0);
    // Buying beyond the cash at hand changes nothing: cost is 101 * price.
    assert!(!pf.can_buy(100_000));
    pf.buy(100_000);
    assert_eq!(pf.cash(), 10_000_000);
    assert_eq!(pf.shares(), 0);
    // A price the cash just covers goes through: 101 * 99009 <= 10_000_000.
    assert!(pf.can_buy(99_009));
    assert!(!pf.can_buy(99_010));
    pf.buy(99_009);
    assert_eq!(pf.cash(), 10_000_000 - 101 * 99_009);
    assert_eq!(pf.shares(), 1);
}

#[test]
fn freeze_wipes_shares_and_ends_trading() {
    let mut pf = Portfolio::new(10_000_000);
    pf.buy(10_000);
    pf.buy(10_000);
    assert_eq!(pf.shares(), 2);
    let cash_before = pf.cash();
    pf.freeze();
    assert_eq!(pf.shares(), 0);
    assert_eq!(pf.cash(), cash_before);
    assert!(pf.is_frozen());
    pf.buy(10_000);
    pf.sell(10_000);
    assert_eq!(pf.shares(), 0);
    assert_eq!(pf.cash(), cash_before);
}

#[test]
fn reference_worth_tracks_each_empty_to_holding_buy() {
    let mut pf = Portfolio::new(10_000_000);
    pf.buy(10_000);
    assert_eq!(pf.reference_worth(), 10_000_000);
    // A second buy from a holding state leaves the baseline alone.
    pf.buy(10_000);
    assert_eq!(pf.reference_worth(), 10_000_000);
    // Selling back to empty leaves it alone too.
    pf.sell(10_000);
    pf.sell(10_000);
    assert_eq!(pf.reference_worth(), 10_000_000);
    assert_eq!(pf.shares(), 0);
    // The next empty-to-holding buy overwrites it with the new cash.
    let cash_now = pf.cash();
    assert_eq!(cash_now, 9_960_000);
    pf.buy(10_000);
    assert_eq!(pf.reference_worth(), cash_now);
}

#[test]
fn net_worth_values_shares_at_the_sell_quote() {
    let mut pf = Portfolio::new(10_000_000);
    pf.buy(10_000);
    pf.buy(10_000);
    // Worth = cash + 2 * 99 * price.
    assert_eq!(pf.net_worth(10_000), 10_000_000 - 2 * 1_010_000 + 2 * 990_000);
    // At a different quote the same holdings are revalued.
    assert_eq!(pf.net_worth(20_000), 10_000_000 - 2 * 1_010_000 + 2 * 1_980_000);
}

#[test]
fn scenario_flat_prices_round_trip() {
    // Initial cash 1000, price sequence [100, 100, 100].
    let mut sim = Sim::new(10_000_000, 10_000, 100, true, 0);
    sim.advance_at(0, 200);
    sim.advance_at(0, 400);
    sim.advance_at(0, 600);
    assert_eq!(sim.price_series(), vec![10_000, 10_000, 10_000]);
    assert_eq!(sim.latest_price(), Some(10_000));
    assert_eq!(sim.quoted_buy(), Some(1_010_000));
    assert_eq!(sim.quoted_sell(), Some(990_000));
    assert!(sim.can_buy());
    sim.buy();
    assert_eq!(sim.cash(), 8_990_000);
    assert_eq!(sim.shares(), 1);
    assert_eq!(sim.reference_worth(), 10_000_000);
    assert!(sim.can_sell());
    sim.sell();
    assert_eq!(sim.cash(), 9_980_000);
    assert_eq!(sim.shares(), 0);
    // Lost exactly 2 currency units to the spread.
    assert_eq!(sim.total_profit(), Some(-20_000));
}

#[test]
fn insolvency_ends_the_session_exactly_once() {
    let mut sim = Sim::new(10_000_000, 10_000, 100, true, 0);
    sim.advance_at(0, 200);
    sim.buy();
    assert_eq!(sim.shares(), 1);
    // A step below the whole price drives it non-positive.
    sim.advance_at(-20_000, 400);
    assert!(sim.is_over());
    assert_eq!(sim.ended_at_ms(), Some(400));
    assert_eq!(sim.price_series(), vec![10_000, -10_000]);
    // The remaining share was liquidated at zero: no cash credited.
    assert_eq!(sim.shares(), 0);
    assert_eq!(sim.cash(), 8_990_000);
    // A further tick changes nothing, the end stays where it was.
    sim.advance_at(5_000, 600);
    assert_eq!(sim.price_series(), vec![10_000, -10_000]);
    assert_eq!(sim.ended_at_ms(), Some(400));
    // Trades after the end are no-ops.
    sim.buy();
    sim.sell();
    assert_eq!(sim.cash(), 8_990_000);
    assert_eq!(sim.shares(), 0);
}

#[test]
fn without_the_insolvency_rule_the_walk_continues() {
    let mut sim = Sim::new(10_000_000, 10_000, 100, false, 0);
    sim.advance_at(-20_000, 200);
    assert_eq!(sim.latest_price(), Some(-10_000));
    assert!(!sim.is_over());
    sim.advance_at(1_000, 400);
    assert_eq!(sim.price_series(), vec![-10_000, -9_000]);
    assert!(!sim.is_over());
}

#[test]
fn price_window_evicts_oldest_during_the_walk() {
    let mut sim = Sim::new(10_000_000, 10_000, 2, true, 0);
    sim.advance_at(100, 200);
    sim.advance_at(100, 400);
    sim.advance_at(100, 600);
    assert_eq!(sim.price_series(), vec![10_200, 10_300]);
}

#[test]
fn roi_is_unavailable_at_elapsed_zero() {
    let mut sim = Sim::new(10_000_000, 10_000, 100, true, 1_000);
    sim.advance_at(0, 1_000);
    // A price exists but no time has passed: explicitly unavailable.
    assert!(sim.roi_basis_at(1_000).is_none());
    // Before the first tick there is no worth to measure either.
    let fresh = Sim::new(10_000_000, 10_000, 100, true, 1_000);
    assert!(fresh.roi_basis_at(2_000).is_none());
}

#[test]
fn roi_basis_reports_exact_inputs() {
    let mut sim = Sim::new(10_000_000, 10_000, 100, true, 1_000);
    sim.advance_at(0, 1_200);
    sim.buy();
    let basis: RoiBasis = sim.roi_basis_at(61_000).unwrap();
    assert_eq!(basis.net_worth, 8_990_000 + 990_000);
    assert_eq!(basis.initial_cash, 10_000_000);
    assert_eq!(basis.elapsed_ms, 60_000);
}

#[test]
fn roi_elapsed_freezes_at_the_recorded_end() {
    let mut sim = Sim::new(10_000_000, 10_000, 100, true, 1_000);
    sim.advance_at(-20_000, 31_000);
    assert!(sim.is_over());
    let basis = sim.roi_basis_at(500_000).unwrap();
    assert_eq!(basis.elapsed_ms, 30_000);
}

#[test]
fn roi_stays_available_after_the_end_whatever_the_clock_says() {
    let mut sim = Sim::new(10_000_000, 10_000, 100, true, 1_000);
    sim.advance_at(-20_000, 31_000);
    assert!(sim.is_over());
    // Once over, the elapsed time is the recorded difference and the wall
    // clock no longer decides availability.
    let basis = sim.roi_basis().unwrap();
    assert_eq!(basis.elapsed_ms, 30_000);
    assert_eq!(basis.net_worth, 10_000_000);
    assert_eq!(basis.initial_cash, 10_000_000);
}

#[test]
fn default_session_starts_fresh_on_the_wall_clock() {
    let mut sim = Sim::start(true);
    assert!(!sim.is_over());
    assert_eq!(sim.cash(), INITIAL_CASH);
    assert_eq!(sim.shares(), 0);
    assert_eq!(sim.price_series(), Vec::<i64>::new());
    assert_eq!(sim.latest_price(), None);
    assert_eq!(sim.net_worth(), None);
    assert_eq!(sim.total_profit(), None);
    assert_eq!(sim.capacity(), 100);
    // The first tick steps away from the seed price.
    sim.advance(0);
    assert_eq!(sim.latest_price(), Some(SEED_PRICE_CENTS));
}
