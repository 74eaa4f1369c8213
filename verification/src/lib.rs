//! Core engine of a simulated stock-trading session.
//!
//! A synthetic price series evolves by a random walk; a player trades a
//! single instrument against a cash balance. The engine keeps a rolling
//! window of recent prices, a portfolio state machine with buy/sell/freeze
//! transitions, and a session clock, and derives net worth, profit and
//! return-on-investment figures from them. Rendering and scheduling are
//! left to the embedding application.
//!
//! Money is held in integer units of one hundredth of a cent, prices in
//! integer cents, so the one-percent trading spread is exact.

mod external;
pub mod history;
pub mod portfolio;
pub mod session;
pub mod sim;
