//! The dice game program.
pub mod constants;
pub mod error;
pub mod state;
pub mod place_bet;
pub mod refund_bet;
pub mod laws;
