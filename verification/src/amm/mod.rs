//! The liquidity pool program.
pub mod error;
pub mod state;
pub mod ops;
pub mod introspection;
pub mod initialize;
pub mod deposit;
pub mod swap;
pub mod withdraw;
pub mod withdraw_with_introspection;
pub mod burn_lp;
pub mod mint_lp;
pub mod laws;
