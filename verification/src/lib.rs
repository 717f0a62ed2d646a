//! A merchant loyalty-points ledger.

pub mod error;
pub mod history;
pub mod laws;
pub mod ledger;
pub mod merchant;
pub mod model;
pub mod store;
pub mod transfer;
pub mod wallet;
