//! Quadratic-voting governance: named governance spaces, proposals opened under
//! them, and votes whose weight is the integer square root of a held balance.

pub mod address;
pub mod credits;
pub mod error;
pub mod instructions;
pub mod laws;
pub mod ledger;
pub mod state;
pub mod store;
pub mod token;
