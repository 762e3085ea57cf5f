//! An inventory ledger for a small store: products, purchases, sales,
//! running average cost and per-sale profit, all in integer minor units.

pub mod money;
pub mod product;
pub mod inventory;
pub mod store;
pub mod report;
pub mod laws;
pub mod session;
