//! The ledger: how incomes, payments and transfers move the balances of the
//! assets they name, and the workflows that record them.

pub mod plan;
pub mod listing;
pub mod workflow;
