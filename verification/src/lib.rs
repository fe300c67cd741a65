//! Personal-finance bookkeeping core: ledger rules for incomes, payments and
//! transfers, the decisions of the repositories and handlers, and the error
//! vocabulary shared by every layer.

pub mod account;
pub mod balance;
pub mod catalog;
pub mod db;
pub mod http;
pub mod ids;
pub mod ledger;
pub mod money;
pub mod soc;
pub mod swagger_ui;
pub mod text;
pub mod transaction_type;
