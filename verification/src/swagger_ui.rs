//! The API documents, one per group of handlers; their contents are
//! generated where the HTTP server is assembled.

use vstd::prelude::*;

verus! {

/// The API document of the asset handlers.
pub struct AssetApi;

/// The API document of the asset type handlers.
pub struct AssetTypeApi;

/// The API document of the sign-in and sign-up handlers.
pub struct AuthApi;

/// The API document of the contact handlers.
pub struct ContactApi;

/// The API document of the contact type handlers.
pub struct ContactTypeApi;

/// The API document of the balance sheet handlers.
pub struct CurrentSheetApi;

/// The API document of the expense handlers.
pub struct ExpenseApi;

/// The API document of the expense type handlers.
pub struct ExpenseTypeApi;

/// The API document of the income handlers.
pub struct IncomeApi;

/// The API document of the payment handlers.
pub struct PaymentApi;

/// The API document of the transaction type handlers.
pub struct TransactionTypeApi;

/// The API document of the transfer handlers.
pub struct TransferApi;

/// The API document of the user handlers.
pub struct UserApi;

} // verus!
