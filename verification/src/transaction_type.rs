//! The kinds of ledger entries.

use vstd::prelude::*;

verus! {

/// The kind of a ledger entry.
#[derive(Debug, Clone, Copy, PartialEq, Eq)]
pub enum TransactionType {
    Income,
    Payment,
    Transfer,
}

impl TransactionType {
    /// The name the kind is stored under.
    pub open spec fn stored_name(self) -> Seq<char> {
        match self {
            TransactionType::Income => "income"@,
            TransactionType::Payment => "payment"@,
            TransactionType::Transfer => "transfer"@,
        }
    }

    /// The name the kind is stored under: `income`, `payment` or `transfer`.
    pub fn name(&self) -> (r: &'static str)
        ensures
            r@ == self.stored_name(),
    {
        proof {
            reveal_strlit("income");
            reveal_strlit("payment");
            reveal_strlit("transfer");
        }
        match self {
            TransactionType::Income => "income",
            TransactionType::Payment => "payment",
            TransactionType::Transfer => "transfer",
        }
    }
}

} // verus!
