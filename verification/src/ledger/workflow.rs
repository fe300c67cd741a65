//! The workflows that record, change and delete incomes, payments and
//! transfers. A workflow alternates database work, which its caller performs,
//! with decisions, which it takes here: each handler receives the outcome of
//! the action it asked for and answers with the next action.

use vstd::prelude::*;
use crate::ids::{
    parses_to, be_value, hyphenated_text, parse_uuid, slice_length_error, uuid_from_slice, uuid_parse,
    uuid_to_string,
};
use crate::db::DbFailure;
use crate::ledger::plan::{
    plan_income_created, plan_income_deleted, plan_income_updated, plan_payment_created,
    plan_payment_deleted, plan_payment_updated, plan_transfer_created, plan_transfer_deleted,
    plan_transfer_updated, signed_units, income_created, amount_units, applied, income_effect,
    law_changes_move_balances_as_entries_do, law_plans_move_balances_as_entries_do,
    lemma_applied_is_net, net, payment_effect, transfer_effect, income_deleted, income_updated, payment_created,
    payment_deleted, payment_updated, transfer_created, transfer_deleted, transfer_updated,
    Adjustment, AmountLabel, SheetLabel,
};
use crate::money::{Direction, Money, max_scale, move_balance, moved, representable, step_units};
use crate::soc::soc_repository::{ErrorKind, RepositoryError};
use crate::text::contains_text;

verus! {

/// The tables whose rows a workflow checks for existence.
#[derive(Debug, Clone, Copy, PartialEq, Eq)]
pub enum Table {
    TransactionType,
    Expense,
    Asset,
    Contact,
}

/// A ledger operation and what its request carries. Identifiers the request
/// carries as text are parsed by the workflow; the note goes into the record
/// with the identifiers; the amount is copied into the record by the caller.
#[derive(Debug, Clone, PartialEq, Eq)]
#[allow(inconsistent_fields)]
pub enum LedgerOp {
    CreatePayment {
        user: u128,
        transaction_type_id: String,
        expense_id: String,
        asset_id: String,
        contact_id: String,
        note: Option<String>,
    },
    CreateIncome {
        user: u128,
        transaction_type: u128,
        asset: u128,
        contact: u128,
        note: Option<String>,
    },
    CreateTransfer {
        user: u128,
        transaction_type_id: String,
        asset_id: String,
        destination_asset_id: String,
        contact_id: String,
        note: Option<String>,
    },
    UpdatePayment {
        user: u128,
        transaction: u128,
        expense_id: Option<String>,
        contact_id: Option<String>,
        asset_id: Option<String>,
        note: Option<String>,
    },
    UpdateIncome {
        user: u128,
        transaction: u128,
        asset: Option<u128>,
        contact: Option<u128>,
        note: Option<String>,
    },
    UpdateTransfer {
        user: u128,
        transaction: u128,
        asset_id: Option<String>,
        destination_asset_id: Option<String>,
        contact_id: Option<String>,
        note: Option<String>,
    },
    DeletePayment { user: u128, transaction: u128 },
    DeleteIncome { user: u128, transaction: u128 },
    DeleteTransfer { user: u128, transaction: u128 },
}

/// The identifiers and the note of a record to insert, the user's among
/// them; the caller adds a fresh id and the amount.
#[derive(Debug, Clone, PartialEq, Eq)]
pub struct NewRecord {
    pub user: u128,
    pub transaction_type: u128,
    pub asset: u128,
    pub destination_asset: Option<u128>,
    pub contact: u128,
    pub expense: Option<u128>,
    pub note: Option<String>,
}

/// The identifiers and the note to set on a record being changed (`None`:
/// keep); the caller sets the amount the request carries.
#[derive(Debug, Clone, PartialEq, Eq)]
pub struct RecordChanges {
    pub asset: Option<u128>,
    pub destination_asset: Option<u128>,
    pub contact: Option<u128>,
    pub expense: Option<u128>,
    pub note: Option<String>,
}

/// What a workflow reads of a stored record: its asset and destination
/// asset as stored bytes, its amount as a decimal (`None` when the stored
/// amount has none), and, after a change, the difference of the amounts as a
/// decimal (old less new for a payment, new less old for an income).
#[derive(Debug, Clone, PartialEq, Eq)]
pub struct RecordFacts {
    pub asset_id: Vec<u8>,
    pub destination_asset_id: Option<Vec<u8>>,
    pub amount: Option<Money>,
    pub change: Option<Money>,
}

impl RecordFacts {
    /// The decimals are ones `rust_decimal` can hold.
    pub open spec fn wf(&self) -> bool {
        &&& amount_wf(self.amount)
        &&& amount_wf(self.change)
    }

    /// Whether the decimals are ones `rust_decimal` can hold.
    pub fn is_valid(&self) -> (r: bool)
        ensures
            r == self.wf(),
    {
        let a = match self.amount {
            Some(m) => -crate::money::MAX_MANTISSA <= m.mantissa && m.mantissa
                <= crate::money::MAX_MANTISSA && m.scale <= crate::money::MAX_SCALE,
            None => true,
        };
        let c = match self.change {
            Some(m) => -crate::money::MAX_MANTISSA <= m.mantissa && m.mantissa
                <= crate::money::MAX_MANTISSA && m.scale <= crate::money::MAX_SCALE,
            None => true,
        };
        a && c
    }
}

/// The next thing the caller must do.
#[derive(Debug, PartialEq, Eq)]
pub enum Action {
    /// Begin a database transaction.
    BeginTransaction,
    /// Look the row up by id in the table; report whether it exists.
    CheckExists { table: Table, id: u128 },
    /// Insert the record; report the stored record.
    Insert(NewRecord),
    /// Fetch the user's record by id; report it, if any.
    FetchRecord { user: u128, transaction: u128 },
    /// Save the record with the changes; report the stored record.
    UpdateRecord(RecordChanges),
    /// Delete the record by id; report the number of rows deleted.
    DeleteRecord { user: u128, transaction: u128 },
    /// Fetch the user's balance sheet of the asset; report its balance, if any.
    FetchSheet { user: u128, asset: u128 },
    /// Store the balance on the user's balance sheet of the asset.
    WriteSheet { user: u128, asset: u128, balance: Money },
    /// Commit the database transaction.
    Commit,
    /// Stop with the outcome, after rolling the transaction back when
    /// `rollback` is set. `Ok` hands back the record (or nothing, for a
    /// deletion).
    Finish { outcome: Result<(), RepositoryError>, rollback: bool },
    /// The decimal sum or difference overflowed, where the decimal operators
    /// panic.
    Overflow { direction: Direction },
}

/// Where a workflow stands.
#[derive(Debug, Clone, Copy, PartialEq, Eq)]
pub enum Stage {
    AwaitBegin,
    AwaitExists(usize),
    AwaitInsert,
    AwaitRecord,
    AwaitUpdate,
    AwaitDelete,
    AwaitSheet(usize),
    AwaitWrite(usize),
    AwaitCommit,
    Finished,
}

/// A running workflow: the operation, the stage, the identifiers checked so
/// far, the balance adjustments to make, and what the changed record held
/// before the change.
#[derive(Debug, Clone, PartialEq, Eq)]
pub struct LedgerRun {
    pub op: LedgerOp,
    pub stage: Stage,
    pub checked: Vec<u128>,
    pub plan: Vec<Adjustment>,
    pub old_source: u128,
    pub old_destination: u128,
    pub old_amount: Option<Money>,
}

// ---------------------------------------------------------------------------
// What the operations are
// ---------------------------------------------------------------------------

impl LedgerOp {
    /// The user on whose behalf the operation runs.
    pub open spec fn user(&self) -> u128 {
        match *self {
            LedgerOp::CreatePayment { user, .. } => user,
            LedgerOp::CreateIncome { user, .. } => user,
            LedgerOp::CreateTransfer { user, .. } => user,
            LedgerOp::UpdatePayment { user, .. } => user,
            LedgerOp::UpdateIncome { user, .. } => user,
            LedgerOp::UpdateTransfer { user, .. } => user,
            LedgerOp::DeletePayment { user, .. } => user,
            LedgerOp::DeleteIncome { user, .. } => user,
            LedgerOp::DeleteTransfer { user, .. } => user,
        }
    }

    /// The note the request carries: the record's note on a creation, the
    /// new note (`None`: keep) on a change; deletions carry none.
    pub open spec fn note(&self) -> Option<String> {
        match *self {
            LedgerOp::CreatePayment { note, .. } => note,
            LedgerOp::CreateIncome { note, .. } => note,
            LedgerOp::CreateTransfer { note, .. } => note,
            LedgerOp::UpdatePayment { note, .. } => note,
            LedgerOp::UpdateIncome { note, .. } => note,
            LedgerOp::UpdateTransfer { note, .. } => note,
            _ => None,
        }
    }

    /// The record the operation changes or deletes.
    pub open spec fn transaction(&self) -> u128 {
        match *self {
            LedgerOp::UpdatePayment { transaction, .. } => transaction,
            LedgerOp::UpdateIncome { transaction, .. } => transaction,
            LedgerOp::UpdateTransfer { transaction, .. } => transaction,
            LedgerOp::DeletePayment { transaction, .. } => transaction,
            LedgerOp::DeleteIncome { transaction, .. } => transaction,
            LedgerOp::DeleteTransfer { transaction, .. } => transaction,
            _ => 0,
        }
    }

    /// The operation runs inside a database transaction (all but the
    /// deletion of a transfer).
    pub open spec fn has_txn(&self) -> bool {
        !(self is DeleteTransfer)
    }

    /// The operation is about a transfer.
    pub open spec fn is_transfer(&self) -> bool {
        self is CreateTransfer || self is UpdateTransfer || self is DeleteTransfer
    }

    /// A failure while reading or writing balance sheets rolls back.
    pub open spec fn sheet_rollback(&self) -> bool {
        !(self is UpdateTransfer || self is DeleteTransfer)
    }

    /// A failed decimal conversion of an amount rolls back.
    pub open spec fn conversion_rollback(&self) -> bool {
        !self.is_transfer()
    }

    /// A failure while reading, changing or deleting the record rolls back.
    pub open spec fn record_rollback(&self) -> bool {
        !self.is_transfer()
    }

    /// How many referenced identifiers are checked before the record is
    /// written.
    pub open spec fn ref_count(&self) -> nat {
        match *self {
            LedgerOp::CreatePayment { .. } => 4,
            LedgerOp::CreateTransfer { .. } => 4,
            LedgerOp::UpdateTransfer { .. } => 3,
            _ => 0,
        }
    }

    /// The table the `i`-th referenced identifier must exist in.
    pub open spec fn ref_table(&self, i: int) -> Table {
        match *self {
            LedgerOp::CreatePayment { .. } => if i == 0 {
                Table::TransactionType
            } else if i == 1 {
                Table::Expense
            } else if i == 2 {
                Table::Asset
            } else {
                Table::Contact
            },
            LedgerOp::CreateTransfer { .. } => if i == 0 {
                Table::TransactionType
            } else if i == 3 {
                Table::Contact
            } else {
                Table::Asset
            },
            _ => if i == 2 {
                Table::Contact
            } else {
                Table::Asset
            },
        }
    }

    /// The text of the `i`-th referenced identifier, if the request has one.
    pub open spec fn ref_text(&self, i: int) -> Option<Seq<char>> {
        match self {
            LedgerOp::CreatePayment {
                transaction_type_id,
                expense_id,
                asset_id,
                contact_id,
                ..
            } => Some(
                if i == 0 {
                    transaction_type_id@
                } else if i == 1 {
                    expense_id@
                } else if i == 2 {
                    asset_id@
                } else {
                    contact_id@
                },
            ),
            LedgerOp::CreateTransfer {
                transaction_type_id,
                asset_id,
                destination_asset_id,
                contact_id,
                ..
            } => Some(
                if i == 0 {
                    transaction_type_id@
                } else if i == 1 {
                    asset_id@
                } else if i == 2 {
                    destination_asset_id@
                } else {
                    contact_id@
                },
            ),
            LedgerOp::UpdateTransfer { asset_id, destination_asset_id, contact_id, .. } => {
                let t = if i == 0 {
                    asset_id
                } else if i == 1 {
                    destination_asset_id
                } else {
                    contact_id
                };
                match t {
                    Some(s) => Some(s@),
                    None => None,
                }
            },
            _ => None,
        }
    }
}

// ---------------------------------------------------------------------------
// The texts of the errors
// ---------------------------------------------------------------------------

/// `a` stops the workflow with an error of the kind and text, rolling back
/// as told.
pub open spec fn fails(a: Action, kind: ErrorKind, text: Seq<char>, rollback: bool) -> bool {
    a matches Action::Finish { outcome: Err(e), rollback: rb } && e.kind() == kind && e.detail()
        == text && rb == rollback
}

/// `a` stops the workflow successfully.
pub open spec fn succeeds(a: Action) -> bool {
    a matches Action::Finish { outcome: Ok(()), rollback: false }
}

/// The error kind when the request lacks the `i`-th identifier.
pub open spec fn absent_text(i: int) -> Seq<char> {
    if i == 0 {
        "Asset ID is missing"@
    } else if i == 1 {
        "Destination asset ID is missing"@
    } else {
        "Contact ID is missing"@
    }
}

/// The kind of the error when the `i`-th identifier does not parse.
pub open spec fn unparsable_kind(op: LedgerOp, i: int) -> ErrorKind {
    if op is CreatePayment && i == 0 || op is CreateTransfer && i == 0 {
        ErrorKind::InvalidInput
    } else {
        ErrorKind::OperationFailed
    }
}

/// The text of the error when the `i`-th identifier does not parse, given
/// the parser's error text.
pub open spec fn unparsable_text(op: LedgerOp, i: int, err: Seq<char>) -> Seq<char> {
    match op {
        LedgerOp::CreatePayment { .. } => if i == 0 {
            "Invalid transaction_type_id"@
        } else if i == 1 {
            "Invalid expense UUID: "@ + err
        } else if i == 2 {
            "Invalid asset UUID: "@ + err
        } else {
            "Invalid contact UUID: "@ + err
        },
        LedgerOp::CreateTransfer { .. } => if i == 0 {
            "Invalid transaction_type_id"@
        } else if i == 1 {
            "Invalid asset ID UUID"@
        } else if i == 2 {
            "Invalid destination asset ID UUID"@
        } else {
            "Invalid contact ID UUID"@
        },
        _ => if i == 0 {
            "Invalid asset ID UUID"@
        } else if i == 1 {
            "Invalid destination asset ID UUID"@
        } else {
            "Invalid contact ID UUID"@
        },
    }
}

/// Whether the failure to parse the `i`-th identifier rolls back.
pub open spec fn unparsable_rollback(op: LedgerOp, i: int) -> bool {
    !((op is CreatePayment || op is CreateTransfer) && i == 0)
}

/// The kind of the error when the `i`-th identifier names no row.
pub open spec fn unknown_kind(op: LedgerOp, i: int) -> ErrorKind {
    if op is CreatePayment || i == 0 && op is CreateTransfer {
        ErrorKind::InvalidInput
    } else {
        ErrorKind::OperationFailed
    }
}

/// The text of the error when the `i`-th identifier names no row.
pub open spec fn unknown_text(op: LedgerOp, i: int) -> Seq<char> {
    match op {
        LedgerOp::CreatePayment { .. } => if i == 0 {
            "Invalid transaction_type_id"@
        } else if i == 1 {
            "Invalid expense id"@
        } else if i == 2 {
            "Invalid asset id"@
        } else {
            "Invalid contact id"@
        },
        LedgerOp::CreateTransfer { .. } => if i == 0 {
            "Invalid transaction_type_id"@
        } else if i == 1 {
            "Invalid asset ID"@
        } else if i == 2 {
            "Invalid destination asset ID"@
        } else {
            "Invalid contact ID"@
        },
        _ => if i == 0 {
            "Invalid asset ID"@
        } else if i == 1 {
            "Invalid destination asset ID"@
        } else {
            "Invalid contact ID"@
        },
    }
}

/// Whether an identifier that names no row rolls back.
pub open spec fn unknown_rollback(op: LedgerOp, i: int) -> bool {
    op is UpdateTransfer || op is CreateTransfer && i != 0
}

/// `<prefix><transaction> not found for user <user><suffix>`.
pub open spec fn not_found_text(
    prefix: Seq<char>,
    transaction: u128,
    user: u128,
    suffix: Seq<char>,
) -> Seq<char> {
    prefix + hyphenated_text(transaction) + " not found for user "@ + hyphenated_text(user) + suffix
}

/// The text of the error when the record to change or delete is missing.
pub open spec fn record_missing_text(op: LedgerOp) -> Seq<char> {
    let prefix = if op is DeletePayment {
        "Payment record "@
    } else if op is DeleteIncome {
        "Income record "@
    } else {
        "Transaction "@
    };
    not_found_text(prefix, op.transaction(), op.user(), ""@)
}

/// The text of the error when deleting the record deleted nothing.
pub open spec fn delete_missing_text(op: LedgerOp) -> Seq<char> {
    let prefix = if op is DeletePayment {
        "Payment record "@
    } else if op is DeleteIncome {
        "Income record "@
    } else {
        "Transaction "@
    };
    not_found_text(prefix, op.transaction(), op.user(), " during delete operation"@)
}

/// How the asset is named in the error for its missing balance sheet.
pub open spec fn sheet_words(label: SheetLabel) -> Seq<char> {
    match label {
        SheetLabel::Plain => "asset "@,
        SheetLabel::Asset => "asset "@,
        SheetLabel::OldAsset => "old asset "@,
        SheetLabel::NewAsset => "new asset "@,
        SheetLabel::SourceAsset => "source asset "@,
        SheetLabel::DestinationAsset => "destination asset "@,
        SheetLabel::OldSourceAsset => "old source asset "@,
        SheetLabel::OldDestinationAsset => "old destination asset "@,
        SheetLabel::NewSourceAsset => "new source asset "@,
        SheetLabel::NewDestinationAsset => "new destination asset "@,
    }
}

/// The text of the error for a missing balance sheet.
pub open spec fn sheet_missing_text(label: SheetLabel, asset: u128) -> Seq<char> {
    match label {
        SheetLabel::Plain => "Current sheet not found for asset "@ + hyphenated_text(asset),
        _ => "Current sheet for "@ + sheet_words(label) + hyphenated_text(asset) + " not found"@,
    }
}

/// How an amount is named in the error for its failed decimal conversion.
pub open spec fn amount_words(label: AmountLabel) -> Seq<char> {
    match label {
        AmountLabel::Amount => "amount"@,
        AmountLabel::BalanceChange => "balance change"@,
        AmountLabel::OldAmount => "old_amount"@,
        AmountLabel::NewAmountWords => "new amount"@,
        AmountLabel::NewAmount => "new_amount"@,
        AmountLabel::AmountToAddBack => "amount_to_add_back"@,
        AmountLabel::AmountToSubtract => "amount_to_subtract"@,
    }
}

/// The text of the error for an amount with no decimal form.
pub open spec fn conversion_text(label: AmountLabel) -> Seq<char> {
    "Failed to convert "@ + amount_words(label) + " to Decimal"@
}

/// The amount, if any, is one `rust_decimal` can hold.
pub open spec fn amount_wf(amount: Option<Money>) -> bool {
    amount matches Some(m) ==> m.wf()
}

/// The identifier that sixteen stored bytes denote.
pub open spec fn id_of(bytes: Seq<u8>) -> u128 {
    be_value(bytes) as u128
}

// ---------------------------------------------------------------------------
// How the workflow proceeds
// ---------------------------------------------------------------------------

impl LedgerRun {
    /// The state is consistent: the stage belongs to the operation and the
    /// indices and amounts it relies on are in range.
    pub open spec fn wf(&self) -> bool {
        &&& forall|k: int|
            0 <= k < self.plan@.len() ==> amount_wf((#[trigger] self.plan@[k]).amount)
        &&& amount_wf(self.old_amount)
        &&& match self.stage {
            Stage::AwaitBegin => self.op.has_txn() && self.checked@.len() == 0,
            Stage::AwaitExists(i) => i < self.op.ref_count() && self.checked@.len() == i + 1,
            Stage::AwaitInsert => (self.op is CreatePayment || self.op is CreateIncome
                || self.op is CreateTransfer) && self.checked@.len() == self.op.ref_count(),
            Stage::AwaitRecord => !(self.op is CreatePayment || self.op is CreateIncome
                || self.op is CreateTransfer) && self.checked@.len() == self.op.ref_count(),
            Stage::AwaitUpdate => (self.op is UpdatePayment || self.op is UpdateIncome
                || self.op is UpdateTransfer) && self.checked@.len() == self.op.ref_count(),
            Stage::AwaitDelete => self.op is DeletePayment || self.op is DeleteIncome
                || self.op is DeleteTransfer,
            Stage::AwaitSheet(i) => i < self.plan@.len(),
            Stage::AwaitWrite(i) => i < self.plan@.len(),
            Stage::AwaitCommit => self.op.has_txn(),
            Stage::Finished => true,
        }
    }

    /// The run stopped, and `a` is its last action.
    pub open spec fn stopped(&self, a: Action) -> bool {
        self.stage == Stage::Finished && a is Finish
    }
}

/// After the checks of the referenced identifiers: the record is inserted
/// (creations) or fetched (the change of a transfer).
pub open spec fn after_refs(op: LedgerOp, checked: Seq<u128>, run: LedgerRun, a: Action) -> bool {
    &&& run.checked@ == checked
    &&& match op {
        LedgerOp::CreatePayment { .. } => run.stage == Stage::AwaitInsert && a == Action::Insert(
            NewRecord {
                user: op.user(),
                transaction_type: checked[0],
                asset: checked[2],
                destination_asset: None,
                contact: checked[3],
                expense: Some(checked[1]),
                note: op.note(),
            },
        ),
        LedgerOp::CreateTransfer { .. } => run.stage == Stage::AwaitInsert && a == Action::Insert(
            NewRecord {
                user: op.user(),
                transaction_type: checked[0],
                asset: checked[1],
                destination_asset: Some(checked[2]),
                contact: checked[3],
                expense: None,
                note: op.note(),
            },
        ),
        _ => run.stage == Stage::AwaitRecord && a == Action::FetchRecord {
            user: op.user(),
            transaction: op.transaction(),
        },
    }
}

/// Checking the referenced identifiers from the `j`-th on: an absent or
/// unparsable identifier stops the run, a parsed one is looked up.
pub open spec fn refs_from(op: LedgerOp, checked: Seq<u128>, j: int, run: LedgerRun, a: Action) -> bool {
    if j < op.ref_count() {
        match op.ref_text(j) {
            None => run.stopped(a) && fails(a, ErrorKind::OperationFailed, absent_text(j), true),
            Some(t) => match uuid_parse(t) {
                Err(e) => run.stopped(a) && fails(
                    a,
                    unparsable_kind(op, j),
                    unparsable_text(op, j, e),
                    unparsable_rollback(op, j),
                ),
                Ok(v) => run.stage == Stage::AwaitExists(j as usize) && run.checked@ == checked.push(
                    v,
                ) && a == Action::CheckExists { table: op.ref_table(j), id: v },
            },
        }
    } else {
        after_refs(op, checked, run, a)
    }
}

/// Once the record is written: the adjustments are made from the `i`-th on,
/// then the transaction is committed (or, without one, the run succeeds).
pub open spec fn adjusting(op: LedgerOp, plan: Seq<Adjustment>, i: int, run: LedgerRun, a: Action) -> bool {
    &&& run.plan@ == plan
    &&& if i < plan.len() {
        run.stage == Stage::AwaitSheet(i as usize) && a == Action::FetchSheet {
            user: op.user(),
            asset: plan[i].asset,
        }
    } else if op.has_txn() {
        run.stage == Stage::AwaitCommit && a == Action::Commit
    } else {
        run.stage == Stage::Finished && succeeds(a)
    }
}

/// The stored bytes of the record's asset do not denote an identifier: the
/// run stops with `<prefix><uuid error>`.
pub open spec fn bad_bytes(run: LedgerRun, a: Action, bytes: Seq<u8>, prefix: Seq<char>, rollback: bool) -> bool {
    run.stopped(a) && fails(
        a,
        ErrorKind::OperationFailed,
        prefix + slice_length_error(bytes.len()),
        rollback,
    )
}

/// What handling the inserted record does.
pub open spec fn inserted_spec(op: LedgerOp, r: Result<RecordFacts, DbFailure>, run: LedgerRun, a: Action) -> bool {
    match r {
        Err(f) => run.stopped(a) && if op is CreatePayment && f.exec_mentions("FOREIGN KEY"@) {
            fails(
                a,
                ErrorKind::OperationFailed,
                "Invalid foreign key reference in the payment record"@,
                true,
            )
        } else {
            fails(a, ErrorKind::DatabaseError, f.message@, true)
        },
        Ok(rec) => match op {
            LedgerOp::CreateTransfer { .. } => if rec.asset_id@.len() != 16 {
                bad_bytes(run, a, rec.asset_id@, "Invalid source asset UUID: "@, false)
            } else {
                match rec.destination_asset_id {
                    None => run.stopped(a) && fails(
                        a,
                        ErrorKind::OperationFailed,
                        "Destination asset ID is missing"@,
                        false,
                    ),
                    Some(d) => if d@.len() != 16 {
                        bad_bytes(run, a, d@, "Invalid destination asset UUID: "@, false)
                    } else {
                        adjusting(
                            op,
                            transfer_created(id_of(rec.asset_id@), id_of(d@), rec.amount),
                            0,
                            run,
                            a,
                        )
                    },
                }
            },
            _ => if rec.asset_id@.len() != 16 {
                bad_bytes(run, a, rec.asset_id@, "Invalid asset UUID: "@, true)
            } else if op is CreatePayment {
                adjusting(op, payment_created(id_of(rec.asset_id@), rec.amount), 0, run, a)
            } else {
                adjusting(op, income_created(id_of(rec.asset_id@), rec.amount), 0, run, a)
            },
        },
    }
}

/// The outcome of parsing an optional identifier text.
pub open spec fn parsed_opt(t: Option<Seq<char>>) -> Option<Result<u128, Seq<char>>> {
    match t {
        Some(s) => Some(uuid_parse(s)),
        None => None,
    }
}

/// The identifier parsed from an optional text that parsed (or none).
pub open spec fn parsed_value(p: Option<Result<u128, Seq<char>>>) -> Option<u128> {
    match p {
        Some(Ok(v)) => Some(v),
        _ => None,
    }
}

/// The optional text that does not parse, with its error.
pub open spec fn parse_failed(p: Option<Result<u128, Seq<char>>>) -> bool {
    p matches Some(Err(_))
}

/// The parse error of an optional text that does not parse.
pub open spec fn parse_error(p: Option<Result<u128, Seq<char>>>) -> Seq<char> {
    match p {
        Some(Err(e)) => e,
        _ => Seq::empty(),
    }
}

/// What handling the fetched original of a payment being changed does.
pub open spec fn payment_changes_spec(
    op: LedgerOp,
    rec: RecordFacts,
    run: LedgerRun,
    a: Action,
) -> bool {
    match op {
        LedgerOp::UpdatePayment { expense_id, contact_id, asset_id, .. } => {
            let pe = parsed_opt(
                match expense_id {
                    Some(s) => Some(s@),
                    None => None,
                },
            );
            let pc = parsed_opt(
                match contact_id {
                    Some(s) => Some(s@),
                    None => None,
                },
            );
            let pa = parsed_opt(
                match asset_id {
                    Some(s) => Some(s@),
                    None => None,
                },
            );
            if parse_failed(pe) {
                run.stopped(a) && fails(
                    a,
                    ErrorKind::OperationFailed,
                    "Invalid expense UUID: "@ + parse_error(pe),
                    true,
                )
            } else if parse_failed(pc) {
                run.stopped(a) && fails(
                    a,
                    ErrorKind::OperationFailed,
                    "Invalid contact UUID: "@ + parse_error(pc),
                    true,
                )
            } else if parse_failed(pa) {
                run.stopped(a) && fails(
                    a,
                    ErrorKind::OperationFailed,
                    "Invalid asset UUID: "@ + parse_error(pa),
                    true,
                )
            } else {
                &&& run.stage == Stage::AwaitUpdate
                &&& run.old_source == id_of(rec.asset_id@)
                &&& run.old_amount == rec.amount
                &&& a == Action::UpdateRecord(
                    RecordChanges {
                        asset: parsed_value(pa),
                        destination_asset: None,
                        contact: parsed_value(pc),
                        expense: parsed_value(pe),
                        note: op.note(),
                    },
                )
            }
        },
        _ => false,
    }
}

/// What handling the fetched original record does.
pub open spec fn record_spec(
    op: LedgerOp,
    checked: Seq<u128>,
    r: Result<Option<RecordFacts>, String>,
    run: LedgerRun,
    a: Action,
) -> bool {
    match r {
        Err(m) => run.stopped(a) && fails(a, ErrorKind::DatabaseError, m@, op.record_rollback()),
        Ok(None) => run.stopped(a) && fails(
            a,
            ErrorKind::NotFound,
            record_missing_text(op),
            op.record_rollback(),
        ),
        Ok(Some(rec)) => match op {
            LedgerOp::UpdatePayment { .. } => if rec.asset_id@.len() != 16 {
                bad_bytes(run, a, rec.asset_id@, "Invalid old asset UUID: "@, true)
            } else {
                payment_changes_spec(op, rec, run, a)
            },
            LedgerOp::UpdateIncome { asset, contact, .. } => if rec.asset_id@.len() != 16 {
                bad_bytes(run, a, rec.asset_id@, "Invalid old asset UUID: "@, true)
            } else {
                &&& run.stage == Stage::AwaitUpdate
                &&& run.old_source == id_of(rec.asset_id@)
                &&& run.old_amount == rec.amount
                &&& a == Action::UpdateRecord(
                    RecordChanges {
                        asset,
                        destination_asset: None,
                        contact,
                        expense: None,
                        note: op.note(),
                    },
                )
            },
            LedgerOp::UpdateTransfer { .. } => if rec.asset_id@.len() != 16 {
                bad_bytes(run, a, rec.asset_id@, "Invalid old source asset UUID: "@, false)
            } else {
                match rec.destination_asset_id {
                    None => run.stopped(a) && fails(
                        a,
                        ErrorKind::OperationFailed,
                        "Old destination asset ID is missing"@,
                        false,
                    ),
                    Some(d) => if d@.len() != 16 {
                        bad_bytes(run, a, d@, "Invalid old destination asset UUID: "@, false)
                    } else {
                        &&& run.stage == Stage::AwaitUpdate
                        &&& run.old_source == id_of(rec.asset_id@)
                        &&& run.old_destination == id_of(d@)
                        &&& run.old_amount == rec.amount
                        &&& a == Action::UpdateRecord(
                            RecordChanges {
                                asset: Some(checked[0]),
                                destination_asset: Some(checked[1]),
                                contact: Some(checked[2]),
                                expense: None,
                                note: op.note(),
                            },
                        )
                    },
                }
            },
            LedgerOp::DeleteTransfer { .. } => if rec.asset_id@.len() != 16 {
                bad_bytes(
                    run,
                    a,
                    rec.asset_id@,
                    "Invalid source asset UUID in transaction to delete: "@,
                    false,
                )
            } else {
                match rec.destination_asset_id {
                    None => run.stopped(a) && fails(
                        a,
                        ErrorKind::OperationFailed,
                        "Destination asset ID is missing in transaction to delete"@,
                        false,
                    ),
                    Some(d) => if d@.len() != 16 {
                        bad_bytes(
                            run,
                            a,
                            d@,
                            "Invalid destination asset UUID in transaction to delete: "@,
                            false,
                        )
                    } else {
                        &&& run.stage == Stage::AwaitDelete
                        &&& run.plan@ == transfer_deleted(
                            id_of(rec.asset_id@),
                            id_of(d@),
                            rec.amount,
                        )
                        &&& a == Action::DeleteRecord {
                            user: op.user(),
                            transaction: op.transaction(),
                        }
                    },
                }
            },
            _ => if rec.asset_id@.len() != 16 {
                bad_bytes(run, a, rec.asset_id@, "Invalid asset UUID: "@, true)
            } else {
                &&& run.stage == Stage::AwaitDelete
                &&& run.plan@ == if op is DeletePayment {
                    payment_deleted(id_of(rec.asset_id@), rec.amount)
                } else {
                    income_deleted(id_of(rec.asset_id@), rec.amount)
                }
                &&& a == Action::DeleteRecord {
                            user: op.user(),
                            transaction: op.transaction(),
                        }
            },
        },
    }
}

/// What handling the changed record does.
pub open spec fn updated_spec(
    op: LedgerOp,
    old_source: u128,
    old_destination: u128,
    old_amount: Option<Money>,
    r: Result<RecordFacts, String>,
    run: LedgerRun,
    a: Action,
) -> bool {
    match r {
        Err(m) => run.stopped(a) && fails(a, ErrorKind::DatabaseError, m@, op.record_rollback()),
        Ok(rec) => if op is UpdateTransfer {
            if rec.asset_id@.len() != 16 {
                bad_bytes(run, a, rec.asset_id@, "Invalid new source asset UUID: "@, false)
            } else {
                match rec.destination_asset_id {
                    None => run.stopped(a) && fails(
                        a,
                        ErrorKind::OperationFailed,
                        "New destination asset ID is missing"@,
                        false,
                    ),
                    Some(d) => if d@.len() != 16 {
                        bad_bytes(run, a, d@, "Invalid new destination asset UUID: "@, false)
                    } else if id_of(rec.asset_id@) == id_of(d@) {
                        run.stopped(a) && fails(
                            a,
                            ErrorKind::OperationFailed,
                            "Source and destination asset cannot be the same after update."@,
                            true,
                        )
                    } else {
                        adjusting(
                            op,
                            transfer_updated(
                                old_source,
                                old_destination,
                                old_amount,
                                id_of(rec.asset_id@),
                                id_of(d@),
                                rec.amount,
                            ),
                            0,
                            run,
                            a,
                        )
                    },
                }
            }
        } else if rec.asset_id@.len() != 16 {
            bad_bytes(run, a, rec.asset_id@, "Invalid new asset UUID: "@, true)
        } else if op is UpdatePayment {
            adjusting(
                op,
                payment_updated(
                    old_source,
                    old_amount,
                    id_of(rec.asset_id@),
                    rec.amount,
                    rec.change,
                ),
                0,
                run,
                a,
            )
        } else {
            adjusting(
                op,
                income_updated(old_source, old_amount, id_of(rec.asset_id@), rec.amount, rec.change),
                0,
                run,
                a,
            )
        },
    }
}

/// What handling the fetched balance of the `i`-th adjustment does.
pub open spec fn sheet_spec(
    op: LedgerOp,
    adjustment: Adjustment,
    i: int,
    r: Result<Option<Money>, RepositoryError>,
    run: LedgerRun,
    a: Action,
) -> bool {
    match r {
        Err(e) => run.stage == Stage::Finished && a == Action::Finish {
            outcome: Err(e),
            rollback: op.sheet_rollback(),
        },
        Ok(None) => run.stopped(a) && fails(
            a,
            ErrorKind::NotFound,
            sheet_missing_text(adjustment.sheet, adjustment.asset),
            op.sheet_rollback(),
        ),
        Ok(Some(balance)) => match adjustment.amount {
            None => run.stopped(a) && fails(
                a,
                ErrorKind::OperationFailed,
                conversion_text(adjustment.label),
                op.conversion_rollback(),
            ),
            Some(amount) => match moved(balance, adjustment.direction, amount) {
                None => run.stage == Stage::Finished && a == Action::Overflow {
                    direction: adjustment.direction,
                },
                Some(nb) => run.stage == Stage::AwaitWrite(i as usize) && a == Action::WriteSheet {
                    user: op.user(),
                    asset: adjustment.asset,
                    balance: nb,
                },
            },
        },
    }
}

// ---------------------------------------------------------------------------
// The texts, built
// ---------------------------------------------------------------------------

fn fail_with(kind: ErrorKind, text: String, rollback: bool) -> (a: Action)
    ensures
        fails(a, kind, text@, rollback),
{
    Action::Finish { outcome: Err(RepositoryError::new(kind, text)), rollback }
}

fn absent_message(i: usize) -> (r: String)
    ensures
        r@ == absent_text(i as int),
{
    if i == 0 {
        String::from_str("Asset ID is missing")
    } else if i == 1 {
        String::from_str("Destination asset ID is missing")
    } else {
        String::from_str("Contact ID is missing")
    }
}

fn unparsable_failure(op: &LedgerOp, i: usize, err: String) -> (a: Action)
    ensures
        fails(
            a,
            unparsable_kind(*op, i as int),
            unparsable_text(*op, i as int, err@),
            unparsable_rollback(*op, i as int),
        ),
{
    let text = match op {
        LedgerOp::CreatePayment { .. } => if i == 0 {
            String::from_str("Invalid transaction_type_id")
        } else if i == 1 {
            String::from_str("Invalid expense UUID: ").concat(err.as_str())
        } else if i == 2 {
            String::from_str("Invalid asset UUID: ").concat(err.as_str())
        } else {
            String::from_str("Invalid contact UUID: ").concat(err.as_str())
        },
        LedgerOp::CreateTransfer { .. } => if i == 0 {
            String::from_str("Invalid transaction_type_id")
        } else if i == 1 {
            String::from_str("Invalid asset ID UUID")
        } else if i == 2 {
            String::from_str("Invalid destination asset ID UUID")
        } else {
            String::from_str("Invalid contact ID UUID")
        },
        _ => if i == 0 {
            String::from_str("Invalid asset ID UUID")
        } else if i == 1 {
            String::from_str("Invalid destination asset ID UUID")
        } else {
            String::from_str("Invalid contact ID UUID")
        },
    };
    let first = i == 0 && (matches!(op, LedgerOp::CreatePayment { .. }) || matches!(op, LedgerOp::CreateTransfer { .. }));
    let kind = if first {
        ErrorKind::InvalidInput
    } else {
        ErrorKind::OperationFailed
    };
    fail_with(kind, text, !first)
}

fn unknown_failure(op: &LedgerOp, i: usize) -> (a: Action)
    ensures
        fails(a, unknown_kind(*op, i as int), unknown_text(*op, i as int), unknown_rollback(*op, i as int)),
{
    let text = match op {
        LedgerOp::CreatePayment { .. } => if i == 0 {
            String::from_str("Invalid transaction_type_id")
        } else if i == 1 {
            String::from_str("Invalid expense id")
        } else if i == 2 {
            String::from_str("Invalid asset id")
        } else {
            String::from_str("Invalid contact id")
        },
        LedgerOp::CreateTransfer { .. } => if i == 0 {
            String::from_str("Invalid transaction_type_id")
        } else if i == 1 {
            String::from_str("Invalid asset ID")
        } else if i == 2 {
            String::from_str("Invalid destination asset ID")
        } else {
            String::from_str("Invalid contact ID")
        },
        _ => if i == 0 {
            String::from_str("Invalid asset ID")
        } else if i == 1 {
            String::from_str("Invalid destination asset ID")
        } else {
            String::from_str("Invalid contact ID")
        },
    };
    let payment = matches!(op, LedgerOp::CreatePayment { .. });
    let transfer_create = matches!(op, LedgerOp::CreateTransfer { .. });
    let update_transfer = matches!(op, LedgerOp::UpdateTransfer { .. });
    let kind = if payment || i == 0 && transfer_create {
        ErrorKind::InvalidInput
    } else {
        ErrorKind::OperationFailed
    };
    fail_with(kind, text, update_transfer || transfer_create && i != 0)
}

fn not_found_message(prefix: &str, transaction: u128, user: u128, suffix: &str) -> (r: String)
    ensures
        r@ == not_found_text(prefix@, transaction, user, suffix@),
{
    let t = uuid_to_string(transaction);
    let u = uuid_to_string(user);
    String::from_str(prefix).concat(t.as_str()).concat(" not found for user ").concat(
        u.as_str(),
    ).concat(suffix)
}

fn record_missing_message(op: &LedgerOp, transaction: u128, user: u128, during_delete: bool) -> (r: String)
    requires
        transaction == op.transaction(),
        user == op.user(),
    ensures
        !during_delete ==> r@ == record_missing_text(*op),
        during_delete ==> r@ == delete_missing_text(*op),
{
    let prefix = match op {
        LedgerOp::DeletePayment { .. } => "Payment record ",
        LedgerOp::DeleteIncome { .. } => "Income record ",
        _ => "Transaction ",
    };
    let suffix = if during_delete {
        " during delete operation"
    } else {
        ""
    };
    proof {
        reveal_strlit("Payment record ");
        reveal_strlit("Income record ");
        reveal_strlit("Transaction ");
        reveal_strlit(" during delete operation");
        reveal_strlit("");
    }
    not_found_message(prefix, transaction, user, suffix)
}

fn sheet_missing_message(label: SheetLabel, asset: u128) -> (r: String)
    ensures
        r@ == sheet_missing_text(label, asset),
{
    let id = uuid_to_string(asset);
    match label {
        SheetLabel::Plain => String::from_str("Current sheet not found for asset ").concat(
            id.as_str(),
        ),
        _ => {
            let words = match label {
                SheetLabel::Asset => "asset ",
                SheetLabel::OldAsset => "old asset ",
                SheetLabel::NewAsset => "new asset ",
                SheetLabel::SourceAsset => "source asset ",
                SheetLabel::DestinationAsset => "destination asset ",
                SheetLabel::OldSourceAsset => "old source asset ",
                SheetLabel::OldDestinationAsset => "old destination asset ",
                SheetLabel::NewSourceAsset => "new source asset ",
                _ => "new destination asset ",
            };
            proof {
                reveal_strlit("asset ");
                reveal_strlit("old asset ");
                reveal_strlit("new asset ");
                reveal_strlit("source asset ");
                reveal_strlit("destination asset ");
                reveal_strlit("old source asset ");
                reveal_strlit("old destination asset ");
                reveal_strlit("new source asset ");
                reveal_strlit("new destination asset ");
            }
            String::from_str("Current sheet for ").concat(words).concat(id.as_str()).concat(
                " not found",
            )
        },
    }
}

fn conversion_message(label: AmountLabel) -> (r: String)
    ensures
        r@ == conversion_text(label),
{
    let words = match label {
        AmountLabel::Amount => "amount",
        AmountLabel::BalanceChange => "balance change",
        AmountLabel::OldAmount => "old_amount",
        AmountLabel::NewAmountWords => "new amount",
        AmountLabel::NewAmount => "new_amount",
        AmountLabel::AmountToAddBack => "amount_to_add_back",
        AmountLabel::AmountToSubtract => "amount_to_subtract",
    };
    proof {
        reveal_strlit("amount");
        reveal_strlit("balance change");
        reveal_strlit("old_amount");
        reveal_strlit("new amount");
        reveal_strlit("new_amount");
        reveal_strlit("amount_to_add_back");
        reveal_strlit("amount_to_subtract");
    }
    String::from_str("Failed to convert ").concat(words).concat(" to Decimal")
}

/// Reads sixteen stored bytes as an identifier; otherwise the failure
/// `<prefix><uuid error>`.
fn read_id(bytes: &Vec<u8>, prefix: &str, rollback: bool) -> (r: Result<u128, Action>)
    ensures
        bytes@.len() == 16 ==> r == Ok::<u128, Action>(id_of(bytes@)),
        bytes@.len() != 16 ==> (r matches Err(a) && fails(
            a,
            ErrorKind::OperationFailed,
            prefix@ + slice_length_error(bytes@.len()),
            rollback,
        )),
{
    match uuid_from_slice(bytes.as_slice()) {
        Ok(v) => Ok(v),
        Err(e) => Err(fail_with(ErrorKind::OperationFailed, String::from_str(prefix).concat(e.as_str()), rollback)),
    }
}

// ---------------------------------------------------------------------------
// The handlers
// ---------------------------------------------------------------------------

impl LedgerRun {
    fn stop(self, a: Action) -> (r: (LedgerRun, Action))
        requires
            self.wf(),
            a is Finish,
        ensures
            r.0.op == self.op,
            r.0.plan == self.plan,
            r.0.wf(),
            r.0.stopped(r.1),
            r.1 == a,
    {
        (LedgerRun { stage: Stage::Finished, ..self }, a)
    }

    /// Starts the operation.
    pub fn start(op: LedgerOp) -> (r: (LedgerRun, Action))
        ensures
            r.0.op == op,
            r.0.wf(),
            r.0.checked@ == Seq::<u128>::empty(),
            r.0.plan@ == Seq::<Adjustment>::empty(),
            op.has_txn() ==> r.0.stage == Stage::AwaitBegin && r.1 == Action::BeginTransaction,
            !op.has_txn() ==> r.0.stage == Stage::AwaitRecord && r.1 == (Action::FetchRecord {
                user: op.user(),
                transaction: op.transaction(),
            }),
    {
        let a = match &op {
            LedgerOp::DeleteTransfer { transaction, user } => Action::FetchRecord {
                user: *user,
                transaction: *transaction,
            },
            _ => Action::BeginTransaction,
        };
        let stage = match &op {
            LedgerOp::DeleteTransfer { .. } => Stage::AwaitRecord,
            _ => Stage::AwaitBegin,
        };
        let run = LedgerRun {
            op,
            stage,
            checked: Vec::new(),
            plan: Vec::new(),
            old_source: 0,
            old_destination: 0,
            old_amount: None,
        };
        (run, a)
    }

    fn user_exec(&self) -> (r: u128)
        ensures
            r == self.op.user(),
    {
        match &self.op {
            LedgerOp::CreatePayment { user, .. } => *user,
            LedgerOp::CreateIncome { user, .. } => *user,
            LedgerOp::CreateTransfer { user, .. } => *user,
            LedgerOp::UpdatePayment { user, .. } => *user,
            LedgerOp::UpdateIncome { user, .. } => *user,
            LedgerOp::UpdateTransfer { user, .. } => *user,
            LedgerOp::DeletePayment { user, .. } => *user,
            LedgerOp::DeleteIncome { user, .. } => *user,
            LedgerOp::DeleteTransfer { user, .. } => *user,
        }
    }

    fn note_exec(&self) -> (r: Option<String>)
        ensures
            r == self.op.note(),
    {
        let note = match &self.op {
            LedgerOp::CreatePayment { note, .. } => note,
            LedgerOp::CreateIncome { note, .. } => note,
            LedgerOp::CreateTransfer { note, .. } => note,
            LedgerOp::UpdatePayment { note, .. } => note,
            LedgerOp::UpdateIncome { note, .. } => note,
            LedgerOp::UpdateTransfer { note, .. } => note,
            _ => return None,
        };
        match note {
            Some(n) => Some(n.clone()),
            None => None,
        }
    }

    fn ref_text_exec(&self, j: usize) -> (r: Option<&String>)
        requires
            j < self.op.ref_count(),
        ensures
            match r {
                Some(s) => self.op.ref_text(j as int) == Some(s@),
                None => self.op.ref_text(j as int) is None,
            },
    {
        match &self.op {
            LedgerOp::CreatePayment { transaction_type_id, expense_id, asset_id, contact_id, .. } => {
                if j == 0 {
                    Some(transaction_type_id)
                } else if j == 1 {
                    Some(expense_id)
                } else if j == 2 {
                    Some(asset_id)
                } else {
                    Some(contact_id)
                }
            },
            LedgerOp::CreateTransfer {
                transaction_type_id,
                asset_id,
                destination_asset_id,
                contact_id,
                ..
            } => {
                if j == 0 {
                    Some(transaction_type_id)
                } else if j == 1 {
                    Some(asset_id)
                } else if j == 2 {
                    Some(destination_asset_id)
                } else {
                    Some(contact_id)
                }
            },
            LedgerOp::UpdateTransfer { asset_id, destination_asset_id, contact_id, .. } => {
                if j == 0 {
                    asset_id.as_ref()
                } else if j == 1 {
                    destination_asset_id.as_ref()
                } else {
                    contact_id.as_ref()
                }
            },
            _ => None,
        }
    }

    fn ref_count_exec(&self) -> (r: usize)
        ensures
            r == self.op.ref_count(),
    {
        match &self.op {
            LedgerOp::CreatePayment { .. } => 4,
            LedgerOp::CreateTransfer { .. } => 4,
            LedgerOp::UpdateTransfer { .. } => 3,
            _ => 0,
        }
    }

    fn ref_table_exec(&self, j: usize) -> (r: Table)
        ensures
            r == self.op.ref_table(j as int),
    {
        match &self.op {
            LedgerOp::CreatePayment { .. } => if j == 0 {
                Table::TransactionType
            } else if j == 1 {
                Table::Expense
            } else if j == 2 {
                Table::Asset
            } else {
                Table::Contact
            },
            LedgerOp::CreateTransfer { .. } => if j == 0 {
                Table::TransactionType
            } else if j == 3 {
                Table::Contact
            } else {
                Table::Asset
            },
            _ => if j == 2 {
                Table::Contact
            } else {
                Table::Asset
            },
        }
    }

    /// Checks the referenced identifiers from the `j`-th on.
    fn refs_from_exec(self, j: usize) -> (r: (LedgerRun, Action))
        requires
            self.wf(),
            j <= self.op.ref_count(),
            self.checked@.len() == j,
            self.op is CreatePayment || self.op is CreateTransfer || self.op is UpdateTransfer,
        ensures
            r.0.op == self.op,
            r.0.wf(),
            refs_from(self.op, self.checked@, j as int, r.0, r.1),
    {
        let n = self.ref_count_exec();
        if j < n {
            let text = self.ref_text_exec(j);
            match text {
                None => {
                    let a = fail_with(ErrorKind::OperationFailed, absent_message(j), true);
                    self.stop(a)
                },
                Some(t) => {
                    match parse_uuid(t.as_str()) {
                        Err(e) => {
                            let a = unparsable_failure(&self.op, j, e);
                            self.stop(a)
                        },
                        Ok(v) => {
                            let table = self.ref_table_exec(j);
                            let mut run = self;
                            run.checked.push(v);
                            run.stage = Stage::AwaitExists(j);
                            (run, Action::CheckExists { table, id: v })
                        },
                    }
                },
            }
        } else {
            let c = &self.checked;
            match &self.op {
                LedgerOp::CreatePayment { .. } => {
                    let rec = NewRecord {
                        user: self.user_exec(),
                        transaction_type: c[0],
                        asset: c[2],
                        destination_asset: None,
                        contact: c[3],
                        expense: Some(c[1]),
                        note: self.note_exec(),
                    };
                    (LedgerRun { stage: Stage::AwaitInsert, ..self }, Action::Insert(rec))
                },
                LedgerOp::CreateTransfer { .. } => {
                    let rec = NewRecord {
                        user: self.user_exec(),
                        transaction_type: c[0],
                        asset: c[1],
                        destination_asset: Some(c[2]),
                        contact: c[3],
                        expense: None,
                        note: self.note_exec(),
                    };
                    (LedgerRun { stage: Stage::AwaitInsert, ..self }, Action::Insert(rec))
                },
                _ => {
                    let t = match &self.op {
                        LedgerOp::UpdateTransfer { transaction, .. } => *transaction,
                        _ => 0,
                    };
                    let user = self.user_exec();
                    (LedgerRun { stage: Stage::AwaitRecord, ..self }, Action::FetchRecord {
                        user,
                        transaction: t,
                    })
                },
            }
        }
    }

    /// Makes the adjustments of `plan` from the `i`-th on.
    fn adjust_from(self, plan: Vec<Adjustment>, i: usize) -> (r: (LedgerRun, Action))
        requires
            amount_wf(self.old_amount),
            i <= plan@.len(),
            forall|k: int|
                0 <= k < plan@.len() ==> amount_wf((#[trigger] plan@[k]).amount),
        ensures
            r.0.op == self.op,
            r.0.wf(),
            adjusting(self.op, plan@, i as int, r.0, r.1),
    {
        if i < plan.len() {
            let asset = plan[i].asset;
            let user = self.user_exec();
            (LedgerRun { stage: Stage::AwaitSheet(i), plan, ..self }, Action::FetchSheet { user, asset })
        } else {
            match &self.op {
                LedgerOp::DeleteTransfer { .. } => (
                    LedgerRun { stage: Stage::Finished, plan, ..self },
                    Action::Finish { outcome: Ok(()), rollback: false },
                ),
                _ => (LedgerRun { stage: Stage::AwaitCommit, plan, ..self }, Action::Commit),
            }
        }
    }

    /// Handles the outcome of beginning the transaction.
    pub fn on_begin(self, r: Result<(), String>) -> (res: (LedgerRun, Action))
        requires
            self.wf(),
            self.stage == Stage::AwaitBegin,
        ensures
            res.0.op == self.op,
            res.0.wf(),
            match r {
                Err(m) => res.0.stopped(res.1) && fails(
                    res.1,
                    ErrorKind::DatabaseError,
                    "Failed to start transaction: "@ + m@,
                    false,
                ),
                Ok(()) => match self.op {
                    LedgerOp::CreateIncome { transaction_type, asset, contact, .. } => res.0.stage
                        == Stage::AwaitInsert && res.1 == (Action::Insert(
                        NewRecord {
                            user: self.op.user(),
                            transaction_type,
                            asset,
                            destination_asset: None,
                            contact,
                            expense: None,
                            note: self.op.note(),
                        },
                    )),
                    LedgerOp::UpdatePayment { .. } | LedgerOp::UpdateIncome { .. }
                    | LedgerOp::DeletePayment { .. } | LedgerOp::DeleteIncome { .. } => res.0.stage
                        == Stage::AwaitRecord && res.1 == (Action::FetchRecord {
                        user: self.op.user(),
                        transaction: self.op.transaction(),
                    }),
                    _ => refs_from(self.op, self.checked@, 0, res.0, res.1),
                },
            },
    {
        match r {
            Err(m) => {
                let a = fail_with(
                    ErrorKind::DatabaseError,
                    String::from_str("Failed to start transaction: ").concat(m.as_str()),
                    false,
                );
                self.stop(a)
            },
            Ok(()) => {
                match &self.op {
                    LedgerOp::CreateIncome { transaction_type, asset, contact, .. } => {
                        let rec = NewRecord {
                            user: self.user_exec(),
                            transaction_type: *transaction_type,
                            asset: *asset,
                            destination_asset: None,
                            contact: *contact,
                            expense: None,
                            note: self.note_exec(),
                        };
                        (LedgerRun { stage: Stage::AwaitInsert, ..self }, Action::Insert(rec))
                    },
                    LedgerOp::UpdatePayment { transaction, .. }
                    | LedgerOp::UpdateIncome { transaction, .. }
                    | LedgerOp::DeleteIncome { transaction, .. } => {
                        let t = *transaction;
                        let user = self.user_exec();
                        (LedgerRun { stage: Stage::AwaitRecord, ..self }, Action::FetchRecord {
                            user,
                            transaction: t,
                        })
                    },
                    LedgerOp::DeletePayment { transaction, .. } => {
                        // The id is checked by parsing its own rendering, which
                        // always parses back.
                        let t = *transaction;
                        let text = uuid_to_string(t);
                        let user = self.user_exec();
                        match parse_uuid(text.as_str()) {
                            Ok(v) => (LedgerRun { stage: Stage::AwaitRecord, ..self }, Action::FetchRecord {
                                user,
                                transaction: v,
                            }),
                            Err(_) => {
                                let a = fail_with(
                                    ErrorKind::InvalidInput,
                                    String::from_str("Invalid transaction_id"),
                                    false,
                                );
                                self.stop(a)
                            },
                        }
                    },
                    _ => self.refs_from_exec(0),
                }
            },
        }
    }

    /// Handles whether the `i`-th referenced identifier exists.
    pub fn on_exists(self, r: Result<bool, String>) -> (res: (LedgerRun, Action))
        requires
            self.wf(),
            self.stage is AwaitExists,
        ensures
            res.0.op == self.op,
            res.0.wf(),
            ({
                let i = self.stage->AwaitExists_0 as int;
                match r {
                    Err(m) => res.0.stopped(res.1) && fails(
                        res.1,
                        ErrorKind::DatabaseError,
                        m@,
                        false,
                    ),
                    Ok(false) => res.0.stopped(res.1) && fails(
                        res.1,
                        unknown_kind(self.op, i),
                        unknown_text(self.op, i),
                        unknown_rollback(self.op, i),
                    ),
                    Ok(true) => refs_from(self.op, self.checked@, i + 1, res.0, res.1),
                }
            }),
    {
        let i = match self.stage {
            Stage::AwaitExists(i) => i,
            _ => 0,
        };
        match r {
            Err(m) => {
                let a = fail_with(ErrorKind::DatabaseError, m, false);
                self.stop(a)
            },
            Ok(false) => {
                let a = unknown_failure(&self.op, i);
                self.stop(a)
            },
            Ok(true) => self.refs_from_exec(i + 1),
        }
    }

    /// Handles the inserted record.
    pub fn on_inserted(self, r: Result<RecordFacts, DbFailure>) -> (res: (LedgerRun, Action))
        requires
            self.wf(),
            self.stage == Stage::AwaitInsert,
            r matches Ok(rec) ==> rec.wf(),
        ensures
            res.0.op == self.op,
            res.0.wf(),
            inserted_spec(self.op, r, res.0, res.1),
    {
        match r {
            Err(f) => {
                let payment = matches!(self.op, LedgerOp::CreatePayment { .. });
                let a = if payment && f.exec_error_mentions("FOREIGN KEY") {
                    fail_with(
                        ErrorKind::OperationFailed,
                        String::from_str("Invalid foreign key reference in the payment record"),
                        true,
                    )
                } else {
                    fail_with(ErrorKind::DatabaseError, f.message, true)
                };
                self.stop(a)
            },
            Ok(rec) => {
                let transfer = matches!(self.op, LedgerOp::CreateTransfer { .. });
                if transfer {
                    let s = match read_id(&rec.asset_id, "Invalid source asset UUID: ", false) {
                        Ok(v) => v,
                        Err(a) => return self.stop(a),
                    };
                    let d = match &rec.destination_asset_id {
                        None => {
                            let a = fail_with(
                                ErrorKind::OperationFailed,
                                String::from_str("Destination asset ID is missing"),
                                false,
                            );
                            return self.stop(a);
                        },
                        Some(bytes) => match read_id(bytes, "Invalid destination asset UUID: ", false) {
                            Ok(v) => v,
                            Err(a) => return self.stop(a),
                        },
                    };
                    let plan = plan_transfer_created(s, d, rec.amount);
                    self.adjust_from(plan, 0)
                } else {
                    let asset = match read_id(&rec.asset_id, "Invalid asset UUID: ", true) {
                        Ok(v) => v,
                        Err(a) => return self.stop(a),
                    };
                    let plan = if matches!(self.op, LedgerOp::CreatePayment { .. }) {
                        plan_payment_created(asset, rec.amount)
                    } else {
                        plan_income_created(asset, rec.amount)
                    };
                    self.adjust_from(plan, 0)
                }
            },
        }
    }

    fn parse_optional(t: &Option<String>) -> (r: Option<Result<u128, String>>)
        ensures
            match r {
                None => t is None,
                Some(Ok(v)) => t matches Some(s) && uuid_parse(s@) == Ok::<u128, Seq<char>>(v),
                Some(Err(e)) => t matches Some(s) && uuid_parse(s@) == Err::<u128, Seq<char>>(e@),
            },
    {
        match t {
            None => None,
            Some(s) => Some(parse_uuid(s.as_str())),
        }
    }

    /// Handles the fetched original record.
    pub fn on_record(self, r: Result<Option<RecordFacts>, String>) -> (res: (LedgerRun, Action))
        requires
            self.wf(),
            self.stage == Stage::AwaitRecord,
            r matches Ok(Some(rec)) ==> rec.wf(),
        ensures
            res.0.op == self.op,
            res.0.wf(),
            record_spec(self.op, self.checked@, r, res.0, res.1),
    {
        let rollback = !(matches!(self.op, LedgerOp::UpdateTransfer { .. }) || matches!(self.op, LedgerOp::DeleteTransfer { .. }));
        let (transaction, user) = match &self.op {
            LedgerOp::UpdatePayment { transaction, user, .. } => (*transaction, *user),
            LedgerOp::UpdateIncome { transaction, user, .. } => (*transaction, *user),
            LedgerOp::UpdateTransfer { transaction, user, .. } => (*transaction, *user),
            LedgerOp::DeletePayment { transaction, user, .. } => (*transaction, *user),
            LedgerOp::DeleteIncome { transaction, user, .. } => (*transaction, *user),
            LedgerOp::DeleteTransfer { transaction, user, .. } => (*transaction, *user),
            LedgerOp::CreatePayment { user, .. } => (0, *user),
            LedgerOp::CreateIncome { user, .. } => (0, *user),
            LedgerOp::CreateTransfer { user, .. } => (0, *user),
        };
        match r {
            Err(m) => {
                let a = fail_with(ErrorKind::DatabaseError, m, rollback);
                self.stop(a)
            },
            Ok(None) => {
                let text = record_missing_message(&self.op, transaction, user, false);
                let a = fail_with(ErrorKind::NotFound, text, rollback);
                self.stop(a)
            },
            Ok(Some(rec)) => {
                match &self.op {
                    LedgerOp::UpdatePayment { expense_id, contact_id, asset_id, .. } => {
                        let old = match read_id(&rec.asset_id, "Invalid old asset UUID: ", true) {
                            Ok(v) => v,
                            Err(a) => return self.stop(a),
                        };
                        let pe = Self::parse_optional(expense_id);
                        let pc = Self::parse_optional(contact_id);
                        let pa = Self::parse_optional(asset_id);
                        let expense = match pe {
                            Some(Err(e)) => {
                                let a = fail_with(
                                    ErrorKind::OperationFailed,
                                    String::from_str("Invalid expense UUID: ").concat(e.as_str()),
                                    true,
                                );
                                return self.stop(a);
                            },
                            Some(Ok(v)) => Some(v),
                            None => None,
                        };
                        let contact = match pc {
                            Some(Err(e)) => {
                                let a = fail_with(
                                    ErrorKind::OperationFailed,
                                    String::from_str("Invalid contact UUID: ").concat(e.as_str()),
                                    true,
                                );
                                return self.stop(a);
                            },
                            Some(Ok(v)) => Some(v),
                            None => None,
                        };
                        let asset = match pa {
                            Some(Err(e)) => {
                                let a = fail_with(
                                    ErrorKind::OperationFailed,
                                    String::from_str("Invalid asset UUID: ").concat(e.as_str()),
                                    true,
                                );
                                return self.stop(a);
                            },
                            Some(Ok(v)) => Some(v),
                            None => None,
                        };
                        let note = self.note_exec();
                        let changes = RecordChanges {
                            asset,
                            destination_asset: None,
                            contact,
                            expense,
                            note,
                        };
                        (
                            LedgerRun {
                                stage: Stage::AwaitUpdate,
                                old_source: old,
                                old_amount: rec.amount,
                                ..self
                            },
                            Action::UpdateRecord(changes),
                        )
                    },
                    LedgerOp::UpdateIncome { asset, contact, .. } => {
                        let old = match read_id(&rec.asset_id, "Invalid old asset UUID: ", true) {
                            Ok(v) => v,
                            Err(a) => return self.stop(a),
                        };
                        let changes = RecordChanges {
                            asset: *asset,
                            destination_asset: None,
                            contact: *contact,
                            expense: None,
                            note: self.note_exec(),
                        };
                        (
                            LedgerRun {
                                stage: Stage::AwaitUpdate,
                                old_source: old,
                                old_amount: rec.amount,
                                ..self
                            },
                            Action::UpdateRecord(changes),
                        )
                    },
                    LedgerOp::UpdateTransfer { .. } => {
                        let os = match read_id(&rec.asset_id, "Invalid old source asset UUID: ", false) {
                            Ok(v) => v,
                            Err(a) => return self.stop(a),
                        };
                        let od = match &rec.destination_asset_id {
                            None => {
                                let a = fail_with(
                                    ErrorKind::OperationFailed,
                                    String::from_str("Old destination asset ID is missing"),
                                    false,
                                );
                                return self.stop(a);
                            },
                            Some(bytes) => match read_id(bytes, "Invalid old destination asset UUID: ", false) {
                                Ok(v) => v,
                                Err(a) => return self.stop(a),
                            },
                        };
                        let changes = RecordChanges {
                            asset: Some(self.checked[0]),
                            destination_asset: Some(self.checked[1]),
                            contact: Some(self.checked[2]),
                            expense: None,
                            note: self.note_exec(),
                        };
                        (
                            LedgerRun {
                                stage: Stage::AwaitUpdate,
                                old_source: os,
                                old_destination: od,
                                old_amount: rec.amount,
                                ..self
                            },
                            Action::UpdateRecord(changes),
                        )
                    },
                    LedgerOp::DeleteTransfer { .. } => {
                        let s = match read_id(
                            &rec.asset_id,
                            "Invalid source asset UUID in transaction to delete: ",
                            false,
                        ) {
                            Ok(v) => v,
                            Err(a) => return self.stop(a),
                        };
                        let d = match &rec.destination_asset_id {
                            None => {
                                let a = fail_with(
                                    ErrorKind::OperationFailed,
                                    String::from_str("Destination asset ID is missing in transaction to delete"),
                                    false,
                                );
                                return self.stop(a);
                            },
                            Some(bytes) => match read_id(
                                bytes,
                                "Invalid destination asset UUID in transaction to delete: ",
                                false,
                            ) {
                                Ok(v) => v,
                                Err(a) => return self.stop(a),
                            },
                        };
                        let plan = plan_transfer_deleted(s, d, rec.amount);
                        (
                            LedgerRun { stage: Stage::AwaitDelete, plan, ..self },
                            Action::DeleteRecord { user, transaction },
                        )
                    },
                    _ => {
                        let asset = match read_id(&rec.asset_id, "Invalid asset UUID: ", true) {
                            Ok(v) => v,
                            Err(a) => return self.stop(a),
                        };
                        let plan = if matches!(self.op, LedgerOp::DeletePayment { .. }) {
                            plan_payment_deleted(asset, rec.amount)
                        } else {
                            plan_income_deleted(asset, rec.amount)
                        };
                        (
                            LedgerRun { stage: Stage::AwaitDelete, plan, ..self },
                            Action::DeleteRecord { user, transaction },
                        )
                    },
                }
            },
        }
    }

    /// Handles the changed record.
    pub fn on_updated(self, r: Result<RecordFacts, String>) -> (res: (LedgerRun, Action))
        requires
            self.wf(),
            self.stage == Stage::AwaitUpdate,
            r matches Ok(rec) ==> rec.wf(),
        ensures
            res.0.op == self.op,
            res.0.wf(),
            updated_spec(
                self.op,
                self.old_source,
                self.old_destination,
                self.old_amount,
                r,
                res.0,
                res.1,
            ),
    {
        let transfer = matches!(self.op, LedgerOp::UpdateTransfer { .. });
        match r {
            Err(m) => {
                let a = fail_with(ErrorKind::DatabaseError, m, !transfer);
                self.stop(a)
            },
            Ok(rec) => {
                if transfer {
                    let ns = match read_id(&rec.asset_id, "Invalid new source asset UUID: ", false) {
                        Ok(v) => v,
                        Err(a) => return self.stop(a),
                    };
                    let nd = match &rec.destination_asset_id {
                        None => {
                            let a = fail_with(
                                ErrorKind::OperationFailed,
                                String::from_str("New destination asset ID is missing"),
                                false,
                            );
                            return self.stop(a);
                        },
                        Some(bytes) => match read_id(bytes, "Invalid new destination asset UUID: ", false) {
                            Ok(v) => v,
                            Err(a) => return self.stop(a),
                        },
                    };
                    if ns == nd {
                        let a = fail_with(
                            ErrorKind::OperationFailed,
                            String::from_str("Source and destination asset cannot be the same after update."),
                            true,
                        );
                        return self.stop(a);
                    }
                    let plan = plan_transfer_updated(
                        self.old_source,
                        self.old_destination,
                        self.old_amount,
                        ns,
                        nd,
                        rec.amount,
                    );
                    self.adjust_from(plan, 0)
                } else {
                    let na = match read_id(&rec.asset_id, "Invalid new asset UUID: ", true) {
                        Ok(v) => v,
                        Err(a) => return self.stop(a),
                    };
                    let plan = if matches!(self.op, LedgerOp::UpdatePayment { .. }) {
                        plan_payment_updated(self.old_source, self.old_amount, na, rec.amount, rec.change)
                    } else {
                        plan_income_updated(self.old_source, self.old_amount, na, rec.amount, rec.change)
                    };
                    self.adjust_from(plan, 0)
                }
            },
        }
    }

    /// Handles the number of rows the deletion removed.
    pub fn on_deleted(self, r: Result<u64, String>) -> (res: (LedgerRun, Action))
        requires
            self.wf(),
            self.stage == Stage::AwaitDelete,
        ensures
            res.0.op == self.op,
            res.0.wf(),
            match r {
                Err(m) => res.0.stopped(res.1) && fails(
                    res.1,
                    ErrorKind::DatabaseError,
                    m@,
                    self.op.record_rollback(),
                ),
                Ok(n) => if n == 0 {
                    res.0.stopped(res.1) && fails(
                        res.1,
                        ErrorKind::NotFound,
                        delete_missing_text(self.op),
                        self.op.record_rollback(),
                    )
                } else {
                    adjusting(self.op, self.plan@, 0, res.0, res.1)
                },
            },
    {
        let rollback = !matches!(self.op, LedgerOp::DeleteTransfer { .. });
        match r {
            Err(m) => {
                let a = fail_with(ErrorKind::DatabaseError, m, rollback);
                self.stop(a)
            },
            Ok(n) => {
                if n == 0 {
                    let (transaction, user) = match &self.op {
                        LedgerOp::DeletePayment { transaction, user } => (*transaction, *user),
                        LedgerOp::DeleteIncome { transaction, user } => (*transaction, *user),
                        LedgerOp::DeleteTransfer { transaction, user } => (*transaction, *user),
                        _ => (0, 0),
                    };
                    let text = record_missing_message(&self.op, transaction, user, true);
                    let a = fail_with(ErrorKind::NotFound, text, rollback);
                    self.stop(a)
                } else {
                    let mut run = self;
                    let mut plan: Vec<Adjustment> = Vec::new();
                    std::mem::swap(&mut plan, &mut run.plan);
                    run.adjust_from(plan, 0)
                }
            },
        }
    }

    /// Handles the fetched balance of the current adjustment's asset.
    pub fn on_sheet(self, r: Result<Option<Money>, RepositoryError>) -> (res: (LedgerRun, Action))
        requires
            self.wf(),
            self.stage is AwaitSheet,
            r matches Ok(Some(b)) ==> b.wf(),
        ensures
            res.0.op == self.op,
            res.0.plan@ == self.plan@,
            res.0.wf(),
            sheet_spec(
                self.op,
                self.plan@[self.stage->AwaitSheet_0 as int],
                self.stage->AwaitSheet_0 as int,
                r,
                res.0,
                res.1,
            ),
            ({
                let adjustment = self.plan@[self.stage->AwaitSheet_0 as int];
                r matches Ok(Some(b)) ==> adjustment.amount matches Some(amount) ==> representable(
                    step_units(b, adjustment.direction, amount),
                    max_scale(b, amount),
                ) ==> (res.1 matches Action::WriteSheet { balance, .. } && balance.units() == b.units()
                    + signed_units(adjustment))
            }),
    {
        let i = match self.stage {
            Stage::AwaitSheet(i) => i,
            _ => 0,
        };
        let adjustment = self.plan[i];
        let user = self.user_exec();
        let sheet_rollback = !(matches!(self.op, LedgerOp::UpdateTransfer { .. }) || matches!(self.op, LedgerOp::DeleteTransfer { .. }));
        let conversion_rollback = !(matches!(self.op, LedgerOp::CreateTransfer { .. }) || matches!(self.op, LedgerOp::UpdateTransfer { .. }) || matches!(self.op, LedgerOp::DeleteTransfer { .. }));
        match r {
            Err(e) => {
                let a = Action::Finish { outcome: Err(e), rollback: sheet_rollback };
                self.stop(a)
            },
            Ok(None) => {
                let a = fail_with(
                    ErrorKind::NotFound,
                    sheet_missing_message(adjustment.sheet, adjustment.asset),
                    sheet_rollback,
                );
                self.stop(a)
            },
            Ok(Some(balance)) => {
                match adjustment.amount {
                    None => {
                        let a = fail_with(
                            ErrorKind::OperationFailed,
                            conversion_message(adjustment.label),
                            conversion_rollback,
                        );
                        self.stop(a)
                    },
                    Some(amount) => {
                        proof {
                            assert(amount_wf(self.plan@[i as int].amount));
                        }
                        match move_balance(balance, adjustment.direction, amount) {
                            None => (
                                LedgerRun { stage: Stage::Finished, ..self },
                                Action::Overflow { direction: adjustment.direction },
                            ),
                            Some(nb) => (
                                LedgerRun { stage: Stage::AwaitWrite(i), ..self },
                                Action::WriteSheet { user, asset: adjustment.asset, balance: nb },
                            ),
                        }
                    },
                }
            },
        }
    }

    /// Handles the outcome of storing the current adjustment's balance.
    pub fn on_written(self, r: Result<(), RepositoryError>) -> (res: (LedgerRun, Action))
        requires
            self.wf(),
            self.stage is AwaitWrite,
        ensures
            res.0.op == self.op,
            res.0.wf(),
            match r {
                Err(e) => res.0.stage == Stage::Finished && res.1 == (Action::Finish {
                    outcome: Err(e),
                    rollback: self.op.sheet_rollback(),
                }),
                Ok(()) => adjusting(
                    self.op,
                    self.plan@,
                    self.stage->AwaitWrite_0 + 1,
                    res.0,
                    res.1,
                ),
            },
    {
        let i = match self.stage {
            Stage::AwaitWrite(i) => i,
            _ => 0,
        };
        let sheet_rollback = !(matches!(self.op, LedgerOp::UpdateTransfer { .. }) || matches!(self.op, LedgerOp::DeleteTransfer { .. }));
        match r {
            Err(e) => {
                let a = Action::Finish { outcome: Err(e), rollback: sheet_rollback };
                self.stop(a)
            },
            Ok(()) => {
                let ghost before = self.plan@;
                let mut run = self;
                let mut plan: Vec<Adjustment> = Vec::new();
                std::mem::swap(&mut plan, &mut run.plan);
                assert(plan@ == before);
                assert(i < plan.len());
                run.adjust_from(plan, i + 1)
            },
        }
    }

    /// Handles the outcome of committing the transaction.
    pub fn on_commit(self, r: Result<(), String>) -> (res: (LedgerRun, Action))
        requires
            self.wf(),
            self.stage == Stage::AwaitCommit,
        ensures
            res.0.op == self.op,
            res.0.wf(),
            res.0.stage == Stage::Finished,
            match r {
                Err(m) => fails(
                    res.1,
                    ErrorKind::DatabaseError,
                    "Failed to commit transaction: "@ + m@,
                    false,
                ),
                Ok(()) => succeeds(res.1),
            },
    {
        match r {
            Err(m) => {
                let a = fail_with(
                    ErrorKind::DatabaseError,
                    String::from_str("Failed to commit transaction: ").concat(m.as_str()),
                    false,
                );
                self.stop(a)
            },
            Ok(()) => self.stop(Action::Finish { outcome: Ok(()), rollback: false }),
        }
    }
}

// ---------------------------------------------------------------------------
// What the workflows do to the balances and the records
// ---------------------------------------------------------------------------

/// What the entry a stored record holds does to the balance of `x`: a
/// payment lowers its asset by its amount, an income raises its asset by its
/// amount, a transfer moves its amount from its asset to its destination.
pub open spec fn entry_effect(op: LedgerOp, rec: RecordFacts, x: u128) -> int {
    if op is CreatePayment || op is UpdatePayment || op is DeletePayment {
        payment_effect(id_of(rec.asset_id@), rec.amount, x)
    } else if op is CreateIncome || op is UpdateIncome || op is DeleteIncome {
        income_effect(id_of(rec.asset_id@), rec.amount, x)
    } else {
        transfer_effect(
            id_of(rec.asset_id@),
            id_of(rec.destination_asset_id->Some_0@),
            rec.amount,
            x,
        )
    }
}

/// The stored record names its asset (and, for a transfer, its destination)
/// by sixteen bytes each.
pub open spec fn ids_readable(op: LedgerOp, rec: RecordFacts) -> bool {
    &&& rec.asset_id@.len() == 16
    &&& op.is_transfer() ==> (rec.destination_asset_id matches Some(d) && d@.len() == 16)
}

/// Recording an entry: once the record is inserted, the adjustments the run
/// goes on to make move every balance exactly as the inserted entry does (a
/// payment lowers its asset by its amount, an income raises it, a transfer
/// moves the amount from the source to the destination), whatever the amount.
pub proof fn law_recording_moves_balances(op: LedgerOp, rec: RecordFacts, run: LedgerRun, a: Action, x: u128)
    requires
        op is CreatePayment || op is CreateIncome || op is CreateTransfer,
        inserted_spec(op, Ok(rec), run, a),
        ids_readable(op, rec),
    ensures
        net(run.plan@, x) == entry_effect(op, rec, x),
        a == (Action::FetchSheet { user: op.user(), asset: run.plan@[0].asset }),
{
    let asset = id_of(rec.asset_id@);
    let destination = match rec.destination_asset_id {
        Some(d) => id_of(d@),
        None => asset,
    };
    law_plans_move_balances_as_entries_do(asset, asset, destination, rec.amount, 0, 0, None, x);
}

/// Deleting an entry: once the record is read, the adjustments the run goes
/// on to make move every balance by exactly the opposite of what the stored
/// entry did, whatever the amount.
pub proof fn law_deleting_moves_balances(
    op: LedgerOp,
    checked: Seq<u128>,
    rec: RecordFacts,
    run: LedgerRun,
    a: Action,
    x: u128,
)
    requires
        op is DeletePayment || op is DeleteIncome || op is DeleteTransfer,
        record_spec(op, checked, Ok(Some(rec)), run, a),
        ids_readable(op, rec),
    ensures
        net(run.plan@, x) == -entry_effect(op, rec, x),
        a == (Action::DeleteRecord { user: op.user(), transaction: op.transaction() }),
{
    let asset = id_of(rec.asset_id@);
    let destination = match rec.destination_asset_id {
        Some(d) => id_of(d@),
        None => asset,
    };
    law_plans_move_balances_as_entries_do(asset, asset, destination, rec.amount, 0, 0, None, x);
}

/// Recording an entry and then deleting it leaves every balance as it was:
/// the balances after the deletion's adjustments, made on the balances after
/// the recording's adjustments, are the balances before both.
pub proof fn law_record_then_delete_restores_balances(
    create: LedgerOp,
    inserted: RecordFacts,
    created: LedgerRun,
    a1: Action,
    delete: LedgerOp,
    checked: Seq<u128>,
    fetched: RecordFacts,
    deleted: LedgerRun,
    a2: Action,
    start: spec_fn(u128) -> int,
    x: u128,
)
    requires
        create is CreatePayment && delete is DeletePayment || create is CreateIncome
            && delete is DeleteIncome || create is CreateTransfer && delete is DeleteTransfer,
        inserted_spec(create, Ok(inserted), created, a1),
        ids_readable(create, inserted),
        record_spec(delete, checked, Ok(Some(fetched)), deleted, a2),
        fetched.asset_id@ == inserted.asset_id@,
        fetched.destination_asset_id == inserted.destination_asset_id,
        fetched.amount == inserted.amount,
    ensures
        applied(deleted.plan@, applied(created.plan@, start))(x) == start(x),
{
    law_recording_moves_balances(create, inserted, created, a1, x);
    law_deleting_moves_balances(delete, checked, fetched, deleted, a2, x);
    lemma_applied_is_net(created.plan@, start, x);
    lemma_applied_is_net(deleted.plan@, applied(created.plan@, start), x);
}

/// The identifier a request field asks for is the one set: an absent text
/// sets nothing, a text sets the identifier it parses to.
pub open spec fn sets_requested(text: Option<String>, set: Option<u128>) -> bool {
    match text {
        None => set is None,
        Some(t) => match uuid_parse(t@) {
            Ok(v) => set == Some(v),
            Err(_) => false,
        },
    }
}

/// An optional identifier text is absent or parses.
pub open spec fn absent_or_parses(text: Option<String>) -> bool {
    text matches Some(t) ==> uuid_parse(t@) is Ok
}

/// Changing a payment stores exactly what the request asks for: each given
/// expense, contact and asset (parsed from its text), no destination, and
/// the request's note; the record's asset and amount before the change are
/// kept for the balances.
pub proof fn law_payment_change_sets_requested_fields(
    op: LedgerOp,
    checked: Seq<u128>,
    rec: RecordFacts,
    run: LedgerRun,
    a: Action,
)
    requires
        op is UpdatePayment,
        record_spec(op, checked, Ok(Some(rec)), run, a),
        a is UpdateRecord,
    ensures
        sets_requested(op->UpdatePayment_expense_id, a->UpdateRecord_0.expense),
        sets_requested(op->UpdatePayment_contact_id, a->UpdateRecord_0.contact),
        sets_requested(op->UpdatePayment_asset_id, a->UpdateRecord_0.asset),
        a->UpdateRecord_0.destination_asset is None,
        a->UpdateRecord_0.note == op.note(),
        run.old_source == id_of(rec.asset_id@),
        run.old_amount == rec.amount,
{
}

/// A payment change whose stored asset is readable and whose given texts
/// all parse goes on to store the changes.
pub proof fn law_payment_change_proceeds(
    op: LedgerOp,
    checked: Seq<u128>,
    rec: RecordFacts,
    run: LedgerRun,
    a: Action,
)
    requires
        op is UpdatePayment,
        record_spec(op, checked, Ok(Some(rec)), run, a),
        rec.asset_id@.len() == 16,
        absent_or_parses(op->UpdatePayment_expense_id),
        absent_or_parses(op->UpdatePayment_contact_id),
        absent_or_parses(op->UpdatePayment_asset_id),
    ensures
        a is UpdateRecord,
{
}

/// Changing an income stores exactly what the request asks for: the given
/// asset and contact, no expense or destination, and the request's note.
pub proof fn law_income_change_sets_requested_fields(
    op: LedgerOp,
    checked: Seq<u128>,
    rec: RecordFacts,
    run: LedgerRun,
    a: Action,
)
    requires
        op is UpdateIncome,
        record_spec(op, checked, Ok(Some(rec)), run, a),
        rec.asset_id@.len() == 16,
    ensures
        a is UpdateRecord,
        a->UpdateRecord_0.asset == op->UpdateIncome_asset,
        a->UpdateRecord_0.contact == op->UpdateIncome_contact,
        a->UpdateRecord_0.expense is None,
        a->UpdateRecord_0.destination_asset is None,
        a->UpdateRecord_0.note == op.note(),
        run.old_source == id_of(rec.asset_id@),
        run.old_amount == rec.amount,
{
}

/// Changing an entry: the adjustments made after the change move every
/// balance by undoing the entry as it was read before the change and making
/// the entry as stored after it, whatever the amounts. For a payment or an
/// income that keeps its asset this holds when the change handed in is the
/// exact difference of the amounts (old less new for a payment, new less old
/// for an income).
pub proof fn law_changing_moves_balances(
    op: LedgerOp,
    checked: Seq<u128>,
    before: RecordFacts,
    fetched: LedgerRun,
    a1: Action,
    after: RecordFacts,
    changed: LedgerRun,
    a2: Action,
    x: u128,
)
    requires
        op is UpdatePayment || op is UpdateIncome || op is UpdateTransfer,
        record_spec(op, checked, Ok(Some(before)), fetched, a1),
        a1 is UpdateRecord,
        updated_spec(
            op,
            fetched.old_source,
            fetched.old_destination,
            fetched.old_amount,
            Ok(after),
            changed,
            a2,
        ),
        ids_readable(op, after),
        op is UpdateTransfer ==> id_of(after.asset_id@) != id_of(after.destination_asset_id->Some_0@),
        op is UpdatePayment && id_of(before.asset_id@) == id_of(after.asset_id@) ==> amount_units(
            after.change,
        ) == amount_units(before.amount) - amount_units(after.amount),
        op is UpdateIncome && id_of(before.asset_id@) == id_of(after.asset_id@) ==> amount_units(
            after.change,
        ) == amount_units(after.amount) - amount_units(before.amount),
    ensures
        ids_readable(op, before),
        net(changed.plan@, x) == entry_effect(op, after, x) - entry_effect(op, before, x),
{
    let old_asset = id_of(before.asset_id@);
    let new_asset = id_of(after.asset_id@);
    if op is UpdateTransfer {
        let old_destination = id_of(before.destination_asset_id->Some_0@);
        let new_destination = id_of(after.destination_asset_id->Some_0@);
        law_plans_move_balances_as_entries_do(
            old_asset,
            old_asset,
            old_destination,
            before.amount,
            new_asset,
            new_destination,
            after.amount,
            x,
        );
    } else {
        law_changes_move_balances_as_entries_do(
            old_asset,
            before.amount,
            new_asset,
            after.amount,
            after.change,
            after.change,
            x,
        );
    }
}

/// The identifiers checked so far are those the request's texts parse to.
pub open spec fn checked_from_request(op: LedgerOp, checked: Seq<u128>) -> bool {
    &&& checked.len() == op.ref_count()
    &&& ids_from_request(op, checked)
}

/// Each identifier is the one the request's text in that place parses to.
pub open spec fn ids_from_request(op: LedgerOp, ids: Seq<u128>) -> bool {
    forall|j: int| 0 <= j < ids.len() ==> (op.ref_text(j) matches Some(t) && parses_to(t, #[trigger] ids[j]))
}

/// Recording a payment or a transfer inserts what the request asks for: the
/// transaction type, asset, destination, contact and expense its texts parse
/// to, for the user, with the request's note.
pub proof fn law_recording_stores_requested_fields(
    op: LedgerOp,
    checked: Seq<u128>,
    run: LedgerRun,
    a: Action,
)
    requires
        op is CreatePayment || op is CreateTransfer,
        after_refs(op, checked, run, a),
        checked_from_request(op, checked),
    ensures
        a is Insert,
        a->Insert_0.user == op.user(),
        a->Insert_0.note == op.note(),
        op matches LedgerOp::CreatePayment { transaction_type_id, expense_id, asset_id, contact_id, .. }
            ==> parses_to(transaction_type_id@, a->Insert_0.transaction_type) && (a->Insert_0.expense
            matches Some(e) && parses_to(expense_id@, e)) && parses_to(asset_id@, a->Insert_0.asset)
            && parses_to(contact_id@, a->Insert_0.contact) && a->Insert_0.destination_asset is None,
        op matches LedgerOp::CreateTransfer {
            transaction_type_id,
            asset_id,
            destination_asset_id,
            contact_id,
            ..
        } ==> parses_to(transaction_type_id@, a->Insert_0.transaction_type) && parses_to(
            asset_id@,
            a->Insert_0.asset,
        ) && (a->Insert_0.destination_asset matches Some(d) && parses_to(destination_asset_id@, d))
            && parses_to(contact_id@, a->Insert_0.contact) && a->Insert_0.expense is None,
{
    assert(op.ref_text(0) matches Some(t) && parses_to(t, checked[0]));
    assert(op.ref_text(1) matches Some(t) && parses_to(t, checked[1]));
    assert(op.ref_text(2) matches Some(t) && parses_to(t, checked[2]));
    assert(op.ref_text(3) matches Some(t) && parses_to(t, checked[3]));
}

/// Changing a transfer stores what the request asks for: the asset,
/// destination and contact its texts parse to, and the request's note.
pub proof fn law_transfer_change_sets_requested_fields(
    op: LedgerOp,
    checked: Seq<u128>,
    rec: RecordFacts,
    run: LedgerRun,
    a: Action,
)
    requires
        op is UpdateTransfer,
        checked_from_request(op, checked),
        record_spec(op, checked, Ok(Some(rec)), run, a),
        a is UpdateRecord,
    ensures
        op matches LedgerOp::UpdateTransfer { asset_id, destination_asset_id, contact_id, .. }
            ==> sets_requested(asset_id, a->UpdateRecord_0.asset) && sets_requested(
            destination_asset_id,
            a->UpdateRecord_0.destination_asset,
        ) && sets_requested(contact_id, a->UpdateRecord_0.contact),
        a->UpdateRecord_0.expense is None,
        a->UpdateRecord_0.note == op.note(),
        run.old_source == id_of(rec.asset_id@),
        run.old_destination == id_of(rec.destination_asset_id->Some_0@),
        run.old_amount == rec.amount,
{
    assert(op.ref_text(0) matches Some(t) && parses_to(t, checked[0]));
    assert(op.ref_text(1) matches Some(t) && parses_to(t, checked[1]));
    assert(op.ref_text(2) matches Some(t) && parses_to(t, checked[2]));
}

/// Checking the referenced identifiers keeps to the request: every
/// identifier the run has checked, and goes on with, is the one the request's
/// text in that place parses to.
pub proof fn law_checked_ids_come_from_request(
    op: LedgerOp,
    checked: Seq<u128>,
    j: int,
    run: LedgerRun,
    a: Action,
)
    requires
        refs_from(op, checked, j, run, a),
        checked.len() == j,
        ids_from_request(op, checked),
        !(a is Finish),
    ensures
        ids_from_request(op, run.checked@),
        j == op.ref_count() ==> checked_from_request(op, run.checked@),
{
    if j < op.ref_count() {
        let v = uuid_parse(op.ref_text(j)->Some_0)->Ok_0;
        assert(run.checked@ == checked.push(v));
        assert forall|k: int| 0 <= k < run.checked@.len() implies (op.ref_text(k) matches Some(t)
            && parses_to(t, #[trigger] run.checked@[k])) by {
            if k < checked.len() {
                assert(run.checked@[k] == checked[k]);
            } else {
                assert(run.checked@[k] == v);
            }
        }
    }
}

} // verus!
