use std::collections::HashMap;

use light_house::db::DbFailure;
use light_house::ledger::workflow::{Action, LedgerOp, LedgerRun, RecordFacts, Stage, Table};
use light_house::money::{Direction, Money};
use light_house::soc::soc_repository::RepositoryError;

const USER: u128 = 0x0000_0000_0000_4000_8000_0000_0000_0001;
const TYPE_ID: u128 = 0x1111_1111_1111_4111_8111_1111_1111_1111;
const EXPENSE: u128 = 0x2222_2222_2222_4222_8222_2222_2222_2222;
const ASSET_A: u128 = 0x3333_3333_3333_4333_8333_3333_3333_3333;
const ASSET_B: u128 = 0x4444_4444_4444_4444_8444_4444_4444_4444;
const CONTACT: u128 = 0x5555_5555_5555_4555_8555_5555_5555_5555;
const TXN: u128 = 0x6666_6666_6666_4666_8666_6666_6666_6666;

fn text(id: u128) -> String {
    uuid::Uuid::from_u128(id).to_string()
}

fn bytes(id: u128) -> Vec<u8> {
    id.to_be_bytes().to_vec()
}

fn cents(m: i128) -> Money {
    Money { mantissa: m, scale: 2 }
}

#[derive(Clone, Debug)]
struct Rec {
    asset: u128,
    destination: Option<u128>,
    amount: Money,
    note: Option<String>,
}

/// A database held in memory, with the transactions of the workflows.
#[derive(Clone, Debug, Default)]
struct Db {
    sheets: HashMap<u128, Money>,
    records: HashMap<u128, Rec>,
    rows: Vec<(Table, u128)>,
}

impl Db {
    fn standard() -> Db {
        let mut db = Db::default();
        db.sheets.insert(ASSET_A, cents(10000));
        db.sheets.insert(ASSET_B, cents(5000));
        db.rows = vec![
            (Table::TransactionType, TYPE_ID),
            (Table::Expense, EXPENSE),
            (Table::Asset, ASSET_A),
            (Table::Asset, ASSET_B),
            (Table::Contact, CONTACT),
        ];
        db
    }

    fn facts(&self, rec: &Rec, change: Option<Money>) -> RecordFacts {
        RecordFacts {
            asset_id: bytes(rec.asset),
            destination_asset_id: rec.destination.map(bytes),
            amount: Some(rec.amount),
            change,
        }
    }
}

/// Runs the operation against the database, performing each action the
/// workflow asks for. `amount` is the amount the request carries.
fn drive(db: &mut Db, op: LedgerOp, amount: Option<Money>) -> Action {
    let transaction = match &op {
        LedgerOp::UpdatePayment { transaction, .. }
        | LedgerOp::UpdateIncome { transaction, .. }
        | LedgerOp::UpdateTransfer { transaction, .. }
        | LedgerOp::DeletePayment { transaction, .. }
        | LedgerOp::DeleteIncome { transaction, .. }
        | LedgerOp::DeleteTransfer { transaction, .. } => *transaction,
        _ => TXN,
    };
    let income = matches!(op, LedgerOp::UpdateIncome { .. });
    let (mut run, mut action) = LedgerRun::start(op);
    let mut snapshot: Option<Db> = None;
    loop {
        let next = match action {
            Action::BeginTransaction => {
                snapshot = Some(db.clone());
                run.on_begin(Ok(()))
            }
            Action::CheckExists { table, id } => {
                let found = db.rows.contains(&(table, id));
                run.on_exists(Ok(found))
            }
            Action::Insert(rec) => {
                assert_eq!(rec.user, USER);
                let stored = Rec {
                    asset: rec.asset,
                    destination: rec.destination_asset,
                    amount: amount.unwrap(),
                    note: rec.note.clone(),
                };
                db.records.insert(transaction, stored.clone());
                let facts = db.facts(&stored, None);
                run.on_inserted(Ok(facts))
            }
            Action::FetchRecord { user, transaction } => {
                assert_eq!(user, USER);
                let facts = db.records.get(&transaction).map(|r| db.facts(r, None));
                run.on_record(Ok(facts))
            }
            Action::UpdateRecord(changes) => {
                let old = db.records[&transaction].clone();
                let new_amount = amount.unwrap_or(old.amount);
                let stored = Rec {
                    asset: changes.asset.unwrap_or(old.asset),
                    destination: changes.destination_asset.or(old.destination),
                    amount: new_amount,
                    note: changes.note.clone().or(old.note.clone()),
                };
                let change = if income {
                    cents(new_amount.mantissa - old.amount.mantissa)
                } else {
                    cents(old.amount.mantissa - new_amount.mantissa)
                };
                db.records.insert(transaction, stored.clone());
                let facts = db.facts(&stored, Some(change));
                run.on_updated(Ok(facts))
            }
            Action::DeleteRecord { user, transaction } => {
                assert_eq!(user, USER);
                let n = if db.records.remove(&transaction).is_some() { 1 } else { 0 };
                run.on_deleted(Ok(n))
            }
            Action::FetchSheet { user, asset } => {
                assert_eq!(user, USER);
                let balance = db.sheets.get(&asset).copied();
                run.on_sheet(Ok(balance))
            }
            Action::WriteSheet { user, asset, balance } => {
                assert_eq!(user, USER);
                db.sheets.insert(asset, balance);
                run.on_written(Ok(()))
            }
            Action::Commit => {
                snapshot = None;
                run.on_commit(Ok(()))
            }
            Action::Finish { outcome, rollback } => {
                if rollback {
                    if let Some(s) = snapshot.take() {
                        *db = s;
                    }
                }
                return Action::Finish { outcome, rollback };
            }
            Action::Overflow { direction } => return Action::Overflow { direction },
        };
        run = next.0;
        action = next.1;
    }
}

fn ok() -> Action {
    Action::Finish { outcome: Ok(()), rollback: false }
}

fn fail(e: RepositoryError, rollback: bool) -> Action {
    Action::Finish { outcome: Err(e), rollback }
}

fn create_payment(asset: u128) -> LedgerOp {
    LedgerOp::CreatePayment {
        user: USER,
        transaction_type_id: text(TYPE_ID),
        expense_id: text(EXPENSE),
        asset_id: text(asset),
        contact_id: text(CONTACT),
        note: None,
    }
}

fn create_transfer(source: u128, destination: u128) -> LedgerOp {
    LedgerOp::CreateTransfer {
        user: USER,
        transaction_type_id: text(TYPE_ID),
        asset_id: text(source),
        destination_asset_id: text(destination),
        contact_id: text(CONTACT),
        note: None,
    }
}

fn create_income(asset: u128) -> LedgerOp {
    LedgerOp::CreateIncome { user: USER, transaction_type: TYPE_ID, asset, contact: CONTACT, note: None }
}

fn total(db: &Db) -> i128 {
    db.sheets.values().map(|m| m.mantissa).sum()
}

#[test]
fn payment_lowers_its_asset() {
    let mut db = Db::standard();
    assert_eq!(drive(&mut db, create_payment(ASSET_A), Some(cents(2550))), ok());
    assert_eq!(db.sheets[&ASSET_A], cents(7450));
    assert_eq!(db.sheets[&ASSET_B], cents(5000));
}

#[test]
fn income_raises_its_asset() {
    let mut db = Db::standard();
    assert_eq!(drive(&mut db, create_income(ASSET_B), Some(cents(1234))), ok());
    assert_eq!(db.sheets[&ASSET_B], cents(6234));
    assert_eq!(db.sheets[&ASSET_A], cents(10000));
}

#[test]
fn transfer_moves_money_and_keeps_the_total() {
    let mut db = Db::standard();
    let before = total(&db);
    assert_eq!(drive(&mut db, create_transfer(ASSET_A, ASSET_B), Some(cents(3000))), ok());
    assert_eq!(db.sheets[&ASSET_A], cents(7000));
    assert_eq!(db.sheets[&ASSET_B], cents(8000));
    assert_eq!(total(&db), before);
}

#[test]
fn deleting_undoes_recording() {
    for kind in 0..3 {
        let mut db = Db::standard();
        let start = db.sheets.clone();
        let (create, delete) = match kind {
            0 => (create_payment(ASSET_A), LedgerOp::DeletePayment { user: USER, transaction: TXN }),
            1 => (create_income(ASSET_A), LedgerOp::DeleteIncome { user: USER, transaction: TXN }),
            _ => (
                create_transfer(ASSET_A, ASSET_B),
                LedgerOp::DeleteTransfer { user: USER, transaction: TXN },
            ),
        };
        assert_eq!(drive(&mut db, create, Some(cents(999))), ok());
        assert_ne!(db.sheets, start);
        assert_eq!(drive(&mut db, delete, None), ok());
        assert_eq!(db.sheets, start);
        assert!(db.records.is_empty());
    }
}

#[test]
fn changing_a_payment_on_the_same_asset_moves_by_the_difference() {
    let mut db = Db::standard();
    drive(&mut db, create_payment(ASSET_A), Some(cents(3000)));
    assert_eq!(db.sheets[&ASSET_A], cents(7000));
    let update = LedgerOp::UpdatePayment {
        user: USER,
        transaction: TXN,
        expense_id: None,
        contact_id: None,
        asset_id: None,
        note: None,
    };
    assert_eq!(drive(&mut db, update, Some(cents(2000))), ok());
    assert_eq!(db.sheets[&ASSET_A], cents(8000));
}

#[test]
fn changing_a_payment_is_deleting_then_recording() {
    let mut moved = Db::standard();
    drive(&mut moved, create_payment(ASSET_A), Some(cents(3000)));
    let update = LedgerOp::UpdatePayment {
        user: USER,
        transaction: TXN,
        expense_id: None,
        contact_id: None,
        asset_id: Some(text(ASSET_B)),
        note: None,
    };
    assert_eq!(drive(&mut moved, update, Some(cents(1000))), ok());

    let mut redone = Db::standard();
    drive(&mut redone, create_payment(ASSET_A), Some(cents(3000)));
    drive(&mut redone, LedgerOp::DeletePayment { user: USER, transaction: TXN }, None);
    drive(&mut redone, create_payment(ASSET_B), Some(cents(1000)));

    assert_eq!(moved.sheets, redone.sheets);
    assert_eq!(moved.sheets[&ASSET_A], cents(10000));
    assert_eq!(moved.sheets[&ASSET_B], cents(4000));
}

#[test]
fn changing_an_income_moves_by_the_difference() {
    let mut db = Db::standard();
    drive(&mut db, create_income(ASSET_A), Some(cents(1000)));
    let same = LedgerOp::UpdateIncome { user: USER, transaction: TXN, asset: None, contact: None, note: None };
    assert_eq!(drive(&mut db, same, Some(cents(1500))), ok());
    assert_eq!(db.sheets[&ASSET_A], cents(11500));
    let moved = LedgerOp::UpdateIncome {
        user: USER,
        transaction: TXN,
        asset: Some(ASSET_B),
        contact: None,
        note: None,
    };
    assert_eq!(drive(&mut db, moved, None), ok());
    assert_eq!(db.sheets[&ASSET_A], cents(10000));
    assert_eq!(db.sheets[&ASSET_B], cents(6500));
}

#[test]
fn changing_a_transfer_reverts_then_applies() {
    let mut db = Db::standard();
    let before = total(&db);
    drive(&mut db, create_transfer(ASSET_A, ASSET_B), Some(cents(3000)));
    let swap = LedgerOp::UpdateTransfer {
        user: USER,
        transaction: TXN,
        asset_id: Some(text(ASSET_B)),
        destination_asset_id: Some(text(ASSET_A)),
        contact_id: Some(text(CONTACT)),
        note: None,
    };
    assert_eq!(drive(&mut db, swap, Some(cents(500))), ok());
    assert_eq!(db.sheets[&ASSET_A], cents(10500));
    assert_eq!(db.sheets[&ASSET_B], cents(4500));
    assert_eq!(total(&db), before);
}

#[test]
fn a_transfer_may_not_end_on_one_asset() {
    let mut db = Db::standard();
    drive(&mut db, create_transfer(ASSET_A, ASSET_B), Some(cents(3000)));
    let after_create = db.sheets.clone();
    let same = LedgerOp::UpdateTransfer {
        user: USER,
        transaction: TXN,
        asset_id: Some(text(ASSET_A)),
        destination_asset_id: Some(text(ASSET_A)),
        contact_id: Some(text(CONTACT)),
        note: None,
    };
    let expected = fail(
        RepositoryError::OperationFailed(
            "Source and destination asset cannot be the same after update.".to_string(),
        ),
        true,
    );
    assert_eq!(drive(&mut db, same, None), expected);
    assert_eq!(db.sheets, after_create);
}

#[test]
fn a_bad_transaction_type_text_is_invalid_input() {
    let mut db = Db::standard();
    let op = LedgerOp::CreatePayment {
        user: USER,
        transaction_type_id: "not-a-uuid".to_string(),
        expense_id: text(EXPENSE),
        asset_id: text(ASSET_A),
        contact_id: text(CONTACT),
        note: None,
    };
    let expected = fail(RepositoryError::InvalidInput("Invalid transaction_type_id".to_string()), false);
    assert_eq!(drive(&mut db, op, Some(cents(1))), expected);
}

#[test]
fn a_bad_expense_text_carries_the_parser_error() {
    let mut db = Db::standard();
    let op = LedgerOp::CreatePayment {
        user: USER,
        transaction_type_id: text(TYPE_ID),
        expense_id: "xyz".to_string(),
        asset_id: text(ASSET_A),
        contact_id: text(CONTACT),
        note: None,
    };
    let err = uuid::Uuid::parse_str("xyz").unwrap_err().to_string();
    let expected = fail(RepositoryError::OperationFailed(format!("Invalid expense UUID: {}", err)), true);
    assert_eq!(drive(&mut db, op, Some(cents(1))), expected);
}

#[test]
fn an_unknown_expense_is_invalid_input() {
    let mut db = Db::standard();
    db.rows.retain(|r| r.0 != Table::Expense);
    let expected = fail(RepositoryError::InvalidInput("Invalid expense id".to_string()), false);
    assert_eq!(drive(&mut db, create_payment(ASSET_A), Some(cents(1))), expected);
    assert_eq!(db.sheets[&ASSET_A], cents(10000));
}

#[test]
fn an_unknown_transfer_destination_rolls_back() {
    let mut db = Db::standard();
    let unknown = 0x7777_7777_7777_4777_8777_7777_7777_7777u128;
    let expected = fail(RepositoryError::OperationFailed("Invalid destination asset ID".to_string()), true);
    assert_eq!(drive(&mut db, create_transfer(ASSET_A, unknown), Some(cents(1))), expected);
}

#[test]
fn a_missing_sheet_rolls_the_payment_back() {
    let mut db = Db::standard();
    db.sheets.remove(&ASSET_A);
    let expected = fail(
        RepositoryError::NotFound(format!("Current sheet not found for asset {}", text(ASSET_A))),
        true,
    );
    assert_eq!(drive(&mut db, create_payment(ASSET_A), Some(cents(100))), expected);
    assert!(db.records.is_empty());
}

#[test]
fn a_missing_transfer_sheet_names_the_side() {
    let mut db = Db::standard();
    db.sheets.remove(&ASSET_B);
    let expected = fail(
        RepositoryError::NotFound(format!(
            "Current sheet for destination asset {} not found",
            text(ASSET_B)
        )),
        true,
    );
    assert_eq!(drive(&mut db, create_transfer(ASSET_A, ASSET_B), Some(cents(100))), expected);
    assert_eq!(db.sheets[&ASSET_A], cents(10000));
}

#[test]
fn deleting_a_missing_record_names_it() {
    let mut db = Db::standard();
    let expected = fail(
        RepositoryError::NotFound(format!(
            "Payment record {} not found for user {}",
            text(TXN),
            text(USER)
        )),
        true,
    );
    assert_eq!(drive(&mut db, LedgerOp::DeletePayment { user: USER, transaction: TXN }, None), expected);
    let expected = fail(
        RepositoryError::NotFound(format!("Transaction {} not found for user {}", text(TXN), text(USER))),
        false,
    );
    assert_eq!(drive(&mut db, LedgerOp::DeleteTransfer { user: USER, transaction: TXN }, None), expected);
}

#[test]
fn deleting_a_transfer_needs_no_database_transaction() {
    let (run, action) = LedgerRun::start(LedgerOp::DeleteTransfer { user: USER, transaction: TXN });
    assert_eq!(action, Action::FetchRecord { user: USER, transaction: TXN });
    assert_eq!(run.stage, Stage::AwaitRecord);
    let (_, action) = LedgerRun::start(LedgerOp::DeleteIncome { user: USER, transaction: TXN });
    assert_eq!(action, Action::BeginTransaction);
}

#[test]
fn a_failed_begin_or_commit_is_a_database_error() {
    let (run, _) = LedgerRun::start(create_income(ASSET_A));
    let (run, action) = run.on_begin(Err("down".to_string()));
    assert_eq!(run.stage, Stage::Finished);
    assert_eq!(
        action,
        fail(RepositoryError::DatabaseError("Failed to start transaction: down".to_string()), false)
    );

    let (run, _) = LedgerRun::start(LedgerOp::DeleteIncome { user: USER, transaction: TXN });
    let (run, _) = run.on_begin(Ok(()));
    let (run, _) = run.on_record(Ok(Some(RecordFacts {
        asset_id: bytes(ASSET_A),
        destination_asset_id: None,
        amount: Some(cents(100)),
        change: None,
    })));
    let (run, _) = run.on_deleted(Ok(1));
    let (run, action) = run.on_sheet(Ok(Some(cents(500))));
    assert_eq!(action, Action::WriteSheet { user: USER, asset: ASSET_A, balance: cents(400) });
    let (run, action) = run.on_written(Ok(()));
    assert_eq!(action, Action::Commit);
    let (_, action) = run.on_commit(Err("lost".to_string()));
    assert_eq!(
        action,
        fail(RepositoryError::DatabaseError("Failed to commit transaction: lost".to_string()), false)
    );
}

#[test]
fn a_foreign_key_failure_of_a_payment_insert_is_named() {
    let (mut run, mut action) = LedgerRun::start(create_payment(ASSET_A));
    action = {
        let r = run.on_begin(Ok(()));
        run = r.0;
        r.1
    };
    while let Action::CheckExists { .. } = action {
        let r = run.on_exists(Ok(true));
        run = r.0;
        action = r.1;
    }
    assert!(matches!(action, Action::Insert(_)));
    let failure = DbFailure {
        message: "insert failed".to_string(),
        exec_message: Some("Cannot add row: a FOREIGN KEY constraint fails".to_string()),
    };
    let (_, action) = run.on_inserted(Err(failure));
    assert_eq!(
        action,
        fail(
            RepositoryError::OperationFailed("Invalid foreign key reference in the payment record".to_string()),
            true
        )
    );
}

#[test]
fn a_plain_insert_failure_carries_the_database_message() {
    let (run, _) = LedgerRun::start(create_income(ASSET_A));
    let (run, action) = run.on_begin(Ok(()));
    assert!(matches!(action, Action::Insert(_)));
    let failure = DbFailure { message: "disk full".to_string(), exec_message: None };
    let (_, action) = run.on_inserted(Err(failure));
    assert_eq!(action, fail(RepositoryError::DatabaseError("disk full".to_string()), true));
}

#[test]
fn an_amount_without_decimal_form_is_refused() {
    let (run, _) = LedgerRun::start(create_income(ASSET_A));
    let (run, _) = run.on_begin(Ok(()));
    let (run, action) = run.on_inserted(Ok(RecordFacts {
        asset_id: bytes(ASSET_A),
        destination_asset_id: None,
        amount: None,
        change: None,
    }));
    assert_eq!(action, Action::FetchSheet { user: USER, asset: ASSET_A });
    let (_, action) = run.on_sheet(Ok(Some(cents(100))));
    assert_eq!(
        action,
        fail(RepositoryError::OperationFailed("Failed to convert amount to Decimal".to_string()), true)
    );
}

#[test]
fn a_stored_asset_of_wrong_length_is_reported() {
    let (run, _) = LedgerRun::start(create_income(ASSET_A));
    let (run, _) = run.on_begin(Ok(()));
    let (_, action) = run.on_inserted(Ok(RecordFacts {
        asset_id: vec![1, 2, 3],
        destination_asset_id: None,
        amount: Some(cents(1)),
        change: None,
    }));
    let err = uuid::Uuid::from_slice(&[1, 2, 3]).unwrap_err().to_string();
    assert_eq!(
        action,
        fail(RepositoryError::OperationFailed(format!("Invalid asset UUID: {}", err)), true)
    );
}

#[test]
fn an_overflowing_balance_is_signalled() {
    let mut db = Db::standard();
    db.sheets.insert(ASSET_A, Money { mantissa: light_house::money::MAX_MANTISSA, scale: 0 });
    let result = drive(&mut db, create_income(ASSET_A), Some(Money { mantissa: 1, scale: 0 }));
    assert_eq!(result, Action::Overflow { direction: Direction::Increase });
}

#[test]
fn a_sheet_failure_is_passed_on() {
    let (run, _) = LedgerRun::start(create_income(ASSET_A));
    let (run, _) = run.on_begin(Ok(()));
    let (run, _) = run.on_inserted(Ok(RecordFacts {
        asset_id: bytes(ASSET_A),
        destination_asset_id: None,
        amount: Some(cents(1)),
        change: None,
    }));
    let e = RepositoryError::DatabaseError("timeout".to_string());
    let (_, action) = run.on_sheet(Err(e.clone()));
    assert_eq!(action, fail(e, true));
}

#[test]
fn the_referenced_ids_are_checked_in_order() {
    let (run, _) = LedgerRun::start(create_transfer(ASSET_A, ASSET_B));
    let (run, action) = run.on_begin(Ok(()));
    assert_eq!(action, Action::CheckExists { table: Table::TransactionType, id: TYPE_ID });
    let (run, action) = run.on_exists(Ok(true));
    assert_eq!(action, Action::CheckExists { table: Table::Asset, id: ASSET_A });
    let (run, action) = run.on_exists(Ok(true));
    assert_eq!(action, Action::CheckExists { table: Table::Asset, id: ASSET_B });
    let (run, action) = run.on_exists(Ok(true));
    assert_eq!(action, Action::CheckExists { table: Table::Contact, id: CONTACT });
    let (_, action) = run.on_exists(Err("gone".to_string()));
    assert_eq!(action, fail(RepositoryError::DatabaseError("gone".to_string()), false));
}

#[test]
fn a_transfer_change_without_an_id_is_refused() {
    let op = LedgerOp::UpdateTransfer {
        user: USER,
        transaction: TXN,
        asset_id: Some(text(ASSET_A)),
        destination_asset_id: None,
        contact_id: Some(text(CONTACT)),
        note: None,
    };
    let (run, _) = LedgerRun::start(op);
    let (run, _) = run.on_begin(Ok(()));
    let (_, action) = run.on_exists(Ok(true));
    assert_eq!(
        action,
        fail(RepositoryError::OperationFailed("Destination asset ID is missing".to_string()), true)
    );
}

#[test]
fn record_facts_validity() {
    let good = RecordFacts {
        asset_id: vec![],
        destination_asset_id: None,
        amount: Some(cents(1)),
        change: None,
    };
    assert!(good.is_valid());
    let bad = RecordFacts { amount: Some(Money { mantissa: 1, scale: 29 }), ..good.clone() };
    assert!(!bad.is_valid());
}

#[test]
fn the_note_is_recorded_and_changed_only_when_given() {
    let mut db = Db::standard();
    let op = LedgerOp::CreateIncome {
        user: USER,
        transaction_type: TYPE_ID,
        asset: ASSET_A,
        contact: CONTACT,
        note: Some("salary".to_string()),
    };
    assert_eq!(drive(&mut db, op, Some(cents(100))), ok());
    assert_eq!(db.records[&TXN].note, Some("salary".to_string()));
    let keep = LedgerOp::UpdateIncome { user: USER, transaction: TXN, asset: None, contact: None, note: None };
    assert_eq!(drive(&mut db, keep, None), ok());
    assert_eq!(db.records[&TXN].note, Some("salary".to_string()));
    let change = LedgerOp::UpdateIncome {
        user: USER,
        transaction: TXN,
        asset: None,
        contact: None,
        note: Some("bonus".to_string()),
    };
    assert_eq!(drive(&mut db, change, None), ok());
    assert_eq!(db.records[&TXN].note, Some("bonus".to_string()));
}
