use light_house::balance::{
    initial_balance, sheet_delete_decision, sheet_not_found, sheet_update_decision, valid_asset_ids,
};
use light_house::catalog::{
    asset_changes, asset_created_lookup, asset_lookup_guard, asset_sheet_removal, asset_type_listing_error,
    asset_type_lookup_error, asset_type_reference, asset_type_update_guard, contact_changes,
    contact_create_failure, contact_delete_failure, contact_missing, expense_delete_use_check,
    expense_type_delete_use_check, expense_type_reference, expense_type_unknown, in_use,
    keep_unless_empty, owned_lookup_check, owned_missing, rows_deleted_check, write_error, Conflict,
    ContactTxnFailure, Entity,
};
use light_house::db::DbFailure;
use light_house::ledger::listing::{listing_type_id, transfer_lookup_id};
use light_house::money::Money;
use light_house::soc::soc_repository::RepositoryError;

const USER: u128 = 0x0102_0304_0506_4708_8900_0a0b_0c0d_0e0f;
const ITEM: u128 = 0xa1a2_a3a4_b1b2_4c1c_8d1d_e1e2_e3e4_e5e6;

fn h(v: u128) -> String {
    uuid::Uuid::from_u128(v).to_string()
}

fn s(t: &str) -> String {
    t.to_string()
}

fn parse_error(t: &str) -> String {
    uuid::Uuid::parse_str(t).unwrap_err().to_string()
}

#[test]
fn owned_entries_that_are_missing_are_named() {
    let text = format!("Asset type with ID {} not found for user {}", h(ITEM), h(USER));
    assert_eq!(owned_missing(Entity::AssetType, ITEM, USER), RepositoryError::NotFound(text.clone()));
    assert_eq!(rows_deleted_check(0, Entity::AssetType, ITEM, USER), Err(RepositoryError::NotFound(text)));
    assert_eq!(rows_deleted_check(3, Entity::Asset, ITEM, USER), Ok(()));
    assert_eq!(owned_lookup_check(true, Entity::Contact, ITEM, USER), Ok(()));
    assert_eq!(
        owned_lookup_check(false, Entity::ExpenseType, ITEM, USER),
        Err(RepositoryError::NotFound(format!("Expense type with ID {} not found for user {}", h(ITEM), h(USER))))
    );
    assert!(in_use(1));
    assert!(!in_use(0));
}

#[test]
fn a_broken_unique_constraint_is_a_conflict() {
    let unique = DbFailure {
        message: s("Execution Error: Duplicate entry"),
        exec_message: Some(s("Duplicate entry 'cash' for key 'UNIQUE_name'")),
    };
    assert_eq!(
        write_error(&unique, Conflict::AssetName),
        RepositoryError::UniqueConstraintViolation(s("Asset name already exists"))
    );
    assert_eq!(
        write_error(&unique, Conflict::UserIdentity),
        RepositoryError::UniqueConstraintViolation(s("Username or email already exists"))
    );
    assert_eq!(
        write_error(&unique, Conflict::ExpenseCreateReference),
        RepositoryError::DatabaseError(s("Execution Error: Duplicate entry"))
    );
    let fk = DbFailure { message: s("m"), exec_message: Some(s("a FOREIGN KEY constraint fails")) };
    assert_eq!(
        write_error(&fk, Conflict::ExpenseCreateReference),
        RepositoryError::OperationFailed(s("Invalid expense type ID or user ID"))
    );
    assert_eq!(
        write_error(&fk, Conflict::ExpenseUpdateReference),
        RepositoryError::InvalidInput(s("Invalid expense_type_id: does not satisfy foreign key constraint"))
    );
    let other = DbFailure { message: s("connection reset"), exec_message: None };
    assert_eq!(write_error(&other, Conflict::ContactDetails), RepositoryError::DatabaseError(s("connection reset")));
}

#[test]
fn empty_texts_are_not_set() {
    assert_eq!(keep_unless_empty(Some(s(""))), None);
    assert_eq!(keep_unless_empty(Some(s("x"))), Some(s("x")));
    assert_eq!(keep_unless_empty(None), None);
    let c = contact_changes(Some(s("")), Some(s("ACME")), None, Some(s("d")), Some(ITEM));
    assert_eq!(c.name, None);
    assert_eq!(c.business_name, Some(s("ACME")));
    assert_eq!(c.phone, None);
    assert_eq!(c.description, Some(s("d")));
    assert_eq!(c.contact_type, Some(ITEM));
}

#[test]
fn asset_rules() {
    assert_eq!(asset_type_reference(&h(ITEM)), Ok(ITEM));
    assert_eq!(
        asset_type_reference("nope"),
        Err(RepositoryError::InvalidInput(format!("Invalid asset_type_id: {}", parse_error("nope"))))
    );
    assert_eq!(asset_lookup_guard(USER, ITEM), Ok(()));
    assert_eq!(
        asset_lookup_guard(0, ITEM),
        Err(RepositoryError::InvalidInput(s("Invalid asset_id or user_id")))
    );
    let c = asset_changes(Some(s("")), Some(h(ITEM))).unwrap();
    assert_eq!(c.name, None);
    assert_eq!(c.asset_type, Some(ITEM));
    assert_eq!(asset_changes(Some(s("n")), Some(s("bad"))), Err(RepositoryError::InvalidInput(parse_error("bad"))));
    assert_eq!(asset_sheet_removal(Err(RepositoryError::NotFound(s("x")))), Ok(()));
    assert_eq!(
        asset_sheet_removal(Err(RepositoryError::DatabaseError(s("x")))),
        Err(RepositoryError::DatabaseError(s("x")))
    );
    assert_eq!(asset_created_lookup(false), Err(RepositoryError::NotFound(s("Asset not found"))));
    assert_eq!(asset_created_lookup(true), Ok(()));
}

#[test]
fn asset_type_rules() {
    assert_eq!(
        asset_type_update_guard(USER, 0),
        Err(RepositoryError::InvalidInput(s("Invalid asset_type_id or user_id")))
    );
    assert_eq!(asset_type_update_guard(USER, ITEM), Ok(()));
    assert_eq!(asset_type_lookup_error(s("gone")), RepositoryError::DatabaseError(s("Database error: gone")));
    assert_eq!(asset_type_listing_error(s("gone")), RepositoryError::OperationFailed(s("Database error: gone")));
}

#[test]
fn contact_rules() {
    assert_eq!(
        contact_create_failure(ContactTxnFailure::Connection(s("refused"))),
        RepositoryError::OperationFailed(s("refused"))
    );
    assert_eq!(
        contact_create_failure(ContactTxnFailure::Inner(RepositoryError::InvalidInput(s("x")))),
        RepositoryError::OperationFailed(s("Invalid input for repository operation: x"))
    );
    assert_eq!(
        contact_delete_failure(ContactTxnFailure::Inner(RepositoryError::NotFound(s("m")))),
        RepositoryError::NotFound(s("m"))
    );
    assert_eq!(
        contact_delete_failure(ContactTxnFailure::Inner(RepositoryError::DatabaseError(s("m")))),
        RepositoryError::DatabaseError(s("m"))
    );
    assert_eq!(
        contact_delete_failure(ContactTxnFailure::Inner(RepositoryError::PermissionDenied(s("m")))),
        RepositoryError::OperationFailed(s("Permission denied: m"))
    );
    assert_eq!(
        contact_missing(ITEM),
        RepositoryError::NotFound(format!("Contact with ID {} not found", h(ITEM)))
    );
}

#[test]
fn expense_rules() {
    assert_eq!(expense_type_reference(&h(ITEM)), Ok(ITEM));
    assert_eq!(
        expense_type_reference("q"),
        Err(RepositoryError::InvalidInput(format!("Invalid expense_type_id: {}", parse_error("q"))))
    );
    assert_eq!(
        expense_type_unknown("abc"),
        RepositoryError::InvalidInput(s("Expense type with ID 'abc' does not exist"))
    );
    assert_eq!(expense_delete_use_check(Ok(false), ITEM), Ok(()));
    assert_eq!(
        expense_delete_use_check(Ok(true), ITEM),
        Err(RepositoryError::OperationFailed(format!(
            "Expense with ID {} is currently in use in a transaction and cannot be deleted",
            h(ITEM)
        )))
    );
    assert_eq!(
        expense_delete_use_check(Err(RepositoryError::NotFound(s("z"))), ITEM),
        Err(RepositoryError::DatabaseError(s("Resource not found: z")))
    );
    assert_eq!(
        expense_type_delete_use_check(Ok(true), ITEM),
        Err(RepositoryError::OperationFailed(format!(
            "Expense type with ID {} is currently in use and cannot be deleted",
            h(ITEM)
        )))
    );
    assert_eq!(
        expense_type_delete_use_check(Err(RepositoryError::DatabaseError(s("z"))), ITEM),
        Err(RepositoryError::NotFound(s("Database error: z")))
    );
}

#[test]
fn balance_sheet_rules() {
    let missing = format!("Current sheet for asset ID {} not found for user {}", h(ITEM), h(USER));
    assert_eq!(sheet_not_found(ITEM, USER), RepositoryError::NotFound(missing.clone()));
    let m = Money { mantissa: 12345, scale: 2 };
    assert_eq!(initial_balance(Some(m)), Ok(m));
    assert_eq!(initial_balance(None), Err(RepositoryError::OperationFailed(s("Invalid balance value"))));
    assert_eq!(sheet_update_decision(ITEM, USER, Ok(true), None), Ok(None));
    assert_eq!(sheet_update_decision(ITEM, USER, Ok(true), Some(Some(m))), Ok(Some(m)));
    assert_eq!(
        sheet_update_decision(ITEM, USER, Ok(true), Some(None)),
        Err(RepositoryError::OperationFailed(s("Invalid balance value")))
    );
    assert_eq!(
        sheet_update_decision(ITEM, USER, Ok(false), Some(Some(m))),
        Err(RepositoryError::NotFound(missing.clone()))
    );
    assert_eq!(sheet_delete_decision(ITEM, USER, Ok(true)), Ok(()));
    assert_eq!(sheet_delete_decision(ITEM, USER, Ok(false)), Err(RepositoryError::NotFound(missing)));
    assert_eq!(
        sheet_delete_decision(ITEM, USER, Err(s("io"))),
        Err(RepositoryError::DatabaseError(s("io")))
    );
}

#[test]
fn stored_ids_of_wrong_length_are_skipped() {
    let raw = vec![ITEM.to_be_bytes().to_vec(), vec![1, 2, 3], USER.to_be_bytes().to_vec(), vec![]];
    assert_eq!(valid_asset_ids(&raw), vec![ITEM, USER]);
    assert_eq!(valid_asset_ids(&vec![]), Vec::<u128>::new());
}

#[test]
fn listing_rules() {
    assert_eq!(listing_type_id(Ok(Some(ITEM.to_be_bytes().to_vec()))), Ok(ITEM));
    assert_eq!(
        listing_type_id(Ok(None)),
        Err(RepositoryError::NotFound(s("Income transaction type not found")))
    );
    assert_eq!(listing_type_id(Err(s("db"))), Err(RepositoryError::DatabaseError(s("db"))));
    assert_eq!(
        listing_type_id(Ok(Some(vec![9; 4]))),
        Err(RepositoryError::DatabaseError(s("Failed to parse UUID: invalid length: expected 16 bytes, found 4")))
    );
    assert_eq!(transfer_lookup_id(ITEM), Ok(ITEM));
}
