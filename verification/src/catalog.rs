//! The rules of the user's catalog: assets, asset types, contacts, contact
//! types, expenses and expense types. The repositories read and write rows;
//! what they decide from what they read is here.

use vstd::prelude::*;
use crate::db::DbFailure;
use crate::ids::{hyphenated_text, parse_uuid, uuid_parse, uuid_to_string};
use crate::soc::soc_repository::{ErrorKind, RepositoryError};

verus! {

/// The kinds of catalog entries a user owns.
#[derive(Debug, Clone, Copy, PartialEq, Eq)]
pub enum Entity {
    Asset,
    AssetType,
    Contact,
    ContactType,
    Expense,
    ExpenseType,
}

/// How an entry of the kind is named in messages.
pub open spec fn entity_name(e: Entity) -> Seq<char> {
    match e {
        Entity::Asset => "Asset"@,
        Entity::AssetType => "Asset type"@,
        Entity::Contact => "Contact"@,
        Entity::ContactType => "Contact type"@,
        Entity::Expense => "Expense"@,
        Entity::ExpenseType => "Expense type"@,
    }
}

fn entity_name_exec(e: Entity) -> (r: &'static str)
    ensures
        r@ == entity_name(e),
{
    proof {
        reveal_strlit("Asset");
        reveal_strlit("Asset type");
        reveal_strlit("Contact");
        reveal_strlit("Contact type");
        reveal_strlit("Expense");
        reveal_strlit("Expense type");
    }
    match e {
        Entity::Asset => "Asset",
        Entity::AssetType => "Asset type",
        Entity::Contact => "Contact",
        Entity::ContactType => "Contact type",
        Entity::Expense => "Expense",
        Entity::ExpenseType => "Expense type",
    }
}

/// `<Entity> with ID <id> not found for user <user>`.
pub open spec fn owned_missing_text(e: Entity, id: u128, user: u128) -> Seq<char> {
    entity_name(e) + " with ID "@ + hyphenated_text(id) + " not found for user "@
        + hyphenated_text(user)
}

/// The error for an entry the user does not own (or that does not exist).
pub fn owned_missing(e: Entity, id: u128, user: u128) -> (r: RepositoryError)
    ensures
        r.kind() == ErrorKind::NotFound,
        r.detail() == owned_missing_text(e, id, user),
{
    let i = uuid_to_string(id);
    let u = uuid_to_string(user);
    RepositoryError::NotFound(
        String::from_str(entity_name_exec(e)).concat(" with ID ").concat(i.as_str()).concat(
            " not found for user ",
        ).concat(u.as_str()),
    )
}

/// A deletion that removed no row means the user owns no such entry.
pub fn rows_deleted_check(rows: u64, e: Entity, id: u128, user: u128) -> (r: Result<
    (),
    RepositoryError,
>)
    ensures
        rows > 0 ==> r is Ok,
        rows == 0 ==> (r matches Err(err) && err.kind() == ErrorKind::NotFound && err.detail()
            == owned_missing_text(e, id, user)),
{
    if rows == 0 {
        Err(owned_missing(e, id, user))
    } else {
        Ok(())
    }
}

/// A lookup of the user's entry that found nothing means the user owns no
/// such entry.
pub fn owned_lookup_check(found: bool, e: Entity, id: u128, user: u128) -> (r: Result<
    (),
    RepositoryError,
>)
    ensures
        found ==> r is Ok,
        !found ==> (r matches Err(err) && err.kind() == ErrorKind::NotFound && err.detail()
            == owned_missing_text(e, id, user)),
{
    if found {
        Ok(())
    } else {
        Err(owned_missing(e, id, user))
    }
}

/// An entry is in use when some row refers to it.
pub fn in_use(count: u64) -> (r: bool)
    ensures
        r == (count > 0),
{
    count > 0
}

/// The constraint a failed write may have broken, and how it is reported.
#[derive(Debug, Clone, Copy, PartialEq, Eq)]
pub enum Conflict {
    AssetName,
    AssetTypeName,
    ContactDetails,
    ContactTypeName,
    ExpenseTypeName,
    UserIdentity,
    ExpenseCreateReference,
    ExpenseUpdateReference,
}

/// The text the failed statement's error must mention for the conflict.
pub open spec fn conflict_needle(c: Conflict) -> Seq<char> {
    match c {
        Conflict::ExpenseCreateReference => "FOREIGN KEY"@,
        Conflict::ExpenseUpdateReference => "FOREIGN KEY"@,
        _ => "UNIQUE"@,
    }
}

/// The kind of the error that reports the conflict.
pub open spec fn conflict_kind(c: Conflict) -> ErrorKind {
    match c {
        Conflict::ExpenseCreateReference => ErrorKind::OperationFailed,
        Conflict::ExpenseUpdateReference => ErrorKind::InvalidInput,
        _ => ErrorKind::UniqueConstraintViolation,
    }
}

/// The message of the error that reports the conflict.
pub open spec fn conflict_text(c: Conflict) -> Seq<char> {
    match c {
        Conflict::AssetName => "Asset name already exists"@,
        Conflict::AssetTypeName => "Asset type name already exists"@,
        Conflict::ContactDetails => "Contact with the same phone or business name already exists"@,
        Conflict::ContactTypeName => "Contact type name already exists"@,
        Conflict::ExpenseTypeName => "Expense type with the same name already exists"@,
        Conflict::UserIdentity => "Username or email already exists"@,
        Conflict::ExpenseCreateReference => "Invalid expense type ID or user ID"@,
        Conflict::ExpenseUpdateReference => "Invalid expense_type_id: does not satisfy foreign key constraint"@,
    }
}

/// How a failed insert or update is reported: when the statement failed
/// with an error that mentions the conflict's constraint, as the conflict;
/// otherwise as a database error with the database's message.
pub fn write_error(f: &DbFailure, c: Conflict) -> (r: RepositoryError)
    ensures
        f.exec_mentions(conflict_needle(c)) ==> r.kind() == conflict_kind(c) && r.detail()
            == conflict_text(c),
        !f.exec_mentions(conflict_needle(c)) ==> r.kind() == ErrorKind::DatabaseError
            && r.detail() == f.message@,
{
    proof {
        reveal_strlit("FOREIGN KEY");
        reveal_strlit("UNIQUE");
    }
    let needle = match c {
        Conflict::ExpenseCreateReference => "FOREIGN KEY",
        Conflict::ExpenseUpdateReference => "FOREIGN KEY",
        _ => "UNIQUE",
    };
    if f.exec_error_mentions(needle) {
        match c {
            Conflict::AssetName => RepositoryError::UniqueConstraintViolation(
                String::from_str("Asset name already exists"),
            ),
            Conflict::AssetTypeName => RepositoryError::UniqueConstraintViolation(
                String::from_str("Asset type name already exists"),
            ),
            Conflict::ContactDetails => RepositoryError::UniqueConstraintViolation(
                String::from_str("Contact with the same phone or business name already exists"),
            ),
            Conflict::ContactTypeName => RepositoryError::UniqueConstraintViolation(
                String::from_str("Contact type name already exists"),
            ),
            Conflict::ExpenseTypeName => RepositoryError::UniqueConstraintViolation(
                String::from_str("Expense type with the same name already exists"),
            ),
            Conflict::UserIdentity => RepositoryError::UniqueConstraintViolation(
                String::from_str("Username or email already exists"),
            ),
            Conflict::ExpenseCreateReference => RepositoryError::OperationFailed(
                String::from_str("Invalid expense type ID or user ID"),
            ),
            Conflict::ExpenseUpdateReference => RepositoryError::InvalidInput(
                String::from_str("Invalid expense_type_id: does not satisfy foreign key constraint"),
            ),
        }
    } else {
        RepositoryError::DatabaseError(f.message.clone())
    }
}

/// The value a request field is set to: a given, non-empty text; an absent
/// or empty text leaves the field as it is.
pub open spec fn kept_text(v: Option<Seq<char>>) -> Option<Seq<char>> {
    match v {
        Some(s) => if s.len() > 0 {
            Some(s)
        } else {
            None
        },
        None => None,
    }
}

/// The view of an optional text.
pub open spec fn opt_view(v: Option<String>) -> Option<Seq<char>> {
    match v {
        Some(s) => Some(s@),
        None => None,
    }
}

/// Keeps a given text unless it is empty.
pub fn keep_unless_empty(v: Option<String>) -> (r: Option<String>)
    ensures
        opt_view(r) == kept_text(opt_view(v)),
{
    match v {
        Some(s) => if s.as_str().is_empty() {
            None
        } else {
            Some(s)
        },
        None => None,
    }
}

/// Parses a referenced identifier; a text that does not parse is invalid
/// input, `<prefix><parser error>`.
fn reference(text: &str, prefix: &str) -> (r: Result<u128, RepositoryError>)
    ensures
        match uuid_parse(text@) {
            Ok(v) => r == Ok::<u128, RepositoryError>(v),
            Err(e) => r matches Err(err) && err.kind() == ErrorKind::InvalidInput && err.detail()
                == prefix@ + e,
        },
{
    match parse_uuid(text) {
        Ok(v) => Ok(v),
        Err(e) => Err(RepositoryError::InvalidInput(String::from_str(prefix).concat(e.as_str()))),
    }
}

// ---------------------------------------------------------------------------
// Assets
// ---------------------------------------------------------------------------

/// The asset type a new asset refers to; a text that does not parse is
/// `InvalidInput("Invalid asset_type_id: <parser error>")`.
pub fn asset_type_reference(text: &str) -> (r: Result<u128, RepositoryError>)
    ensures
        match uuid_parse(text@) {
            Ok(v) => r == Ok::<u128, RepositoryError>(v),
            Err(e) => r matches Err(err) && err.kind() == ErrorKind::InvalidInput && err.detail()
                == "Invalid asset_type_id: "@ + e,
        },
{
    reference(text, "Invalid asset_type_id: ")
}

/// An asset is looked up only by a non-nil id for a non-nil user.
pub fn asset_lookup_guard(user: u128, asset: u128) -> (r: Result<(), RepositoryError>)
    ensures
        user != 0 && asset != 0 ==> r is Ok,
        user == 0 || asset == 0 ==> (r matches Err(RepositoryError::InvalidInput(t)) && t@
            == "Invalid asset_id or user_id"@),
{
    if asset == 0 || user == 0 {
        Err(RepositoryError::InvalidInput(String::from_str("Invalid asset_id or user_id")))
    } else {
        Ok(())
    }
}

/// What an asset update sets: the name, if given and not empty; the asset
/// type, if given.
#[derive(Debug, Clone, PartialEq, Eq)]
pub struct AssetChanges {
    pub name: Option<String>,
    pub asset_type: Option<u128>,
}

/// The changes an asset update makes; an asset type that does not parse is
/// invalid input carrying the parser's error.
pub fn asset_changes(name: Option<String>, asset_type_id: Option<String>) -> (r: Result<
    AssetChanges,
    RepositoryError,
>)
    ensures
        match opt_view(asset_type_id) {
            Some(t) => match uuid_parse(t) {
                Err(e) => r matches Err(RepositoryError::InvalidInput(m)) && m@ == e,
                Ok(v) => r matches Ok(c) && c.asset_type == Some(v) && opt_view(c.name)
                    == kept_text(opt_view(name)),
            },
            None => r matches Ok(c) && c.asset_type is None && opt_view(c.name) == kept_text(
                opt_view(name),
            ),
        },
{
    let name = keep_unless_empty(name);
    let asset_type = match asset_type_id {
        Some(t) => match parse_uuid(t.as_str()) {
            Ok(v) => Some(v),
            Err(e) => return Err(RepositoryError::InvalidInput(e)),
        },
        None => None,
    };
    Ok(AssetChanges { name, asset_type })
}

/// Removing an asset's balance sheet after the asset: a missing sheet is
/// tolerated, any other failure is passed on.
pub fn asset_sheet_removal(r: Result<(), RepositoryError>) -> (out: Result<(), RepositoryError>)
    ensures
        match r {
            Ok(()) => out is Ok,
            Err(e) => if e is NotFound {
                out is Ok
            } else {
                out == Err::<(), RepositoryError>(e)
            },
        },
{
    match r {
        Ok(()) => Ok(()),
        Err(RepositoryError::NotFound(_)) => Ok(()),
        Err(e) => Err(e),
    }
}

/// The asset just created must be found again; otherwise
/// `NotFound("Asset not found")`.
pub fn asset_created_lookup(found: bool) -> (r: Result<(), RepositoryError>)
    ensures
        found ==> r is Ok,
        !found ==> (r matches Err(RepositoryError::NotFound(t)) && t@ == "Asset not found"@),
{
    if found {
        Ok(())
    } else {
        Err(RepositoryError::NotFound(String::from_str("Asset not found")))
    }
}

// ---------------------------------------------------------------------------
// Asset types
// ---------------------------------------------------------------------------

/// An asset type is updated only by a non-nil id for a non-nil user.
pub fn asset_type_update_guard(user: u128, asset_type: u128) -> (r: Result<(), RepositoryError>)
    ensures
        user != 0 && asset_type != 0 ==> r is Ok,
        user == 0 || asset_type == 0 ==> (r matches Err(RepositoryError::InvalidInput(t)) && t@
            == "Invalid asset_type_id or user_id"@),
{
    if asset_type == 0 || user == 0 {
        Err(RepositoryError::InvalidInput(String::from_str("Invalid asset_type_id or user_id")))
    } else {
        Ok(())
    }
}

/// A failed lookup of one asset type: a database error whose message is the
/// rendering of a database error.
pub fn asset_type_lookup_error(message: String) -> (r: RepositoryError)
    ensures
        r.kind() == ErrorKind::DatabaseError,
        r.detail() == "Database error: "@ + message@,
{
    let inner = RepositoryError::DatabaseError(message);
    RepositoryError::DatabaseError(inner.to_display_string())
}

/// A failed listing of a user's asset types: an operation failure whose
/// message is the rendering of a database error.
pub fn asset_type_listing_error(message: String) -> (r: RepositoryError)
    ensures
        r.kind() == ErrorKind::OperationFailed,
        r.detail() == "Database error: "@ + message@,
{
    let inner = RepositoryError::DatabaseError(message);
    RepositoryError::OperationFailed(inner.to_display_string())
}

// ---------------------------------------------------------------------------
// Contacts
// ---------------------------------------------------------------------------

/// How a database transaction around contact work failed: the connection
/// failed (with its message) or the work inside failed.
#[derive(Debug, Clone, PartialEq, Eq)]
pub enum ContactTxnFailure {
    Connection(String),
    Inner(RepositoryError),
}

/// The rendering of a failed transaction: the connection's message or the
/// inner error's rendering.
pub open spec fn txn_failure_text(f: ContactTxnFailure) -> Seq<char> {
    match f {
        ContactTxnFailure::Connection(m) => m@,
        ContactTxnFailure::Inner(e) => e.display_text(),
    }
}

fn txn_failure_string(f: &ContactTxnFailure) -> (r: String)
    ensures
        r@ == txn_failure_text(*f),
{
    match f {
        ContactTxnFailure::Connection(m) => m.clone(),
        ContactTxnFailure::Inner(e) => e.to_display_string(),
    }
}

/// A failed contact creation is reported as an operation failure carrying
/// the rendering of what failed.
pub fn contact_create_failure(f: ContactTxnFailure) -> (r: RepositoryError)
    ensures
        r.kind() == ErrorKind::OperationFailed,
        r.detail() == txn_failure_text(f),
{
    RepositoryError::OperationFailed(txn_failure_string(&f))
}

/// A failed contact deletion: a missing contact and a database error from
/// inside are passed on with their message; anything else is an operation
/// failure carrying the rendering of what failed.
pub fn contact_delete_failure(f: ContactTxnFailure) -> (r: RepositoryError)
    ensures
        match f {
            ContactTxnFailure::Inner(RepositoryError::NotFound(m)) => r.kind() == ErrorKind::NotFound
                && r.detail() == m@,
            ContactTxnFailure::Inner(RepositoryError::DatabaseError(m)) => r.kind()
                == ErrorKind::DatabaseError && r.detail() == m@,
            _ => r.kind() == ErrorKind::OperationFailed && r.detail() == txn_failure_text(f),
        },
{
    match f {
        ContactTxnFailure::Inner(RepositoryError::NotFound(m)) => RepositoryError::NotFound(m),
        ContactTxnFailure::Inner(RepositoryError::DatabaseError(m)) => RepositoryError::DatabaseError(m),
        _ => RepositoryError::OperationFailed(txn_failure_string(&f)),
    }
}

/// `Contact with ID <id> not found`.
pub fn contact_missing(contact: u128) -> (r: RepositoryError)
    ensures
        r.kind() == ErrorKind::NotFound,
        r.detail() == "Contact with ID "@ + hyphenated_text(contact) + " not found"@,
{
    let c = uuid_to_string(contact);
    RepositoryError::NotFound(String::from_str("Contact with ID ").concat(c.as_str()).concat(" not found"))
}

/// What a contact update sets: each text field if given and not empty, the
/// contact type if given.
#[derive(Debug, Clone, PartialEq, Eq)]
pub struct ContactChanges {
    pub name: Option<String>,
    pub business_name: Option<String>,
    pub phone: Option<String>,
    pub description: Option<String>,
    pub contact_type: Option<u128>,
}

/// The changes a contact update makes.
pub fn contact_changes(
    name: Option<String>,
    business_name: Option<String>,
    phone: Option<String>,
    description: Option<String>,
    contact_type: Option<u128>,
) -> (r: ContactChanges)
    ensures
        opt_view(r.name) == kept_text(opt_view(name)),
        opt_view(r.business_name) == kept_text(opt_view(business_name)),
        opt_view(r.phone) == kept_text(opt_view(phone)),
        opt_view(r.description) == kept_text(opt_view(description)),
        r.contact_type == contact_type,
{
    ContactChanges {
        name: keep_unless_empty(name),
        business_name: keep_unless_empty(business_name),
        phone: keep_unless_empty(phone),
        description: keep_unless_empty(description),
        contact_type,
    }
}

// ---------------------------------------------------------------------------
// Expenses and expense types
// ---------------------------------------------------------------------------

/// The expense type an expense refers to; a text that does not parse is
/// `InvalidInput("Invalid expense_type_id: <parser error>")`.
pub fn expense_type_reference(text: &str) -> (r: Result<u128, RepositoryError>)
    ensures
        match uuid_parse(text@) {
            Ok(v) => r == Ok::<u128, RepositoryError>(v),
            Err(e) => r matches Err(err) && err.kind() == ErrorKind::InvalidInput && err.detail()
                == "Invalid expense_type_id: "@ + e,
        },
{
    reference(text, "Invalid expense_type_id: ")
}

/// An expense update naming an expense type the user does not own:
/// `InvalidInput("Expense type with ID '<text>' does not exist")`.
pub fn expense_type_unknown(text: &str) -> (r: RepositoryError)
    ensures
        r.kind() == ErrorKind::InvalidInput,
        r.detail() == "Expense type with ID '"@ + text@ + "' does not exist"@,
{
    RepositoryError::InvalidInput(
        String::from_str("Expense type with ID '").concat(text).concat("' does not exist"),
    )
}

/// Whether an expense may be deleted as far as its use goes: a failed check
/// is a database error carrying the check's rendered error; an expense a
/// transaction refers to cannot be deleted.
pub fn expense_delete_use_check(r: Result<bool, RepositoryError>, expense: u128) -> (out: Result<
    (),
    RepositoryError,
>)
    ensures
        match r {
            Err(e) => out matches Err(err) && err.kind() == ErrorKind::DatabaseError && err.detail()
                == e.display_text(),
            Ok(true) => out matches Err(err) && err.kind() == ErrorKind::OperationFailed
                && err.detail() == "Expense with ID "@ + hyphenated_text(expense)
                + " is currently in use in a transaction and cannot be deleted"@,
            Ok(false) => out is Ok,
        },
{
    match r {
        Err(e) => Err(RepositoryError::DatabaseError(e.to_display_string())),
        Ok(true) => {
            let id = uuid_to_string(expense);
            Err(
                RepositoryError::OperationFailed(
                    String::from_str("Expense with ID ").concat(id.as_str()).concat(
                        " is currently in use in a transaction and cannot be deleted",
                    ),
                ),
            )
        },
        Ok(false) => Ok(()),
    }
}

/// Whether an expense type may be deleted as far as its use goes: a failed
/// check is reported as not found, carrying the check's rendered error; an
/// expense type some expense refers to cannot be deleted.
pub fn expense_type_delete_use_check(r: Result<bool, RepositoryError>, expense_type: u128) -> (out:
    Result<(), RepositoryError>)
    ensures
        match r {
            Err(e) => out matches Err(err) && err.kind() == ErrorKind::NotFound && err.detail()
                == e.display_text(),
            Ok(true) => out matches Err(err) && err.kind() == ErrorKind::OperationFailed
                && err.detail() == "Expense type with ID "@ + hyphenated_text(expense_type)
                + " is currently in use and cannot be deleted"@,
            Ok(false) => out is Ok,
        },
{
    match r {
        Err(e) => Err(RepositoryError::NotFound(e.to_display_string())),
        Ok(true) => {
            let id = uuid_to_string(expense_type);
            Err(
                RepositoryError::OperationFailed(
                    String::from_str("Expense type with ID ").concat(id.as_str()).concat(
                        " is currently in use and cannot be deleted",
                    ),
                ),
            )
        },
        Ok(false) => Ok(()),
    }
}

} // verus!
