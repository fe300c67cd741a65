//! The rules of the balance sheets: one sheet per asset and user, holding the
//! asset's current balance.

use vstd::prelude::*;
use crate::ids::{hyphenated_text, uuid_from_slice, uuid_to_string};
use crate::ledger::workflow::id_of;
use crate::money::Money;
use crate::soc::soc_repository::RepositoryError;

verus! {

/// `Current sheet for asset ID <asset> not found for user <user>`.
pub open spec fn sheet_not_found_text(asset: u128, user: u128) -> Seq<char> {
    "Current sheet for asset ID "@ + hyphenated_text(asset) + " not found for user "@
        + hyphenated_text(user)
}

/// The error for a missing sheet of the asset and user.
pub fn sheet_not_found(asset: u128, user: u128) -> (r: RepositoryError)
    ensures
        r.kind() == crate::soc::soc_repository::ErrorKind::NotFound,
        r.detail() == sheet_not_found_text(asset, user),
{
    let a = uuid_to_string(asset);
    let u = uuid_to_string(user);
    RepositoryError::NotFound(
        String::from_str("Current sheet for asset ID ").concat(a.as_str()).concat(
            " not found for user ",
        ).concat(u.as_str()),
    )
}

/// The balance a new sheet starts with: the initial balance as a decimal, or,
/// when it has none, `OperationFailed("Invalid balance value")`.
pub fn initial_balance(converted: Option<Money>) -> (r: Result<Money, RepositoryError>)
    ensures
        converted matches Some(m) ==> r == Ok::<Money, RepositoryError>(m),
        converted is None ==> (r matches Err(RepositoryError::OperationFailed(t)) && t@
            == "Invalid balance value"@),
{
    match converted {
        Some(m) => Ok(m),
        None => Err(RepositoryError::OperationFailed(String::from_str("Invalid balance value"))),
    }
}

/// Whether a sheet may be saved with a new balance: a failed lookup is
/// passed on, a missing sheet is reported, a balance without a decimal form
/// is refused, and otherwise the balance to store (`None`: keep the stored
/// one). `balance` is the requested balance, if any, as a decimal, if it has
/// one.
pub fn sheet_update_decision(
    asset: u128,
    user: u128,
    found: Result<bool, RepositoryError>,
    balance: Option<Option<Money>>,
) -> (r: Result<Option<Money>, RepositoryError>)
    ensures
        match found {
            Err(e) => r == Err::<Option<Money>, RepositoryError>(e),
            Ok(false) => r matches Err(RepositoryError::NotFound(t)) && t@ == sheet_not_found_text(
                asset,
                user,
            ),
            Ok(true) => match balance {
                None => r == Ok::<Option<Money>, RepositoryError>(None),
                Some(None) => r matches Err(RepositoryError::OperationFailed(t)) && t@
                    == "Invalid balance value"@,
                Some(Some(m)) => r == Ok::<Option<Money>, RepositoryError>(Some(m)),
            },
        },
{
    match found {
        Err(e) => Err(e),
        Ok(false) => Err(sheet_not_found(asset, user)),
        Ok(true) => match balance {
            None => Ok(None),
            Some(None) => Err(RepositoryError::OperationFailed(String::from_str("Invalid balance value"))),
            Some(Some(m)) => Ok(Some(m)),
        },
    }
}

/// Whether a sheet may be deleted: a failed lookup is a database error, a
/// missing sheet is reported, otherwise the deletion goes ahead.
pub fn sheet_delete_decision(asset: u128, user: u128, found: Result<bool, String>) -> (r: Result<
    (),
    RepositoryError,
>)
    ensures
        match found {
            Err(m) => r matches Err(RepositoryError::DatabaseError(t)) && t@ == m@,
            Ok(false) => r matches Err(RepositoryError::NotFound(t)) && t@ == sheet_not_found_text(
                asset,
                user,
            ),
            Ok(true) => r is Ok,
        },
{
    match found {
        Err(m) => Err(RepositoryError::DatabaseError(m)),
        Ok(false) => Err(sheet_not_found(asset, user)),
        Ok(true) => Ok(()),
    }
}

/// The identifiers denoted by those stored values that are sixteen bytes
/// long, in order; the others are skipped.
pub open spec fn valid_ids(raw: Seq<Seq<u8>>) -> Seq<u128>
    decreases raw.len(),
{
    if raw.len() == 0 {
        Seq::empty()
    } else {
        let rest = valid_ids(raw.drop_last());
        if raw.last().len() == 16 {
            rest.push(id_of(raw.last()))
        } else {
            rest
        }
    }
}

/// The asset identifiers among stored ids, skipping those that are not
/// sixteen bytes long.
pub fn valid_asset_ids(raw: &Vec<Vec<u8>>) -> (r: Vec<u128>)
    ensures
        r@ == valid_ids(raw@.map_values(|b: Vec<u8>| b@)),
{
    let ghost views = raw@.map_values(|b: Vec<u8>| b@);
    let mut out: Vec<u128> = Vec::new();
    let mut i: usize = 0;
    while i < raw.len()
        invariant
            i <= raw@.len(),
            views == raw@.map_values(|b: Vec<u8>| b@),
            out@ == valid_ids(views.take(i as int)),
        decreases raw@.len() - i,
    {
        assert(views.take(i + 1).drop_last() =~= views.take(i as int));
        assert(views.take(i + 1).last() == raw@[i as int]@);
        match uuid_from_slice(raw[i].as_slice()) {
            Ok(v) => {
                out.push(v);
            },
            Err(_) => {},
        }
        i = i + 1;
    }
    assert(views.take(raw@.len() as int) =~= views);
    out
}

} // verus!
