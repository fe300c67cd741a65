//! Reading ledger entries back.

use vstd::prelude::*;
use crate::ids::{parse_uuid, slice_length_error, uuid_from_slice, uuid_to_string};
use crate::ledger::workflow::id_of;
use crate::soc::soc_repository::{ErrorKind, RepositoryError};

verus! {

/// The id of the transaction type whose entries a listing of payments or
/// transfers returns: a failed lookup is a database error, a missing type is
/// `NotFound("Income transaction type not found")`, and a stored id that is
/// not sixteen bytes is `DatabaseError("Failed to parse UUID: <uuid error>")`.
pub fn listing_type_id(found: Result<Option<Vec<u8>>, String>) -> (r: Result<u128, RepositoryError>)
    ensures
        match found {
            Err(m) => r matches Err(e) && e.kind() == ErrorKind::DatabaseError && e.detail() == m@,
            Ok(None) => r matches Err(e) && e.kind() == ErrorKind::NotFound && e.detail()
                == "Income transaction type not found"@,
            Ok(Some(id)) => if id@.len() == 16 {
                r == Ok::<u128, RepositoryError>(id_of(id@))
            } else {
                r matches Err(e) && e.kind() == ErrorKind::DatabaseError && e.detail()
                    == "Failed to parse UUID: "@ + slice_length_error(id@.len())
            },
        },
{
    match found {
        Err(m) => Err(RepositoryError::DatabaseError(m)),
        Ok(None) => Err(RepositoryError::NotFound(String::from_str("Income transaction type not found"))),
        Ok(Some(id)) => match uuid_from_slice(id.as_slice()) {
            Ok(v) => Ok(v),
            Err(e) => Err(RepositoryError::DatabaseError(String::from_str("Failed to parse UUID: ").concat(e.as_str()))),
        },
    }
}

/// The id a transfer is looked up by, after checking it by parsing its own
/// rendering, which always parses back to it.
pub fn transfer_lookup_id(id: u128) -> (r: Result<u128, RepositoryError>)
    ensures
        r == Ok::<u128, RepositoryError>(id),
{
    let text = uuid_to_string(id);
    match parse_uuid(text.as_str()) {
        Ok(v) => Ok(v),
        Err(_) => Err(RepositoryError::OperationFailed(String::from_str("Invalid transaction ID"))),
    }
}

} // verus!
