//! The HTTP face of the service: the response envelope, the request guards
//! that identify the caller, and how each handler turns the outcome of its
//! use case into a status and a body.

use vstd::prelude::*;
use crate::ids::{hyphenated_text, uuid_from_slice, uuid_to_string};
use crate::ledger::workflow::id_of;
use crate::soc::soc_usecase::UsecaseError;
use crate::text::{starts_with, strip_prefix};

verus! {

pub const OK: u16 = 200;
pub const CREATED: u16 = 201;
pub const NO_CONTENT: u16 = 204;
pub const BAD_REQUEST: u16 = 400;
pub const UNAUTHORIZED: u16 = 401;
pub const NOT_FOUND: u16 = 404;
pub const INTERNAL_SERVER_ERROR: u16 = 500;

/// A successful response: the status and the data, sent as `{"data": ...}`.
#[derive(Debug, Clone, PartialEq, Eq)]
pub struct SuccessResponse<T>(pub u16, pub T);

/// A failed response: the status and the error, sent as `{"error": ...}`.
#[derive(Debug, Clone, PartialEq, Eq)]
pub struct ErrorResponse<E>(pub u16, pub E);

/// What a handler answers.
pub type OtterResponse<T, E> = Result<SuccessResponse<T>, ErrorResponse<E>>;

/// A success with the status and the data.
pub fn success<T>(status: u16, data: T) -> (r: OtterResponse<T, String>)
    ensures
        r == Ok::<SuccessResponse<T>, ErrorResponse<String>>(SuccessResponse(status, data)),
{
    Ok(SuccessResponse(status, data))
}

/// A failure with the status and a message.
pub fn error_message(status: u16, message: String) -> (r: OtterResponse<(), String>)
    ensures
        r == Err::<SuccessResponse<()>, ErrorResponse<String>>(ErrorResponse(status, message)),
{
    Err(ErrorResponse(status, message))
}

/// A failure with the status and a structured error.
pub fn error_struct<E>(status: u16, error_data: E) -> (r: OtterResponse<(), E>)
    ensures
        r == Err::<SuccessResponse<()>, ErrorResponse<E>>(ErrorResponse(status, error_data)),
{
    Err(ErrorResponse(status, error_data))
}

// ---------------------------------------------------------------------------
// Request guards
// ---------------------------------------------------------------------------

/// What a request guard concludes: the caller, or a status and a reason.
#[derive(Debug, Clone, PartialEq, Eq)]
pub enum Outcome<T> {
    Success(T),
    Error(u16, String),
}

/// The outcome refuses the request with the status and the reason.
pub open spec fn refuses<T>(o: Outcome<T>, status: u16, reason: Seq<char>) -> bool {
    o matches Outcome::Error(s, t) && s == status && t@ == reason
}

/// A caller identified by a JSON web token.
#[derive(Debug, Clone, Copy, PartialEq, Eq)]
pub struct AuthenticatedUser {
    pub id: i32,
}

/// The token a header value `Bearer <token>` carries.
pub open spec fn bearer_token(header: Option<&str>) -> Option<Seq<char>> {
    match header {
        Some(h) => if starts_with(h@, "Bearer "@) {
            Some(h@.subrange(7, h@.len() as int))
        } else {
            None
        },
        None => None,
    }
}

/// Calls `jsonwebtoken::decode` on the token with
/// `DecodingKey::from_secret(secret)` and `Validation::new(Algorithm::HS512)`,
/// reading the claims as a JSON object, and hands back its `sub` as an `i32`
/// (`Err` when decoding fails or `sub` is no such number). Decoding checks the
/// token's expiry against the current time, so nothing is stated of the
/// result.
#[verifier::external_body]
fn decode_subject(token: &str, secret: &str) -> (r: Result<i32, ()>) {
    let key = jsonwebtoken::DecodingKey::from_secret(secret.as_bytes());
    let validation = jsonwebtoken::Validation::new(jsonwebtoken::Algorithm::HS512);
    let data = jsonwebtoken::decode::<serde_json::Map<String, serde_json::Value>>(token, &key, &validation)
        .map_err(|_| ())?;
    data.claims.get("sub").and_then(|v| v.as_i64()).and_then(|v| i32::try_from(v).ok()).ok_or(())
}

impl AuthenticatedUser {
    /// The caller a decoded token names, or `401 Invalid token` when the
    /// token does not decode.
    pub fn from_decoded(decoded: Result<i32, ()>) -> (r: Outcome<AuthenticatedUser>)
        ensures
            match decoded {
                Ok(id) => r == Outcome::Success(AuthenticatedUser { id }),
                Err(()) => refuses(r, UNAUTHORIZED, "Invalid token"@),
            },
    {
        match decoded {
            Ok(id) => Outcome::Success(AuthenticatedUser { id }),
            Err(()) => Outcome::Error(UNAUTHORIZED, String::from_str("Invalid token")),
        }
    }

    /// Identifies the caller from the `Authorization` header: it must read
    /// `Bearer <token>`, the server must have a JWT secret, and the token
    /// must decode under the secret, naming the caller's id.
    pub fn from_request(header: Option<&str>, secret: Option<&str>) -> (r: Outcome<AuthenticatedUser>)
        ensures
            bearer_token(header) is None ==> refuses(
                r,
                UNAUTHORIZED,
                "Authorization header missing or malformed"@,
            ),
            bearer_token(header) is Some && secret is None ==> refuses(
                r,
                INTERNAL_SERVER_ERROR,
                "JWT secret not configured"@,
            ),
            bearer_token(header) is Some && secret is Some ==> (r is Success || refuses(
                r,
                UNAUTHORIZED,
                "Invalid token"@,
            )),
    {
        proof {
            reveal_strlit("Bearer ");
        }
        if let Some(h) = header {
            if let Some(token) = strip_prefix(h, "Bearer ") {
                let s = match secret {
                    Some(s) => s,
                    None => {
                        return Outcome::Error(
                            INTERNAL_SERVER_ERROR,
                            String::from_str("JWT secret not configured"),
                        )
                    },
                };
                return Self::from_decoded(decode_subject(token, s));
            }
        }
        Outcome::Error(UNAUTHORIZED, String::from_str("Authorization header missing or malformed"))
    }
}

/// A caller identified by the MCP token of a user.
#[derive(Debug, Clone, Copy, PartialEq, Eq)]
pub struct McpAuthenticateUser {
    pub user_id: u128,
}

/// The token a header value `Mcp Token <token>` carries.
pub open spec fn mcp_token(header: &str) -> Option<Seq<char>> {
    if starts_with(header@, "Mcp Token "@) {
        Some(header@.subrange(10, header@.len() as int))
    } else {
        None
    }
}

/// The outcome of an MCP caller's lookup: the user found, whose stored id
/// must denote a UUID, or the refusal.
pub open spec fn mcp_lookup_outcome(
    found: Result<Option<Vec<u8>>, ()>,
    r: Outcome<McpAuthenticateUser>,
) -> bool {
    match found {
        Err(()) => refuses(r, INTERNAL_SERVER_ERROR, "Database query failed"@),
        Ok(None) => refuses(r, UNAUTHORIZED, "Invalid MCP token"@),
        Ok(Some(id)) => if id@.len() == 16 {
            r == Outcome::Success(McpAuthenticateUser { user_id: id_of(id@) })
        } else {
            refuses(r, INTERNAL_SERVER_ERROR, "Failed to parse user ID"@)
        },
    }
}

impl McpAuthenticateUser {
    /// The first step of identifying the caller from the `Mcp Authorization`
    /// header: the database must be available and the header must read
    /// `Mcp Token <token>`; the token is then to be looked up.
    pub fn token_to_look_up<'a>(database_available: bool, header: Option<&'a str>) -> (r: Result<
        &'a str,
        Outcome<McpAuthenticateUser>,
    >)
        ensures
            !database_available ==> (r matches Err(o) && refuses(
                o,
                INTERNAL_SERVER_ERROR,
                "Database connection not available"@,
            )),
            database_available && header is None ==> (r matches Err(o) && refuses(
                o,
                UNAUTHORIZED,
                "Authorization header missing"@,
            )),
            database_available && header is Some && mcp_token(header->Some_0) is None ==> (r matches Err(
                o,
            ) && refuses(o, UNAUTHORIZED, "Authorization header malformed"@)),
            database_available && header is Some && mcp_token(header->Some_0) is Some ==> (r matches Ok(
                t,
            ) && t@ == mcp_token(header->Some_0)->Some_0),
    {
        proof {
            reveal_strlit("Mcp Token ");
        }
        if !database_available {
            return Err(
                Outcome::Error(
                    INTERNAL_SERVER_ERROR,
                    String::from_str("Database connection not available"),
                ),
            );
        }
        let h = match header {
            Some(h) => h,
            None => return Err(
                Outcome::Error(UNAUTHORIZED, String::from_str("Authorization header missing")),
            ),
        };
        match strip_prefix(h, "Mcp Token ") {
            Some(t) => Ok(t),
            None => Err(Outcome::Error(UNAUTHORIZED, String::from_str("Authorization header malformed"))),
        }
    }

    /// The second step: what the lookup of the token found becomes the
    /// outcome.
    pub fn from_lookup(found: Result<Option<Vec<u8>>, ()>) -> (r: Outcome<McpAuthenticateUser>)
        ensures
            mcp_lookup_outcome(found, r),
    {
        match found {
            Err(()) => Outcome::Error(INTERNAL_SERVER_ERROR, String::from_str("Database query failed")),
            Ok(None) => Outcome::Error(UNAUTHORIZED, String::from_str("Invalid MCP token")),
            Ok(Some(id)) => match uuid_from_slice(id.as_slice()) {
                Ok(user_id) => Outcome::Success(McpAuthenticateUser { user_id }),
                Err(_) => Outcome::Error(
                    INTERNAL_SERVER_ERROR,
                    String::from_str("Failed to parse user ID"),
                ),
            },
        }
    }

    /// Identifies the caller from the `Mcp Authorization` header: the
    /// database must be available, the header must read `Mcp Token <token>`,
    /// and `lookup` must find the user with that token, whose stored id must
    /// denote a UUID.
    pub fn from_request<F: Fn(&str) -> Result<Option<Vec<u8>>, ()>>(
        database_available: bool,
        header: Option<&str>,
        lookup: F,
    ) -> (r: Outcome<McpAuthenticateUser>)
        requires
            forall|t: &str| call_requires(lookup, (t,)),
        ensures
            !database_available ==> refuses(
                r,
                INTERNAL_SERVER_ERROR,
                "Database connection not available"@,
            ),
            database_available && header is None ==> refuses(
                r,
                UNAUTHORIZED,
                "Authorization header missing"@,
            ),
            database_available && header is Some && mcp_token(header->Some_0) is None ==> refuses(
                r,
                UNAUTHORIZED,
                "Authorization header malformed"@,
            ),
            database_available && header is Some && mcp_token(header->Some_0) is Some ==> exists|
                t: &str,
                found: Result<Option<Vec<u8>>, ()>,
            |
                t@ == mcp_token(header->Some_0)->Some_0 && #[trigger] call_ensures(
                    lookup,
                    (t,),
                    found,
                ) && mcp_lookup_outcome(found, r),
    {
        match Self::token_to_look_up(database_available, header) {
            Err(o) => o,
            Ok(token) => {
                let found = lookup(token);
                Self::from_lookup(found)
            },
        }
    }
}

// ---------------------------------------------------------------------------
// Handlers
// ---------------------------------------------------------------------------

/// The message a handler answers a nil id with.
#[derive(Debug, Clone, Copy, PartialEq, Eq)]
pub enum NilIdMessage {
    InvalidAssetId,
    InvalidAssetTypeId,
    InvalidContactTypeId,
    InvalidCurrentSheetId,
    InvalidPaymentId,
    TransactionIdEmpty,
    PaymentIdEmpty,
    IdEmpty,
}

/// The text of the message for a nil id.
pub open spec fn nil_id_text(m: NilIdMessage) -> Seq<char> {
    match m {
        NilIdMessage::InvalidAssetId => "Invalid asset ID"@,
        NilIdMessage::InvalidAssetTypeId => "Invalid asset type ID"@,
        NilIdMessage::InvalidContactTypeId => "Invalid contact type ID"@,
        NilIdMessage::InvalidCurrentSheetId => "Invalid current sheet ID"@,
        NilIdMessage::InvalidPaymentId => "Invalid payment ID"@,
        NilIdMessage::TransactionIdEmpty => "Validation errors: \"transaction id is empty\""@,
        NilIdMessage::PaymentIdEmpty => "Validation errors: \"payment id is empty\""@,
        NilIdMessage::IdEmpty => "Validation errors: \"Id is empty\""@,
    }
}

/// A handler refuses the nil id with `400` and its message; any other id
/// passes.
pub fn nil_id_guard(id: u128, message: NilIdMessage) -> (r: Option<ErrorResponse<String>>)
    ensures
        id != 0 ==> r is None,
        id == 0 ==> (r matches Some(ErrorResponse(s, t)) && s == BAD_REQUEST && t@ == nil_id_text(
            message,
        )),
{
    if id != 0 {
        return None;
    }
    let text = match message {
        NilIdMessage::InvalidAssetId => String::from_str("Invalid asset ID"),
        NilIdMessage::InvalidAssetTypeId => String::from_str("Invalid asset type ID"),
        NilIdMessage::InvalidContactTypeId => String::from_str("Invalid contact type ID"),
        NilIdMessage::InvalidCurrentSheetId => String::from_str("Invalid current sheet ID"),
        NilIdMessage::InvalidPaymentId => String::from_str("Invalid payment ID"),
        NilIdMessage::TransactionIdEmpty => String::from_str(
            "Validation errors: \"transaction id is empty\"",
        ),
        NilIdMessage::PaymentIdEmpty => String::from_str("Validation errors: \"payment id is empty\""),
        NilIdMessage::IdEmpty => String::from_str("Validation errors: \"Id is empty\""),
    };
    Some(ErrorResponse(BAD_REQUEST, text))
}

/// A request body that fails validation is refused with `400` and
/// `Validation errors: <the validation errors>`.
pub fn validation_failed(errors: &str) -> (r: ErrorResponse<String>)
    ensures
        r.0 == BAD_REQUEST,
        r.1@ == "Validation errors: "@ + errors@,
{
    ErrorResponse(BAD_REQUEST, String::from_str("Validation errors: ").concat(errors))
}

/// The outcome of a use case becomes the response: its data with the
/// handler's success status, or `500` with the error's rendering.
pub fn respond<T>(status: u16, outcome: Result<T, String>) -> (r: OtterResponse<T, String>)
    ensures
        match outcome {
            Ok(v) => r == Ok::<SuccessResponse<T>, ErrorResponse<String>>(SuccessResponse(status, v)),
            Err(m) => r == Err::<SuccessResponse<T>, ErrorResponse<String>>(
                ErrorResponse(INTERNAL_SERVER_ERROR, m),
            ),
        },
{
    match outcome {
        Ok(v) => Ok(SuccessResponse(status, v)),
        Err(m) => Err(ErrorResponse(INTERNAL_SERVER_ERROR, m)),
    }
}

/// What a lookup handler reports when nothing is found.
#[derive(Debug, Clone, Copy, PartialEq, Eq)]
pub enum Missing {
    Asset,
    AssetType,
    Contact,
    ContactType,
    CurrentSheet,
    Expense,
    ExpenseType,
    Income,
    Payment,
    Transfer,
}

/// The text a lookup handler reports when nothing is found.
pub open spec fn missing_text(m: Missing) -> Seq<char> {
    match m {
        Missing::Asset => "Asset not found"@,
        Missing::AssetType => "Asset type not found"@,
        Missing::Contact => "Contact not found"@,
        Missing::ContactType => "Contact type not found"@,
        Missing::CurrentSheet => "Current sheet not found"@,
        Missing::Expense => "Expense not found"@,
        Missing::ExpenseType => "Expense type not found"@,
        Missing::Income => "Income not found"@,
        Missing::Payment => "Payment not found"@,
        Missing::Transfer => "Transfer not found"@,
    }
}

/// The outcome of a lookup becomes the response: `200` with what was found,
/// `404` with the handler's text when nothing was, `500` with the error's
/// rendering when the lookup failed.
pub fn respond_found<T>(missing: Missing, outcome: Result<Option<T>, String>) -> (r: OtterResponse<
    T,
    String,
>)
    ensures
        match outcome {
            Ok(Some(v)) => r == Ok::<SuccessResponse<T>, ErrorResponse<String>>(SuccessResponse(OK, v)),
            Ok(None) => r matches Err(ErrorResponse(s, t)) && s == NOT_FOUND && t@ == missing_text(
                missing,
            ),
            Err(m) => r == Err::<SuccessResponse<T>, ErrorResponse<String>>(
                ErrorResponse(INTERNAL_SERVER_ERROR, m),
            ),
        },
{
    match outcome {
        Ok(Some(v)) => Ok(SuccessResponse(OK, v)),
        Ok(None) => {
            let text = match missing {
                Missing::Asset => String::from_str("Asset not found"),
                Missing::AssetType => String::from_str("Asset type not found"),
                Missing::Contact => String::from_str("Contact not found"),
                Missing::ContactType => String::from_str("Contact type not found"),
                Missing::CurrentSheet => String::from_str("Current sheet not found"),
                Missing::Expense => String::from_str("Expense not found"),
                Missing::ExpenseType => String::from_str("Expense type not found"),
                Missing::Income => String::from_str("Income not found"),
                Missing::Payment => String::from_str("Payment not found"),
                Missing::Transfer => String::from_str("Transfer not found"),
            };
            Err(ErrorResponse(NOT_FOUND, text))
        },
        Err(m) => Err(ErrorResponse(INTERNAL_SERVER_ERROR, m)),
    }
}

/// What a deletion handler deletes.
#[derive(Debug, Clone, Copy, PartialEq, Eq)]
pub enum Deleted {
    Asset,
    AssetType,
    Contact,
    ContactType,
    Expense,
    ExpenseType,
    Income,
    Payment,
    Transfer,
}

/// The status of a successful deletion: `204` for a payment, `200`
/// otherwise.
pub open spec fn deleted_status(d: Deleted) -> u16 {
    match d {
        Deleted::Payment => NO_CONTENT,
        _ => OK,
    }
}

/// The message of a successful deletion.
pub open spec fn deleted_text(d: Deleted, id: u128) -> Seq<char> {
    let h = hyphenated_text(id);
    match d {
        Deleted::Asset => "Asset with ID "@ + h + " deleted successfully"@,
        Deleted::AssetType => "Asset type with id "@ + h + " deleted successfully"@,
        Deleted::Contact => "Contact with ID "@ + h + " deleted successfully"@,
        Deleted::ContactType => "Contact type with ID "@ + h + " deleted"@,
        Deleted::Expense => "Expense with ID "@ + h + " deleted successfully"@,
        Deleted::ExpenseType => "Expense type with ID "@ + h + " deleted successfully"@,
        Deleted::Income => "Income with ID "@ + h + " deleted successfully"@,
        Deleted::Payment => "Payment with ID: "@ + h + " deleted successfully"@,
        Deleted::Transfer => "Transfer with ID "@ + h + " deleted successfully"@,
    }
}

/// The status a failed change or deletion is answered with: `404` when the
/// entry is missing, `500` otherwise.
pub open spec fn failure_status(e: UsecaseError) -> u16 {
    if e is ResourceNotFound {
        NOT_FOUND
    } else {
        INTERNAL_SERVER_ERROR
    }
}

fn failure_response(e: UsecaseError) -> (r: ErrorResponse<String>)
    ensures
        r.0 == failure_status(e),
        r.1@ == e.display_text(),
{
    let status = match e {
        UsecaseError::ResourceNotFound(_) => NOT_FOUND,
        _ => INTERNAL_SERVER_ERROR,
    };
    ErrorResponse(status, e.to_display_string())
}

/// The outcome of a change becomes the response: `200` with the changed
/// entry, `404` with the error's rendering when the entry is missing, `500`
/// with it otherwise.
pub fn respond_updated<T>(outcome: Result<T, UsecaseError>) -> (r: OtterResponse<T, String>)
    ensures
        match outcome {
            Ok(v) => r == Ok::<SuccessResponse<T>, ErrorResponse<String>>(SuccessResponse(OK, v)),
            Err(e) => r matches Err(ErrorResponse(s, t)) && s == failure_status(e) && t@
                == e.display_text(),
        },
{
    match outcome {
        Ok(v) => Ok(SuccessResponse(OK, v)),
        Err(e) => Err(failure_response(e)),
    }
}

/// The outcome of a deletion becomes the response: the deletion's status
/// and message, `404` with the error's rendering when the entry is missing,
/// `500` with it otherwise.
pub fn respond_deleted(deleted: Deleted, id: u128, outcome: Result<(), UsecaseError>) -> (r:
    OtterResponse<String, String>)
    ensures
        match outcome {
            Ok(()) => r matches Ok(SuccessResponse(s, t)) && s == deleted_status(deleted) && t@
                == deleted_text(deleted, id),
            Err(e) => r matches Err(ErrorResponse(s, t)) && s == failure_status(e) && t@
                == e.display_text(),
        },
{
    match outcome {
        Err(e) => Err(failure_response(e)),
        Ok(()) => {
            let h = uuid_to_string(id);
            let (head, tail) = match deleted {
                Deleted::Asset => ("Asset with ID ", " deleted successfully"),
                Deleted::AssetType => ("Asset type with id ", " deleted successfully"),
                Deleted::Contact => ("Contact with ID ", " deleted successfully"),
                Deleted::ContactType => ("Contact type with ID ", " deleted"),
                Deleted::Expense => ("Expense with ID ", " deleted successfully"),
                Deleted::ExpenseType => ("Expense type with ID ", " deleted successfully"),
                Deleted::Income => ("Income with ID ", " deleted successfully"),
                Deleted::Payment => ("Payment with ID: ", " deleted successfully"),
                Deleted::Transfer => ("Transfer with ID ", " deleted successfully"),
            };
            proof {
                reveal_strlit("Asset with ID ");
                reveal_strlit("Asset type with id ");
                reveal_strlit("Contact with ID ");
                reveal_strlit("Contact type with ID ");
                reveal_strlit("Expense with ID ");
                reveal_strlit("Expense type with ID ");
                reveal_strlit("Income with ID ");
                reveal_strlit("Payment with ID: ");
                reveal_strlit("Transfer with ID ");
                reveal_strlit(" deleted successfully");
                reveal_strlit(" deleted");
            }
            let status = match deleted {
                Deleted::Payment => NO_CONTENT,
                _ => OK,
            };
            Ok(SuccessResponse(status, String::from_str(head).concat(h.as_str()).concat(tail)))
        },
    }
}

} // verus!
