//! The rules of user accounts: sign-up, profile changes, roles, MCP tokens,
//! sign-in and the profile a user sees.

use vstd::prelude::*;
use crate::ids::{hyphenated_text, uuid_from_slice, uuid_to_string, slice_length_error};
use crate::ledger::workflow::id_of;
use crate::soc::soc_repository::{ErrorKind, RepositoryError};
use crate::text::starts_with;
use vstd::string::StringSliceAdditionalSpecFns;
use crate::catalog::{keep_unless_empty, kept_text, opt_view};

verus! {

// ---------------------------------------------------------------------------
// Hashing and signatures
// ---------------------------------------------------------------------------

/// The bcrypt cost every stored hash is made with.
pub const HASH_COST: u32 = 12;

/// What `bcrypt::hash_with_salt` gives, formatted in version `2b`, for the
/// password's bytes, the cost and the sixteen salt bytes.
pub uninterp spec fn bcrypt_hashed(password: Seq<u8>, cost: u32, salt: Seq<u8>) -> Seq<char>;

/// `hash` is the bcrypt hash of `secret`'s UTF-8 bytes at `HASH_COST` under
/// some sixteen-byte salt.
pub open spec fn is_bcrypt_hash_of(hash: Seq<char>, secret: Seq<char>) -> bool {
    exists|salt: Seq<u8>|
        salt.len() == 16 && #[trigger] bcrypt_hashed(vstd::utf8::encode_utf8(secret), HASH_COST, salt)
            == hash
}

/// Draws sixteen bytes from the operating system's random source
/// (`rand::rngs::OsRng`, through `TryRngCore::try_fill_bytes`); `Err` when it
/// has none to give. The bytes themselves are left unstated: they are random.
#[verifier::external_body]
fn os_salt() -> (r: Result<[u8; 16], ()>) {
    let mut salt = [0u8; 16];
    rand::TryRngCore::try_fill_bytes(&mut rand::rngs::OsRng, &mut salt).map(|_| salt).map_err(|_| ())
}

/// Calls `bcrypt::hash_with_salt` on the password's bytes and formats the
/// parts in version `2b` (`format_for_version(Version::TwoB)`). With a cost
/// in bcrypt's range (4 to 31) the call does not fail. The text is the named
/// `bcrypt_hashed` of the three inputs: 60 characters, `$2b$`, the cost in
/// two digits, `$`, then the encoded salt and hash.
#[verifier::external_body]
fn bcrypt_hash_with_salt(password: &str, cost: u32, salt: [u8; 16]) -> (r: Result<String, ()>)
    requires
        4 <= cost <= 31,
    ensures
        r is Ok,
        r matches Ok(h) ==> h@ == bcrypt_hashed(password.spec_bytes(), cost, salt@),
        r matches Ok(h) ==> h@.len() == 60,
        r matches Ok(h) ==> cost == 12 ==> starts_with(h@, "$2b$12$"@),
{
    bcrypt::hash_with_salt(password, cost, salt)
        .map(|parts| parts.format_for_version(bcrypt::Version::TwoB))
        .map_err(|_| ())
}

/// Hashes `secret` for storage under a fresh salt; `Err` only when no salt
/// can be drawn.
fn hash_secret(secret: &str) -> (r: Result<String, ()>)
    ensures
        r matches Ok(h) ==> h@.len() == 60 && starts_with(h@, "$2b$12$"@) && is_bcrypt_hash_of(
            h@,
            secret@,
        ),
{
    let salt = match os_salt() {
        Ok(s) => s,
        Err(()) => return Err(()),
    };
    let r = bcrypt_hash_with_salt(secret, HASH_COST, salt);
    proof {
        broadcast use vstd::array::array_len_matches_n;
        assert(salt@.len() == 16);
        if r is Ok {
            assert(bcrypt_hashed(vstd::utf8::encode_utf8(secret@), HASH_COST, salt@) == r->Ok_0@);
        }
    }
    r
}

/// What `jsonwebtoken::crypto::verify` gives for the signature, the message
/// and an HS256 key made from the secret: whether the signature is the
/// message's HMAC-SHA256 signature under the secret, or an error.
pub uninterp spec fn hs256_verified(signature: Seq<char>, message: Seq<u8>, secret: Seq<u8>) -> Result<bool, ()>;

/// Calls `jsonwebtoken::crypto::verify` with `Algorithm::HS256` and the
/// decoding key `DecodingKey::from_secret(secret)`. The result is the named
/// `hs256_verified` of the three inputs; for HS256 the crate re-signs the
/// message and compares the texts, which cannot fail, so the result is `Ok`.
#[verifier::external_body]
fn hs256_verify(signature: &str, message: &[u8], secret: &[u8]) -> (r: Result<bool, ()>)
    ensures
        r == hs256_verified(signature@, message@, secret@),
        r is Ok,
{
    jsonwebtoken::crypto::verify(
        signature,
        message,
        &jsonwebtoken::DecodingKey::from_secret(secret),
        jsonwebtoken::Algorithm::HS256,
    ).map_err(|_| ())
}

/// A password is stored as its bcrypt hash; when no salt can be drawn the
/// request is `InvalidInput("Failed to hash password")`.
pub fn prepare_password(password: &str) -> (r: Result<String, RepositoryError>)
    ensures
        r is Ok ==> r->Ok_0@.len() == 60 && starts_with(r->Ok_0@, "$2b$12$"@),
        r is Ok ==> is_bcrypt_hash_of(r->Ok_0@, password@),
        r is Err ==> (r->Err_0 matches RepositoryError::InvalidInput(t) && t@
            == "Failed to hash password"@),
{
    match hash_secret(password) {
        Ok(h) => Ok(h),
        Err(()) => Err(RepositoryError::InvalidInput(String::from_str("Failed to hash password"))),
    }
}

/// `c` is an ASCII letter or digit.
pub open spec fn is_alphanumeric(c: char) -> bool {
    ('0' <= c && c <= '9') || ('A' <= c && c <= 'Z') || ('a' <= c && c <= 'z')
}

/// Draws `len` characters from `rand::distr::Alphanumeric` with the thread's
/// generator (`rand::rng()`, seeded from the operating system): ASCII letters
/// and digits, chosen at random, so nothing more is stated of them.
#[verifier::external_body]
fn random_alphanumeric(len: usize) -> (r: String)
    ensures
        r@.len() == len,
        forall|i: int| 0 <= i < r@.len() ==> is_alphanumeric(#[trigger] r@[i]),
{
    rand::Rng::sample_iter(rand::rng(), &rand::distr::Alphanumeric).take(len).map(char::from).collect()
}

/// How many characters a fresh MCP token has.
pub const MCP_TOKEN_LEN: usize = 32;

/// `token` could be a fresh MCP token: 32 ASCII letters and digits.
pub open spec fn is_fresh_token(token: Seq<char>) -> bool {
    &&& token.len() == MCP_TOKEN_LEN
    &&& forall|i: int| 0 <= i < token.len() ==> is_alphanumeric(#[trigger] token[i])
}

/// A fresh, random MCP token to store, as its bcrypt hash (the token itself
/// is not kept); when no salt can be drawn the request is
/// `InvalidInput("Failed to hash MCP token")`.
pub fn fresh_mcp_token_hash() -> (r: Result<String, RepositoryError>)
    ensures
        r is Ok ==> r->Ok_0@.len() == 60 && starts_with(r->Ok_0@, "$2b$12$"@),
        r is Ok ==> exists|token: Seq<char>|
            is_fresh_token(token) && #[trigger] is_bcrypt_hash_of(r->Ok_0@, token),
        r is Err ==> (r->Err_0 matches RepositoryError::InvalidInput(t) && t@
            == "Failed to hash MCP token"@),
{
    let raw = random_alphanumeric(MCP_TOKEN_LEN);
    let r = prepare_mcp_token(raw.as_str());
    proof {
        if r is Ok {
            assert(is_fresh_token(raw@));
            assert(is_bcrypt_hash_of(r->Ok_0@, raw@));
        }
    }
    r
}

/// A regenerated MCP token is stored as its bcrypt hash; when no salt can
/// be drawn the request is `InvalidInput("Failed to hash MCP token")`.
pub fn prepare_mcp_token(token: &str) -> (r: Result<String, RepositoryError>)
    ensures
        r is Ok ==> r->Ok_0@.len() == 60 && starts_with(r->Ok_0@, "$2b$12$"@),
        r is Ok ==> is_bcrypt_hash_of(r->Ok_0@, token@),
        r is Err ==> (r->Err_0 matches RepositoryError::InvalidInput(t) && t@
            == "Failed to hash MCP token"@),
{
    match hash_secret(token) {
        Ok(h) => Ok(h),
        Err(()) => Err(RepositoryError::InvalidInput(String::from_str("Failed to hash MCP token"))),
    }
}

// ---------------------------------------------------------------------------
// Users
// ---------------------------------------------------------------------------

/// Sign-up needs the requested gender to exist:
/// `InvalidInput("Gender '<gender>' not found")` otherwise.
pub fn signup_gender<T>(gender: &str, found: Option<T>) -> (r: Result<T, RepositoryError>)
    ensures
        match found {
            Some(g) => r == Ok::<T, RepositoryError>(g),
            None => r matches Err(RepositoryError::InvalidInput(t)) && t@ == "Gender '"@ + gender@
                + "' not found"@,
        },
{
    match found {
        Some(g) => Ok(g),
        None => Err(
            RepositoryError::InvalidInput(
                String::from_str("Gender '").concat(gender).concat("' not found"),
            ),
        ),
    }
}

/// Sign-up gives the role `user`, which must exist:
/// `InvalidInput("Role 'user' not found")` otherwise.
pub fn signup_role<T>(found: Option<T>) -> (r: Result<T, RepositoryError>)
    ensures
        match found {
            Some(g) => r == Ok::<T, RepositoryError>(g),
            None => r matches Err(RepositoryError::InvalidInput(t)) && t@ == "Role 'user' not found"@,
        },
{
    match found {
        Some(g) => Ok(g),
        None => Err(RepositoryError::InvalidInput(String::from_str("Role 'user' not found"))),
    }
}

/// A user to store at sign-up.
#[derive(Debug, Clone, PartialEq, Eq)]
pub struct NewUser<T> {
    pub id: u128,
    pub username: String,
    pub email: String,
    pub password_hash: String,
    pub first_name: String,
    pub last_name: String,
    pub gender: T,
    pub role: T,
    pub mcp_token: String,
}

/// The user stored at sign-up: a fresh id, the request's names and email,
/// the stored form of the request's password (see `prepare_password`), the
/// gender and role found (see `signup_gender` and `signup_role`), and a fresh
/// MCP token.
pub fn signup_user<T>(
    id: u128,
    username: String,
    email: String,
    password_hash: String,
    first_name: String,
    last_name: String,
    gender: T,
    role: T,
    mcp_token: String,
) -> (r: NewUser<T>)
    ensures
        r.id == id,
        r.username == username,
        r.email == email,
        r.password_hash == password_hash,
        r.first_name == first_name,
        r.last_name == last_name,
        r.gender == gender,
        r.role == role,
        r.mcp_token == mcp_token,
{
    NewUser {
        id,
        username,
        email,
        password_hash,
        first_name,
        last_name,
        gender,
        role,
        mcp_token,
    }
}

/// `User with ID <id> not found`.
pub open spec fn user_missing_text(user: u128) -> Seq<char> {
    "User with ID "@ + hyphenated_text(user) + " not found"@
}

/// The error for a user that does not exist.
pub fn user_missing(user: u128) -> (r: RepositoryError)
    ensures
        r.kind() == ErrorKind::NotFound,
        r.detail() == user_missing_text(user),
{
    let u = uuid_to_string(user);
    RepositoryError::NotFound(String::from_str("User with ID ").concat(u.as_str()).concat(" not found"))
}

/// A user deletion that removed no row means no such user.
pub fn user_rows_deleted_check(rows: u64, user: u128) -> (r: Result<(), RepositoryError>)
    ensures
        rows > 0 ==> r is Ok,
        rows == 0 ==> (r matches Err(e) && e.kind() == ErrorKind::NotFound && e.detail()
            == user_missing_text(user)),
{
    if rows == 0 {
        Err(user_missing(user))
    } else {
        Ok(())
    }
}

/// What a profile update sets: each text field if given and not empty, and
/// the hash of a given, non-empty password.
#[derive(Debug, Clone, PartialEq, Eq)]
pub struct UserChanges {
    pub username: Option<String>,
    pub email: Option<String>,
    pub first_name: Option<String>,
    pub last_name: Option<String>,
    pub password_hash: Option<String>,
}

/// The changes a profile update makes; a password that cannot be hashed
/// fails the update.
pub fn user_changes(
    username: Option<String>,
    email: Option<String>,
    first_name: Option<String>,
    last_name: Option<String>,
    password: Option<String>,
) -> (r: Result<UserChanges, RepositoryError>)
    ensures
        r matches Ok(c) ==> opt_view(c.username) == kept_text(opt_view(username)) && opt_view(
            c.email,
        ) == kept_text(opt_view(email)) && opt_view(c.first_name) == kept_text(
            opt_view(first_name),
        ) && opt_view(c.last_name) == kept_text(opt_view(last_name)) && (c.password_hash is Some
            <==> kept_text(opt_view(password)) is Some) && (c.password_hash matches Some(h)
            ==> h@.len() == 60) && (c.password_hash matches Some(h) ==> (kept_text(
            opt_view(password),
        ) matches Some(p) && is_bcrypt_hash_of(h@, p))),
        r is Err ==> kept_text(opt_view(password)) is Some && (r->Err_0 matches RepositoryError::InvalidInput(
            t,
        ) && t@ == "Failed to hash password"@),
{
    let username = keep_unless_empty(username);
    let email = keep_unless_empty(email);
    let first_name = keep_unless_empty(first_name);
    let last_name = keep_unless_empty(last_name);
    let password_hash = match keep_unless_empty(password) {
        Some(p) => match prepare_password(p.as_str()) {
            Ok(h) => Some(h),
            Err(e) => return Err(e),
        },
        None => None,
    };
    Ok(UserChanges { username, email, first_name, last_name, password_hash })
}

/// Looking a user up by MCP token needs a match:
/// `NotFound("User with MCP token '<token>' not found")` otherwise.
pub fn mcp_token_owner<T>(token: &str, found: Option<T>) -> (r: Result<T, RepositoryError>)
    ensures
        match found {
            Some(u) => r == Ok::<T, RepositoryError>(u),
            None => r matches Err(RepositoryError::NotFound(t)) && t@ == "User with MCP token '"@
                + token@ + "' not found"@,
        },
{
    match found {
        Some(u) => Ok(u),
        None => Err(
            RepositoryError::NotFound(
                String::from_str("User with MCP token '").concat(token).concat("' not found"),
            ),
        ),
    }
}

// ---------------------------------------------------------------------------
// Roles
// ---------------------------------------------------------------------------

/// A role change asked of the role management.
#[derive(Debug, Clone, Copy, PartialEq, Eq)]
pub enum RoleChange {
    Assign,
    Revoke,
}

/// Only admins change roles: a failed check is passed on, a non-admin gets
/// `PermissionDenied("Only admins can assign roles")` (or `revoke`).
pub fn role_admin_check(is_admin: Result<bool, RepositoryError>, change: RoleChange) -> (r: Result<
    (),
    RepositoryError,
>)
    ensures
        match is_admin {
            Err(e) => r == Err::<(), RepositoryError>(e),
            Ok(true) => r is Ok,
            Ok(false) => r matches Err(RepositoryError::PermissionDenied(t)) && t@ == match change {
                RoleChange::Assign => "Only admins can assign roles"@,
                RoleChange::Revoke => "Only admins can revoke roles"@,
            },
        },
{
    match is_admin {
        Err(e) => Err(e),
        Ok(true) => Ok(()),
        Ok(false) => Err(
            RepositoryError::PermissionDenied(
                match change {
                    RoleChange::Assign => String::from_str("Only admins can assign roles"),
                    RoleChange::Revoke => String::from_str("Only admins can revoke roles"),
                },
            ),
        ),
    }
}

/// The role to assign must exist: `NotFound("Role '<role>' not found")`
/// otherwise.
pub fn role_to_assign<T>(role: &str, found: Option<T>) -> (r: Result<T, RepositoryError>)
    ensures
        match found {
            Some(x) => r == Ok::<T, RepositoryError>(x),
            None => r matches Err(RepositoryError::NotFound(t)) && t@ == "Role '"@ + role@
                + "' not found"@,
        },
{
    match found {
        Some(x) => Ok(x),
        None => Err(RepositoryError::NotFound(String::from_str("Role '").concat(role).concat("' not found"))),
    }
}

/// A role is revoked only from a user who has it: a failed check is passed
/// on; otherwise `NotFound("User with ID '<user>' does not have the role '<role>'")`.
pub fn revoked_role_held(has: Result<bool, RepositoryError>, target: u128, role: &str) -> (r: Result<
    (),
    RepositoryError,
>)
    ensures
        match has {
            Err(e) => r == Err::<(), RepositoryError>(e),
            Ok(true) => r is Ok,
            Ok(false) => r matches Err(RepositoryError::NotFound(t)) && t@ == "User with ID '"@
                + hyphenated_text(target) + "' does not have the role '"@ + role@ + "'"@,
        },
{
    match has {
        Err(e) => Err(e),
        Ok(true) => Ok(()),
        Ok(false) => {
            let u = uuid_to_string(target);
            Err(
                RepositoryError::NotFound(
                    String::from_str("User with ID '").concat(u.as_str()).concat(
                        "' does not have the role '",
                    ).concat(role).concat("'"),
                ),
            )
        },
    }
}

/// Revoking falls back to the role `user`, which must exist:
/// `NotFound("Default role 'user' not found")` otherwise.
pub fn default_role<T>(found: Option<T>) -> (r: Result<T, RepositoryError>)
    ensures
        match found {
            Some(x) => r == Ok::<T, RepositoryError>(x),
            None => r matches Err(RepositoryError::NotFound(t)) && t@
                == "Default role 'user' not found"@,
        },
{
    match found {
        Some(x) => Ok(x),
        None => Err(RepositoryError::NotFound(String::from_str("Default role 'user' not found"))),
    }
}

/// A role change that updated no row means no such user:
/// `NotFound("User with ID '<user>' not found")`.
pub fn role_rows_updated_check(rows: u64, target: u128) -> (r: Result<(), RepositoryError>)
    ensures
        rows > 0 ==> r is Ok,
        rows == 0 ==> (r matches Err(RepositoryError::NotFound(t)) && t@ == "User with ID '"@
            + hyphenated_text(target) + "' not found"@),
{
    if rows == 0 {
        let u = uuid_to_string(target);
        Err(RepositoryError::NotFound(String::from_str("User with ID '").concat(u.as_str()).concat("' not found")))
    } else {
        Ok(())
    }
}

// ---------------------------------------------------------------------------
// Sign-in and the profile
// ---------------------------------------------------------------------------

/// How long a sign-in token lasts, in seconds (four hours).
pub const TOKEN_LIFETIME_SECS: u64 = 14400;

/// The user a sign-in or profile request is about must be found:
/// `Error while finding user` when the lookup fails, `User not found` when
/// there is none.
pub fn found_user<T>(r: Result<Option<T>, ()>) -> (out: Result<T, String>)
    ensures
        match r {
            Err(()) => out matches Err(t) && t@ == "Error while finding user"@,
            Ok(None) => out matches Err(t) && t@ == "User not found"@,
            Ok(Some(u)) => out == Ok::<T, String>(u),
        },
{
    match r {
        Err(()) => Err(String::from_str("Error while finding user")),
        Ok(None) => Err(String::from_str("User not found")),
        Ok(Some(u)) => Ok(u),
    }
}

/// The password is accepted when the stored credential verifies, as an
/// HS256 signature under the secret, against the password given:
/// `Error while verifying password` when verifying fails, `Password is
/// incorrect` when it does not match.
pub fn check_password(stored: &str, password: &str, secret: &str) -> (r: Result<(), String>)
    ensures
        match hs256_verified(stored@, password.spec_bytes(), secret.spec_bytes()) {
            Err(()) => r matches Err(t) && t@ == "Error while verifying password"@,
            Ok(false) => r matches Err(t) && t@ == "Password is incorrect"@,
            Ok(true) => r is Ok,
        },
{
    match hs256_verify(stored, password.as_bytes(), secret.as_bytes()) {
        Err(()) => Err(String::from_str("Error while verifying password")),
        Ok(false) => Err(String::from_str("Password is incorrect")),
        Ok(true) => Ok(()),
    }
}

/// The claims of a sign-in token: the user, the role `user`, and the expiry
/// four hours after now.
#[derive(Debug, Clone, PartialEq, Eq)]
pub struct SignInClaims {
    pub sub: u128,
    pub role: String,
    pub exp: u64,
}

/// The claims for a signed-in user: the stored id must denote a UUID
/// (`Invalid UUID format` otherwise), then the current time (`now`, seconds
/// since the epoch, or the error reading it) sets the expiry.
pub fn sign_in_claims(user_id: &Vec<u8>, now: Result<u64, String>) -> (r: Result<SignInClaims, String>)
    requires
        now matches Ok(t) ==> t <= u64::MAX - TOKEN_LIFETIME_SECS,
    ensures
        user_id@.len() != 16 ==> (r matches Err(t) && t@ == "Invalid UUID format"@),
        user_id@.len() == 16 ==> match now {
            Err(m) => r matches Err(t) && t@ == m@,
            Ok(t) => r matches Ok(c) && c.sub == id_of(user_id@) && c.role@ == "user"@ && c.exp
                == t + TOKEN_LIFETIME_SECS,
        },
{
    let sub = match uuid_from_slice(user_id.as_slice()) {
        Ok(v) => v,
        Err(_) => return Err(String::from_str("Invalid UUID format")),
    };
    match now {
        Err(m) => Err(m),
        Ok(t) => Ok(SignInClaims { sub, role: String::from_str("user"), exp: t + TOKEN_LIFETIME_SECS }),
    }
}

/// The token handed back, or `Error while generating token` when encoding
/// the claims failed.
pub fn sign_in_token(encoded: Result<String, ()>) -> (r: Result<String, String>)
    ensures
        match encoded {
            Ok(t) => r == Ok::<String, String>(t),
            Err(()) => r matches Err(t) && t@ == "Error while generating token"@,
        },
{
    match encoded {
        Ok(t) => Ok(t),
        Err(()) => Err(String::from_str("Error while generating token")),
    }
}

/// What `jsonwebtoken::encode` gives, with the default header (HS256) and
/// an HMAC key made from `secret`, for the claims object `sub` (the UUID's
/// hyphenated text), `role` and `exp`: the token, or an error.
pub uninterp spec fn hs256_claims_token(sub: u128, role: Seq<char>, exp: u64, secret: Seq<u8>) -> Result<Seq<char>, ()>;

/// Calls `jsonwebtoken::encode` with `Header::default()` (HS256) and
/// `EncodingKey::from_secret(secret)` on the claims as a JSON object with
/// `sub` (the UUID's hyphenated text), `role` and `exp`. The result is the
/// named `hs256_claims_token` of the claims and the secret.
#[verifier::external_body]
fn encode_claims(claims: &SignInClaims, secret: &str) -> (r: Result<String, ()>)
    ensures
        r is Ok ==> hs256_claims_token(claims.sub, claims.role@, claims.exp, secret.spec_bytes())
            == Ok::<Seq<char>, ()>(r->Ok_0@),
        r is Err ==> hs256_claims_token(claims.sub, claims.role@, claims.exp, secret.spec_bytes()) is Err,
{
    let mut body = serde_json::Map::new();
    body.insert("sub".to_string(), serde_json::Value::String(uuid::Uuid::from_u128(claims.sub).to_string()));
    body.insert("role".to_string(), serde_json::Value::String(claims.role.clone()));
    body.insert("exp".to_string(), serde_json::Value::from(claims.exp));
    let key = jsonwebtoken::EncodingKey::from_secret(secret.as_bytes());
    jsonwebtoken::encode(&jsonwebtoken::Header::default(), &body, &key).map_err(|_| ())
}

/// The answer to a sign-in: the user found by the request's email (`found`:
/// the stored id and password, or the failed lookup), the password checked
/// against the stored credential, then a token for claims that expire four
/// hours after `now` (seconds since the epoch, or the error reading the
/// clock), signed with the secret.
pub open spec fn sign_in_outcome(
    found: Result<Option<(Vec<u8>, String)>, ()>,
    password: Seq<u8>,
    secret: Seq<u8>,
    now: Result<u64, String>,
    r: Result<String, String>,
) -> bool {
    match found {
        Err(()) => r matches Err(t) && t@ == "Error while finding user"@,
        Ok(None) => r matches Err(t) && t@ == "User not found"@,
        Ok(Some((id, stored))) => match hs256_verified(stored@, password, secret) {
            Err(()) => r matches Err(t) && t@ == "Error while verifying password"@,
            Ok(false) => r matches Err(t) && t@ == "Password is incorrect"@,
            Ok(true) => if id@.len() != 16 {
                r matches Err(t) && t@ == "Invalid UUID format"@
            } else {
                match now {
                    Err(m) => r matches Err(t) && t@ == m@,
                    Ok(time) => match hs256_claims_token(
                        id_of(id@),
                        "user"@,
                        (time + TOKEN_LIFETIME_SECS) as u64,
                        secret,
                    ) {
                        Ok(token) => r matches Ok(t) && t@ == token,
                        Err(()) => r matches Err(t) && t@ == "Error while generating token"@,
                    },
                }
            },
        },
    }
}

/// Signs a user in: finds the user, checks the password, and hands back a
/// token for the user's claims.
pub fn sign_in(
    found: Result<Option<(Vec<u8>, String)>, ()>,
    password: &str,
    secret: &str,
    now: Result<u64, String>,
) -> (r: Result<String, String>)
    requires
        now matches Ok(t) ==> t <= u64::MAX - TOKEN_LIFETIME_SECS,
    ensures
        sign_in_outcome(found, password.spec_bytes(), secret.spec_bytes(), now, r),
{
    let user = match found_user(found) {
        Ok(u) => u,
        Err(e) => return Err(e),
    };
    let (id, stored) = user;
    match check_password(stored.as_str(), password, secret) {
        Ok(()) => {},
        Err(e) => return Err(e),
    }
    let claims = match sign_in_claims(&id, now) {
        Ok(c) => c,
        Err(e) => return Err(e),
    };
    proof {
        reveal_strlit("user");
    }
    sign_in_token(encode_claims(&claims, secret))
}

/// Which name the profile looks up.
#[derive(Debug, Clone, Copy, PartialEq, Eq)]
pub enum ProfileName {
    Gender,
    Role,
}

/// A name shown in the profile: the one found, `Unknown` when there is
/// none; a failed lookup is `Error while finding gender` (or `user role`).
pub fn profile_name(what: ProfileName, r: Result<Option<String>, ()>) -> (out: Result<String, String>)
    ensures
        match r {
            Err(()) => out matches Err(t) && t@ == match what {
                ProfileName::Gender => "Error while finding gender"@,
                ProfileName::Role => "Error while finding user role"@,
            },
            Ok(None) => out matches Ok(t) && t@ == "Unknown"@,
            Ok(Some(n)) => out == Ok::<String, String>(n),
        },
{
    match r {
        Err(()) => Err(
            match what {
                ProfileName::Gender => String::from_str("Error while finding gender"),
                ProfileName::Role => String::from_str("Error while finding user role"),
            },
        ),
        Ok(None) => Ok(String::from_str("Unknown")),
        Ok(Some(n)) => Ok(n),
    }
}

/// The id shown in the profile: the stored id's hyphenated rendering, or
/// `Invalid UUID format` when it denotes no UUID.
pub fn profile_id(user_id: &Vec<u8>) -> (r: Result<String, String>)
    ensures
        user_id@.len() == 16 ==> (r matches Ok(t) && t@ == hyphenated_text(id_of(user_id@))),
        user_id@.len() != 16 ==> (r matches Err(t) && t@ == "Invalid UUID format"@),
{
    match uuid_from_slice(user_id.as_slice()) {
        Ok(v) => Ok(uuid_to_string(v)),
        Err(_) => Err(String::from_str("Invalid UUID format")),
    }
}

} // verus!
