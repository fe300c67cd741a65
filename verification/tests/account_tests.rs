use jsonwebtoken::{Algorithm, EncodingKey};
use light_house::account::{
    check_password, default_role, found_user, mcp_token_owner, prepare_mcp_token, prepare_password,
    profile_id, profile_name, revoked_role_held, role_admin_check, role_rows_updated_check,
    role_to_assign, sign_in, fresh_mcp_token_hash, sign_in_claims, signup_user, NewUser, sign_in_token, signup_gender, signup_role, user_changes,
    user_missing, user_rows_deleted_check, ProfileName, RoleChange, SignInClaims, TOKEN_LIFETIME_SECS,
};
use light_house::soc::soc_repository::RepositoryError;

const USER: u128 = 0x9a3b_0f12_0000_4abc_8def_0123_4567_89ab;

fn hyphenated(v: u128) -> String {
    uuid::Uuid::from_u128(v).to_string()
}

fn s(t: &str) -> String {
    t.to_string()
}

#[test]
fn passwords_and_tokens_are_stored_as_bcrypt_hashes() {
    let h = prepare_password("correct horse").unwrap();
    assert_eq!(h.len(), 60);
    assert!(h.starts_with("$2b$12$"));
    assert_ne!(h, "correct horse");
    assert!(bcrypt::verify("correct horse", &h).unwrap());
}

#[test]
fn mcp_tokens_are_stored_as_bcrypt_hashes() {
    let t = prepare_mcp_token("mcp-token").unwrap();
    assert_eq!(t.len(), 60);
    assert!(t.starts_with("$2b$12$"));
}

#[test]
fn a_password_is_checked_against_its_hs256_signature() {
    let stored = jsonwebtoken::crypto::sign(b"hunter2", &EncodingKey::from_secret(b"k3y"), Algorithm::HS256)
        .unwrap();
    assert_eq!(check_password(&stored, "hunter2", "k3y"), Ok(()));
    assert_eq!(check_password(&stored, "hunter3", "k3y"), Err(s("Password is incorrect")));
    assert_eq!(check_password(&stored, "hunter2", "other"), Err(s("Password is incorrect")));
}

#[test]
fn sign_in_claims_expire_after_four_hours() {
    let id = USER.to_be_bytes().to_vec();
    assert_eq!(
        sign_in_claims(&id, Ok(1_700_000_000)),
        Ok(SignInClaims { sub: USER, role: s("user"), exp: 1_700_000_000 + 14400 })
    );
    assert_eq!(TOKEN_LIFETIME_SECS, 4 * 60 * 60);
    assert_eq!(sign_in_claims(&id, Err(s("clock"))), Err(s("clock")));
    assert_eq!(sign_in_claims(&vec![1, 2], Ok(0)), Err(s("Invalid UUID format")));
}

#[test]
fn sign_in_results() {
    assert_eq!(sign_in_token(Ok(s("jwt"))), Ok(s("jwt")));
    assert_eq!(sign_in_token(Err(())), Err(s("Error while generating token")));
    assert_eq!(found_user::<u8>(Err(())), Err(s("Error while finding user")));
    assert_eq!(found_user::<u8>(Ok(None)), Err(s("User not found")));
    assert_eq!(found_user(Ok(Some(7u8))), Ok(7));
}

#[test]
fn the_profile_shows_names_and_the_id() {
    assert_eq!(profile_name(ProfileName::Gender, Err(())), Err(s("Error while finding gender")));
    assert_eq!(profile_name(ProfileName::Role, Err(())), Err(s("Error while finding user role")));
    assert_eq!(profile_name(ProfileName::Role, Ok(None)), Ok(s("Unknown")));
    assert_eq!(profile_name(ProfileName::Gender, Ok(Some(s("female")))), Ok(s("female")));
    assert_eq!(profile_id(&USER.to_be_bytes().to_vec()), Ok(s("9a3b0f12-0000-4abc-8def-0123456789ab")));
    assert_eq!(profile_id(&vec![0; 15]), Err(s("Invalid UUID format")));
}

#[test]
fn sign_up_needs_gender_and_role() {
    assert_eq!(signup_gender("male", Some(3)), Ok(3));
    assert_eq!(
        signup_gender::<u8>("other", None),
        Err(RepositoryError::InvalidInput(s("Gender 'other' not found")))
    );
    assert_eq!(signup_role(Some(1)), Ok(1));
    assert_eq!(signup_role::<u8>(None), Err(RepositoryError::InvalidInput(s("Role 'user' not found"))));
}

#[test]
fn missing_users_are_named() {
    let text = format!("User with ID {} not found", hyphenated(USER));
    assert_eq!(user_missing(USER), RepositoryError::NotFound(text.clone()));
    assert_eq!(user_rows_deleted_check(0, USER), Err(RepositoryError::NotFound(text)));
    assert_eq!(user_rows_deleted_check(1, USER), Ok(()));
}

#[test]
fn profile_changes_skip_empty_fields() {
    let c = user_changes(Some(s("neo")), Some(s("")), None, Some(s("Anderson")), Some(s(""))).unwrap();
    assert_eq!(c.username, Some(s("neo")));
    assert_eq!(c.email, None);
    assert_eq!(c.first_name, None);
    assert_eq!(c.last_name, Some(s("Anderson")));
    assert_eq!(c.password_hash, None);
    let c = user_changes(None, None, None, None, Some(s("pw"))).unwrap();
    let h = c.password_hash.unwrap();
    assert_eq!(h.len(), 60);
    assert!(h.starts_with("$2b$12$"));
}

#[test]
fn mcp_tokens_must_match_a_user() {
    assert_eq!(mcp_token_owner("t", Some(5)), Ok(5));
    assert_eq!(
        mcp_token_owner::<u8>("abc", None),
        Err(RepositoryError::NotFound(s("User with MCP token 'abc' not found")))
    );
}

#[test]
fn only_admins_change_roles() {
    assert_eq!(role_admin_check(Ok(true), RoleChange::Assign), Ok(()));
    assert_eq!(
        role_admin_check(Ok(false), RoleChange::Assign),
        Err(RepositoryError::PermissionDenied(s("Only admins can assign roles")))
    );
    assert_eq!(
        role_admin_check(Ok(false), RoleChange::Revoke),
        Err(RepositoryError::PermissionDenied(s("Only admins can revoke roles")))
    );
    let e = RepositoryError::DatabaseError(s("x"));
    assert_eq!(role_admin_check(Err(e.clone()), RoleChange::Revoke), Err(e));
}

#[test]
fn role_changes_need_roles_and_users() {
    assert_eq!(role_to_assign("admin", Some(2)), Ok(2));
    assert_eq!(role_to_assign::<u8>("boss", None), Err(RepositoryError::NotFound(s("Role 'boss' not found"))));
    assert_eq!(default_role::<u8>(None), Err(RepositoryError::NotFound(s("Default role 'user' not found"))));
    assert_eq!(revoked_role_held(Ok(true), USER, "admin"), Ok(()));
    assert_eq!(
        revoked_role_held(Ok(false), USER, "admin"),
        Err(RepositoryError::NotFound(format!(
            "User with ID '{}' does not have the role 'admin'",
            hyphenated(USER)
        )))
    );
    assert_eq!(
        role_rows_updated_check(0, USER),
        Err(RepositoryError::NotFound(format!("User with ID '{}' not found", hyphenated(USER))))
    );
    assert_eq!(role_rows_updated_check(2, USER), Ok(()));
}

#[test]
fn the_sign_up_record_carries_the_request() {
    let u = signup_user(USER, s("neo"), s("neo@x.io"), s("$2b$12$hash"), s("Thomas"), s("Anderson"), 3u8, 1u8, s("tok"));
    assert_eq!(
        u,
        NewUser {
            id: USER,
            username: s("neo"),
            email: s("neo@x.io"),
            password_hash: s("$2b$12$hash"),
            first_name: s("Thomas"),
            last_name: s("Anderson"),
            gender: 3,
            role: 1,
            mcp_token: s("tok"),
        }
    );
}

#[test]
fn an_mcp_token_hash_verifies_against_the_token() {
    let t = prepare_mcp_token("tok-123").unwrap();
    assert!(bcrypt::verify("tok-123", &t).unwrap());
}

fn claims_token(sub: u128, exp: u64, secret: &str) -> String {
    let mut body = serde_json::Map::new();
    body.insert("sub".to_string(), serde_json::Value::String(hyphenated(sub)));
    body.insert("role".to_string(), serde_json::Value::String(s("user")));
    body.insert("exp".to_string(), serde_json::Value::from(exp));
    jsonwebtoken::encode(&jsonwebtoken::Header::default(), &body, &EncodingKey::from_secret(secret.as_bytes()))
        .unwrap()
}

#[test]
fn signing_in_hands_back_a_token_for_the_users_claims() {
    let stored = jsonwebtoken::crypto::sign(b"pw", &EncodingKey::from_secret(b"k"), Algorithm::HS256).unwrap();
    let id = USER.to_be_bytes().to_vec();
    let t = sign_in(Ok(Some((id.clone(), stored.clone()))), "pw", "k", Ok(1000)).unwrap();
    assert_eq!(t, claims_token(USER, 1000 + 14400, "k"));
    assert_ne!(t, claims_token(USER, 1000, "k"));
    assert_eq!(sign_in(Err(()), "pw", "k", Ok(1000)), Err(s("Error while finding user")));
    assert_eq!(sign_in(Ok(None), "pw", "k", Ok(1000)), Err(s("User not found")));
    assert_eq!(
        sign_in(Ok(Some((id.clone(), stored.clone()))), "nope", "k", Ok(1000)),
        Err(s("Password is incorrect"))
    );
    assert_eq!(
        sign_in(Ok(Some((vec![1, 2], stored.clone()))), "pw", "k", Ok(1000)),
        Err(s("Invalid UUID format"))
    );
    assert_eq!(sign_in(Ok(Some((id, stored))), "pw", "k", Err(s("clock"))), Err(s("clock")));
}

#[test]
fn a_fresh_mcp_token_is_stored_hashed() {
    let h = fresh_mcp_token_hash().unwrap();
    assert_eq!(h.len(), 60);
    assert!(h.starts_with("$2b$12$"));
}
