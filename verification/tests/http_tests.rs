use light_house::soc::soc_usecase::UsecaseError;
use light_house::http::{
    error_message, error_struct, nil_id_guard, respond, respond_deleted, respond_found, respond_updated, success,
    validation_failed, AuthenticatedUser, Deleted, ErrorResponse, McpAuthenticateUser, Missing,
    NilIdMessage, Outcome, SuccessResponse,
};

const ID: u128 = 0x0011_2233_4455_4677_8899_aabb_ccdd_eeff;

fn s(t: &str) -> String {
    t.to_string()
}

fn token(sub: serde_json::Value, secret: &str) -> String {
    let mut claims = serde_json::Map::new();
    claims.insert("sub".to_string(), sub);
    claims.insert("exp".to_string(), serde_json::Value::from(4_102_444_800u64));
    jsonwebtoken::encode(
        &jsonwebtoken::Header::new(jsonwebtoken::Algorithm::HS512),
        &claims,
        &jsonwebtoken::EncodingKey::from_secret(secret.as_bytes()),
    )
    .unwrap()
}

#[test]
fn bearer_tokens_identify_the_caller() {
    let good = format!("Bearer {}", token(serde_json::Value::from(42), "s3cret"));
    assert_eq!(
        AuthenticatedUser::from_request(Some(&good), Some("s3cret")),
        Outcome::Success(AuthenticatedUser { id: 42 })
    );
    assert_eq!(
        AuthenticatedUser::from_request(Some(&good), Some("other")),
        Outcome::Error(401, s("Invalid token"))
    );
    let not_a_number = format!("Bearer {}", token(serde_json::Value::from("abc"), "s3cret"));
    assert_eq!(
        AuthenticatedUser::from_request(Some(&not_a_number), Some("s3cret")),
        Outcome::Error(401, s("Invalid token"))
    );
    assert_eq!(
        AuthenticatedUser::from_request(Some("Bearer junk"), Some("s3cret")),
        Outcome::Error(401, s("Invalid token"))
    );
    assert_eq!(
        AuthenticatedUser::from_request(Some(&good), None),
        Outcome::Error(500, s("JWT secret not configured"))
    );
    assert_eq!(
        AuthenticatedUser::from_request(Some("Basic good"), Some("s3cret")),
        Outcome::Error(401, s("Authorization header missing or malformed"))
    );
    assert_eq!(
        AuthenticatedUser::from_request(None, Some("s3cret")),
        Outcome::Error(401, s("Authorization header missing or malformed"))
    );
    assert_eq!(AuthenticatedUser::from_decoded(Ok(7)), Outcome::Success(AuthenticatedUser { id: 7 }));
    assert_eq!(AuthenticatedUser::from_decoded(Err(())), Outcome::Error(401, s("Invalid token")));
}

fn lookup(token: &str) -> Result<Option<Vec<u8>>, ()> {
    match token {
        "tok" => Ok(Some(ID.to_be_bytes().to_vec())),
        "short" => Ok(Some(vec![1, 2, 3])),
        "boom" => Err(()),
        _ => Ok(None),
    }
}

#[test]
fn mcp_tokens_identify_the_caller() {
    assert_eq!(
        McpAuthenticateUser::from_request(true, Some("Mcp Token tok"), lookup),
        Outcome::Success(McpAuthenticateUser { user_id: ID })
    );
    assert_eq!(
        McpAuthenticateUser::from_request(false, Some("Mcp Token tok"), lookup),
        Outcome::Error(500, s("Database connection not available"))
    );
    assert_eq!(
        McpAuthenticateUser::from_request(true, None, lookup),
        Outcome::Error(401, s("Authorization header missing"))
    );
    assert_eq!(
        McpAuthenticateUser::from_request(true, Some("Token tok"), lookup),
        Outcome::Error(401, s("Authorization header malformed"))
    );
    assert_eq!(
        McpAuthenticateUser::from_request(true, Some("Mcp Token nobody"), lookup),
        Outcome::Error(401, s("Invalid MCP token"))
    );
    assert_eq!(
        McpAuthenticateUser::from_request(true, Some("Mcp Token boom"), lookup),
        Outcome::Error(500, s("Database query failed"))
    );
    assert_eq!(
        McpAuthenticateUser::from_request(true, Some("Mcp Token short"), lookup),
        Outcome::Error(500, s("Failed to parse user ID"))
    );
}

#[test]
fn the_response_envelope() {
    assert_eq!(success(201, 5u8), Ok(SuccessResponse(201, 5)));
    assert_eq!(error_message(404, s("no")), Err(ErrorResponse(404, s("no"))));
    assert_eq!(error_struct(400, vec![1u8]), Err(ErrorResponse(400, vec![1])));
}

#[test]
fn nil_ids_are_refused() {
    assert_eq!(nil_id_guard(ID, NilIdMessage::InvalidAssetId), None);
    assert_eq!(
        nil_id_guard(0, NilIdMessage::InvalidAssetId),
        Some(ErrorResponse(400, s("Invalid asset ID")))
    );
    assert_eq!(
        nil_id_guard(0, NilIdMessage::TransactionIdEmpty),
        Some(ErrorResponse(400, s("Validation errors: \"transaction id is empty\"")))
    );
    assert_eq!(
        nil_id_guard(0, NilIdMessage::IdEmpty),
        Some(ErrorResponse(400, s("Validation errors: \"Id is empty\"")))
    );
    assert_eq!(validation_failed("name: too short"), ErrorResponse(400, s("Validation errors: name: too short")));
}

#[test]
fn outcomes_become_responses() {
    assert_eq!(respond(201, Ok::<u8, String>(1)), Ok(SuccessResponse(201, 1)));
    assert_eq!(respond::<u8>(200, Err(s("bad"))), Err(ErrorResponse(500, s("bad"))));
    assert_eq!(respond_found(Missing::Asset, Ok(Some(3u8))), Ok(SuccessResponse(200, 3)));
    assert_eq!(
        respond_found::<u8>(Missing::ExpenseType, Ok(None)),
        Err(ErrorResponse(404, s("Expense type not found")))
    );
    assert_eq!(respond_found::<u8>(Missing::Income, Err(s("e"))), Err(ErrorResponse(500, s("e"))));
}

#[test]
fn deletions_report_the_id() {
    let h = uuid::Uuid::from_u128(ID).to_string();
    assert_eq!(
        respond_deleted(Deleted::Payment, ID, Ok(())),
        Ok(SuccessResponse(204, format!("Payment with ID: {} deleted successfully", h)))
    );
    assert_eq!(
        respond_deleted(Deleted::AssetType, ID, Ok(())),
        Ok(SuccessResponse(200, format!("Asset type with id {} deleted successfully", h)))
    );
    assert_eq!(
        respond_deleted(Deleted::ContactType, ID, Ok(())),
        Ok(SuccessResponse(200, format!("Contact type with ID {} deleted", h)))
    );
    assert_eq!(
        respond_deleted(Deleted::Asset, ID, Err(UsecaseError::Unexpected(s("x")))),
        Err(ErrorResponse(500, s("An unexpected error occurred: x")))
    );
    assert_eq!(
        respond_deleted(Deleted::Income, ID, Err(UsecaseError::ResourceNotFound(s("gone")))),
        Err(ErrorResponse(404, s("Resource not found: gone")))
    );
}

#[test]
fn changes_answer_404_for_a_missing_entry() {
    assert_eq!(respond_updated(Ok::<u8, UsecaseError>(3)), Ok(SuccessResponse(200, 3)));
    assert_eq!(
        respond_updated::<u8>(Err(UsecaseError::ResourceNotFound(s("Transaction x not found")))),
        Err(ErrorResponse(404, s("Resource not found: Transaction x not found")))
    );
    assert_eq!(
        respond_updated::<u8>(Err(UsecaseError::Conflict(s("dup")))),
        Err(ErrorResponse(500, s("Operation conflict: dup")))
    );
}

#[test]
fn mcp_identification_in_two_steps() {
    assert_eq!(McpAuthenticateUser::token_to_look_up(true, Some("Mcp Token abc")), Ok("abc"));
    assert_eq!(
        McpAuthenticateUser::token_to_look_up(false, Some("Mcp Token abc")),
        Err(Outcome::Error(500, s("Database connection not available")))
    );
    assert_eq!(
        McpAuthenticateUser::token_to_look_up(true, None),
        Err(Outcome::Error(401, s("Authorization header missing")))
    );
    assert_eq!(
        McpAuthenticateUser::token_to_look_up(true, Some("Bearer abc")),
        Err(Outcome::Error(401, s("Authorization header malformed")))
    );
    assert_eq!(
        McpAuthenticateUser::from_lookup(Ok(Some(ID.to_be_bytes().to_vec()))),
        Outcome::Success(McpAuthenticateUser { user_id: ID })
    );
    assert_eq!(McpAuthenticateUser::from_lookup(Ok(None)), Outcome::Error(401, s("Invalid MCP token")));
    assert_eq!(McpAuthenticateUser::from_lookup(Err(())), Outcome::Error(500, s("Database query failed")));
    assert_eq!(
        McpAuthenticateUser::from_lookup(Ok(Some(vec![7]))),
        Outcome::Error(500, s("Failed to parse user ID"))
    );
}
