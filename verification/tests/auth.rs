use bearer_auth::AccessToken;
use bearer_auth::DecodeError;
use bearer_auth::Decoder;
use bearer_auth::GuardError;
use bearer_auth::KeyMaterial;
use bearer_auth::Permission;
use bearer_auth::access_token_from_header;
use bearer_auth::admin_user_from_header;
use bearer_auth::authorized_user_from_header;
use bearer_auth::bearer_token;
use bearer_auth::get_me;

const SECRET: &[u8] = b"test-shared-secret";
const OTHER_SECRET: &[u8] = b"another-secret";
const AUD: &str = "outerspace.silenlocatelli.com";
const USER_ID: &str = "6c2f4b8e-9f10-4c5a-8b4e-2d1a3f5b7c9d";
const FAR_FUTURE_EXP: u64 = 4102444800;

fn claims_value(
    user_id: Option<&str>,
    email: Option<&str>,
    permissions: Option<&[&str]>,
    aud: &str,
) -> serde_json::Value {
    let mut map = serde_json::Map::new();
    if let Some(id) = user_id {
        map.insert("user_id".to_string(), serde_json::Value::String(id.to_string()));
    }
    if let Some(e) = email {
        map.insert("email".to_string(), serde_json::Value::String(e.to_string()));
    }
    if let Some(perms) = permissions {
        let items: Vec<serde_json::Value> =
            perms.iter().map(|p| serde_json::Value::String(p.to_string())).collect();
        map.insert("permissions".to_string(), serde_json::Value::Array(items));
    }
    map.insert("aud".to_string(), serde_json::Value::String(aud.to_string()));
    map.insert(
        "exp".to_string(),
        serde_json::Value::Number(serde_json::Number::from(FAR_FUTURE_EXP)),
    );
    map.insert(
        "tax_platform_apps".to_string(),
        serde_json::Value::String("platform".to_string()),
    );
    map.insert("extra_field".to_string(), serde_json::Value::String("ignored".to_string()));
    serde_json::Value::Object(map)
}

fn sign(secret: &[u8], kid: Option<&str>, claims: &serde_json::Value) -> String {
    let mut header = jsonwebtoken::Header::new(jsonwebtoken::Algorithm::HS256);
    header.kid = kid.map(String::from);
    jsonwebtoken::encode(&header, claims, &jsonwebtoken::EncodingKey::from_secret(secret))
        .expect("token signing failed")
}

fn single_material() -> KeyMaterial {
    KeyMaterial::Single(Decoder::hs256(SECRET, AUD))
}

fn multiple_material(kids: &[&str]) -> KeyMaterial {
    let entries =
        kids.iter().map(|k| (k.to_string(), Decoder::hs256(SECRET, AUD))).collect();
    KeyMaterial::Multiple(entries)
}

fn expected_user_id() -> u128 {
    uuid::Uuid::parse_str(USER_ID).unwrap().as_u128()
}

#[test]
fn single_decodes_valid_token() {
    let claims = claims_value(Some(USER_ID), Some("a@b.example"), Some(&["admin"]), AUD);
    let token = sign(SECRET, None, &claims);
    let decoded = single_material().decode(&token).expect("decode failed");
    assert_eq!(decoded.user_id, expected_user_id());
    assert_eq!(decoded.email.as_deref(), Some("a@b.example"));
    assert_eq!(decoded.permissions, vec![Permission::Admin]);
}

#[test]
fn multiple_with_matching_kid_decodes() {
    let claims = claims_value(Some(USER_ID), None, Some(&["admin"]), AUD);
    let token = sign(SECRET, Some("key-1"), &claims);
    let material = multiple_material(&["key-0", "key-1"]);
    let decoded = material.decode(&token).expect("decode failed");
    assert_eq!(decoded.user_id, expected_user_id());
    assert_eq!(decoded.email, None);
    assert_eq!(decoded.permissions, vec![Permission::Admin]);
}

#[test]
fn multiple_rejects_unknown_kid_despite_valid_signature() {
    let claims = claims_value(Some(USER_ID), None, None, AUD);
    let token = sign(SECRET, Some("unlisted"), &claims);
    let material = multiple_material(&["key-0", "key-1"]);
    assert_eq!(material.decode(&token).unwrap_err(), DecodeError::UnknownKey);
}

#[test]
fn multiple_rejects_token_without_kid() {
    let claims = claims_value(Some(USER_ID), None, None, AUD);
    let token = sign(SECRET, None, &claims);
    let material = multiple_material(&["key-0"]);
    assert_eq!(material.decode(&token).unwrap_err(), DecodeError::UnknownKey);
}

#[test]
fn single_ignores_embedded_kid() {
    let claims = claims_value(Some(USER_ID), None, None, AUD);
    let token = sign(SECRET, Some("some-unknown-kid"), &claims);
    let decoded = single_material().decode(&token).expect("decode failed");
    assert_eq!(decoded.user_id, expected_user_id());
}

#[test]
fn decode_is_idempotent() {
    let claims = claims_value(Some(USER_ID), Some("x@y.example"), Some(&["admin"]), AUD);
    let token = sign(SECRET, None, &claims);
    let material = single_material();
    let first = material.decode(&token).expect("decode failed");
    let second = material.decode(&token).expect("decode failed");
    assert_eq!(first.user_id, second.user_id);
    assert_eq!(first.email, second.email);
    assert_eq!(first.permissions, second.permissions);
}

#[test]
fn bad_signature_rejected() {
    let claims = claims_value(Some(USER_ID), None, None, AUD);
    let token = sign(OTHER_SECRET, None, &claims);
    assert_eq!(
        single_material().decode(&token).unwrap_err(),
        DecodeError::InvalidSignatureOrClaims
    );
}

#[test]
fn wrong_audience_rejected() {
    let claims = claims_value(Some(USER_ID), None, None, "someone-else");
    let token = sign(SECRET, None, &claims);
    assert_eq!(
        single_material().decode(&token).unwrap_err(),
        DecodeError::InvalidSignatureOrClaims
    );
}

#[test]
fn missing_required_claim_rejected() {
    let mut claims = claims_value(Some(USER_ID), None, Some(&["admin"]), AUD);
    claims.as_object_mut().unwrap().remove("tax_platform_apps");
    let token = sign(SECRET, None, &claims);
    assert_eq!(
        single_material().decode(&token).unwrap_err(),
        DecodeError::InvalidSignatureOrClaims
    );
}

#[test]
fn missing_audience_claim_rejected() {
    let mut claims = claims_value(Some(USER_ID), None, None, AUD);
    claims.as_object_mut().unwrap().remove("aud");
    let token = sign(SECRET, None, &claims);
    assert_eq!(
        single_material().decode(&token).unwrap_err(),
        DecodeError::InvalidSignatureOrClaims
    );
}

#[test]
fn wrong_typed_email_member_rejected() {
    let mut claims = claims_value(Some(USER_ID), None, None, AUD);
    claims.as_object_mut().unwrap().insert(
        "email".to_string(),
        serde_json::Value::Number(serde_json::Number::from(5u64)),
    );
    let token = sign(SECRET, None, &claims);
    assert_eq!(
        single_material().decode(&token).unwrap_err(),
        DecodeError::InvalidSignatureOrClaims
    );
}

#[test]
fn wrong_typed_permissions_member_rejected() {
    let mut claims = claims_value(Some(USER_ID), None, None, AUD);
    claims.as_object_mut().unwrap().insert(
        "permissions".to_string(),
        serde_json::Value::String("admin".to_string()),
    );
    let token = sign(SECRET, None, &claims);
    assert_eq!(
        single_material().decode(&token).unwrap_err(),
        DecodeError::InvalidSignatureOrClaims
    );
}

#[test]
fn duplicate_kid_uses_last_entry() {
    let claims = claims_value(Some(USER_ID), None, None, AUD);
    let token = sign(OTHER_SECRET, Some("dup"), &claims);
    // Two entries share the identifier; the later one holds the key the
    // token was signed with, as in a mapping filled in entry order.
    let entries = vec![
        ("dup".to_string(), Decoder::hs256(SECRET, AUD)),
        ("dup".to_string(), Decoder::hs256(OTHER_SECRET, AUD)),
    ];
    let material = KeyMaterial::Multiple(entries);
    let decoded = material.decode(&token).expect("decode failed");
    assert_eq!(decoded.user_id, expected_user_id());
}

#[test]
fn missing_user_id_rejected() {
    let claims = claims_value(None, None, Some(&["admin"]), AUD);
    let token = sign(SECRET, None, &claims);
    assert_eq!(
        single_material().decode(&token).unwrap_err(),
        DecodeError::InvalidSignatureOrClaims
    );
}

#[test]
fn garbage_token_malformed() {
    assert_eq!(
        single_material().decode("not-a-token").unwrap_err(),
        DecodeError::Malformed
    );
}

#[test]
fn missing_permissions_field_decodes_empty() {
    let claims = claims_value(Some(USER_ID), None, None, AUD);
    let token = sign(SECRET, None, &claims);
    let decoded = single_material().decode(&token).expect("decode failed");
    assert_eq!(decoded.permissions, Vec::<Permission>::new());
    let denial = decoded.to_admin().unwrap_err();
    assert_eq!(denial.0, "user has only: []");
}

#[test]
fn unknown_permission_names_not_granted() {
    let claims =
        claims_value(Some(USER_ID), None, Some(&["superuser", "admin", "owner"]), AUD);
    let token = sign(SECRET, None, &claims);
    let decoded = single_material().decode(&token).expect("decode failed");
    assert_eq!(decoded.permissions, vec![Permission::Admin]);

    let claims = claims_value(Some(USER_ID), None, Some(&["superuser"]), AUD);
    let token = sign(SECRET, None, &claims);
    let decoded = single_material().decode(&token).expect("decode failed");
    assert!(decoded.to_admin().is_err());
}

#[test]
fn to_admin_round_trip() {
    let claims = claims_value(Some(USER_ID), None, Some(&["admin"]), AUD);
    let token = sign(SECRET, None, &claims);
    let decoded = single_material().decode(&token).expect("decode failed");
    assert!(decoded.to_admin().is_ok());

    let claims = claims_value(Some(USER_ID), None, Some(&[]), AUD);
    let token = sign(SECRET, None, &claims);
    let decoded = single_material().decode(&token).expect("decode failed");
    let denial = decoded.to_admin().unwrap_err();
    assert_eq!(denial.0, "user has only: []");
}

#[test]
fn require_permission_checks_membership() {
    let token = AccessToken {
        email: None,
        user_id: 7,
        permissions: vec![Permission::Admin],
    };
    assert!(token.require_permission(Permission::Admin).is_ok());

    let token = AccessToken { email: None, user_id: 7, permissions: vec![] };
    let denial = token.require_permission(Permission::Admin).unwrap_err();
    assert_eq!(denial.0, "user has only: []");
}

#[test]
fn bearer_token_extraction() {
    assert_eq!(bearer_token("Bearer abc.def.ghi"), Some("abc.def.ghi"));
    assert_eq!(bearer_token("Bearer "), Some(""));
    assert_eq!(bearer_token("bearer abc"), None);
    assert_eq!(bearer_token("Bearerabc"), None);
    assert_eq!(bearer_token("Basic abc"), None);
    assert_eq!(bearer_token(""), None);
}

#[test]
fn guards_reject_missing_header() {
    let material = single_material();
    assert_eq!(
        access_token_from_header(&material, None).unwrap_err(),
        GuardError::Unauthorized
    );
    assert_eq!(
        authorized_user_from_header(&material, None).unwrap_err(),
        GuardError::Unauthorized
    );
    assert_eq!(
        admin_user_from_header(&material, None).unwrap_err(),
        GuardError::Unauthorized
    );
}

#[test]
fn guards_reject_header_without_bearer_prefix() {
    let material = single_material();
    assert_eq!(
        authorized_user_from_header(&material, Some("Token abc")).unwrap_err(),
        GuardError::Unauthorized
    );
    assert_eq!(
        admin_user_from_header(&material, Some("Token abc")).unwrap_err(),
        GuardError::Unauthorized
    );
}

#[test]
fn authenticated_but_not_admin() {
    let claims = claims_value(Some(USER_ID), None, None, AUD);
    let token = sign(SECRET, None, &claims);
    let header = format!("Bearer {token}");
    let material = single_material();

    let user = authorized_user_from_header(&material, Some(&header)).expect("guard failed");
    assert_eq!(user.id, expected_user_id());
    let me = get_me(user);
    assert_eq!(me.id, expected_user_id());

    assert_eq!(
        admin_user_from_header(&material, Some(&header)).unwrap_err(),
        GuardError::Forbidden
    );
}

#[test]
fn admin_guard_accepts_admin_token() {
    let claims = claims_value(Some(USER_ID), None, Some(&["admin"]), AUD);
    let token = sign(SECRET, None, &claims);
    let header = format!("Bearer {token}");
    let material = single_material();
    assert!(admin_user_from_header(&material, Some(&header)).is_ok());
}

#[test]
fn invalid_token_is_unauthorized_at_guard() {
    let material = single_material();
    assert_eq!(
        access_token_from_header(&material, Some("Bearer junk")).unwrap_err(),
        GuardError::Unauthorized
    );
}
