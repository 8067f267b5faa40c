use ai_web_assistant::auth::{
    bearer_token, decode_token, decode_token_at, is_expired, judge, token_in_frame, token_in_query,
    token_in_value, AdminUser, AuthError, AuthUser, Claims, Denial, HandshakeFault, Rejection,
    TokenFault, WsAuth,
};
use ai_web_assistant::time::Timestamp;
use ai_web_assistant::json::Json;
use ai_web_assistant::payloads::Frame;
use jsonwebtoken::{encode, EncodingKey, Header};
use serde_json::Value;
use std::time::{SystemTime, UNIX_EPOCH};

const SECRET: &[u8] = b"test-secret";

fn now_secs() -> u64 {
    SystemTime::now().duration_since(UNIX_EPOCH).unwrap().as_secs()
}

fn claims_value(sub: i64, exp: u64, admin: bool) -> Value {
    let mut claims = serde_json::Map::new();
    claims.insert("sub".to_string(), Value::from(sub));
    claims.insert("email".to_string(), Value::from("user@example.com"));
    claims.insert("roles".to_string(), Value::from(vec!["USER"]));
    claims.insert("is_admin".to_string(), Value::from(admin));
    claims.insert("is_user".to_string(), Value::from(true));
    claims.insert("exp".to_string(), Value::from(exp));
    Value::Object(claims)
}

fn token_for(claims: &Value, secret: &[u8]) -> String {
    encode(&Header::default(), claims, &EncodingKey::from_secret(secret)).unwrap()
}

fn valid_token(sub: i64) -> String {
    token_for(&claims_value(sub, now_secs() + 3600, false), SECRET)
}

#[test]
fn a_valid_token_gives_its_identity() {
    let exp = now_secs() + 3600;
    let token = token_for(&claims_value(42, exp, true), SECRET);
    let claims = decode_token(&token, Some(SECRET)).unwrap();
    assert_eq!(claims.sub, 42);
    assert_eq!(claims.email, "user@example.com");
    assert_eq!(claims.roles, vec!["USER".to_string()]);
    assert!(claims.is_admin);
    assert!(claims.is_user);
    assert_eq!(claims.exp as u64, exp);
}

#[test]
fn an_expired_token_is_refused_as_expired() {
    let token = token_for(&claims_value(42, now_secs() - 3600, false), SECRET);
    assert_eq!(decode_token(&token, Some(SECRET)).unwrap_err(), AuthError::Expired);
    let r = WsAuth::validate_token(&token, Some(SECRET)).unwrap_err();
    assert_eq!(r.status, 401);
    assert_eq!(r.message, "Token expired");
    assert_eq!(r.code, "token_expired");
}

#[test]
fn a_token_signed_with_another_secret_is_refused() {
    let token = token_for(&claims_value(42, now_secs() + 3600, false), b"another-secret");
    assert_eq!(decode_token(&token, Some(SECRET)).unwrap_err(), AuthError::InvalidSignature);
    let r = WsAuth::validate_token(&token, Some(SECRET)).unwrap_err();
    assert_eq!((r.status, r.message.as_str(), r.code.as_str()), (401, "Invalid signature", "signature_invalid"));
}

#[test]
fn what_is_no_token_is_refused_as_malformed() {
    for token in ["", "abc", "a.b", "a.b.c", "not a token at all"] {
        assert_eq!(decode_token(token, Some(SECRET)).unwrap_err(), AuthError::Malformed, "{}", token);
    }
    let r = WsAuth::validate_token("abc", Some(SECRET)).unwrap_err();
    assert_eq!((r.status, r.message.as_str(), r.code.as_str()), (401, "Invalid token", "token_malformed"));
}

#[test]
fn a_token_whose_claims_hold_no_identity_is_malformed() {
    let mut claims = serde_json::Map::new();
    claims.insert("sub".to_string(), Value::from(1));
    claims.insert("exp".to_string(), Value::from(now_secs() + 3600));
    let token = token_for(&Value::Object(claims), SECRET);
    assert_eq!(decode_token(&token, Some(SECRET)).unwrap_err(), AuthError::Malformed);
}

#[test]
fn without_a_secret_every_token_fails_internally() {
    let token = valid_token(1);
    assert_eq!(decode_token(&token, None).unwrap_err(), AuthError::Internal);
    let r = WsAuth::validate_token(&token, None).unwrap_err();
    assert_eq!((r.status, r.message.as_str(), r.code.as_str()), (500, "Internal auth error", "internal_error"));
}

#[test]
fn errors_have_distinct_codes() {
    let all = [
        AuthError::Missing,
        AuthError::Expired,
        AuthError::Malformed,
        AuthError::InvalidSignature,
        AuthError::Internal,
    ];
    for (i, a) in all.iter().enumerate() {
        for (j, b) in all.iter().enumerate() {
            assert_eq!(a.code() == b.code(), i == j);
        }
    }
    assert_eq!(AuthError::Missing.status(), 400);
    assert_eq!(AuthError::Missing.message(), "Missing token");
    assert_eq!(AuthError::Missing.code(), "token_missing");
    assert_eq!(AuthError::Expired.status(), 401);
    assert_eq!(AuthError::Malformed.status(), 401);
    assert_eq!(AuthError::InvalidSignature.status(), 401);
    assert_eq!(AuthError::Internal.status(), 500);
}

#[test]
fn the_check_of_a_token_is_judged() {
    let good = Json::parse(
        "{\"sub\": -3, \"email\": \"e\", \"roles\": [], \"is_admin\": false, \"is_user\": true, \"exp\": 9}",
    )
    .unwrap();
    let text = "{\"sub\": -3, \"email\": \"e\", \"roles\": [], \"is_admin\": false, \"is_user\": true, \"exp\": 9}";
    let at = Timestamp::new(9, 0);
    let claims = judge(Ok(good), at).unwrap();
    assert_eq!(claims.sub, -3);
    assert!(claims.roles.is_empty());
    assert_eq!(claims.exp, 9);
    // A token is taken for sixty seconds behind its expiry, and no longer.
    assert!(judge(Ok(Json::parse(text).unwrap()), Timestamp::new(69, 999)).is_ok());
    assert_eq!(judge(Ok(Json::parse(text).unwrap()), Timestamp::new(70, 0)).unwrap_err(), AuthError::Expired);
    assert!(judge(Ok(Json::parse(text).unwrap()), Timestamp::new(-5, 0)).is_ok());
    assert!(!is_expired(9, Timestamp::new(69, 0)));
    assert!(is_expired(9, Timestamp::new(70, 0)));
    assert!(!is_expired(usize::MAX, Timestamp::new(i64::MAX, 0)));
    assert_eq!(judge(Ok(Json::parse("{}").unwrap()), at).unwrap_err(), AuthError::Malformed);
    assert_eq!(judge(Err(TokenFault::InvalidSignature), at).unwrap_err(), AuthError::InvalidSignature);
    assert_eq!(judge(Err(TokenFault::InvalidToken), at).unwrap_err(), AuthError::Malformed);
    assert_eq!(judge(Err(TokenFault::Other), at).unwrap_err(), AuthError::Malformed);
}

#[test]
fn claims_need_every_member_of_the_right_kind() {
    let full = "{\"sub\": 1, \"email\": \"e\", \"roles\": [\"A\", \"B\"], \"is_admin\": true, \"is_user\": false, \"exp\": 5, \"iat\": 1}";
    let claims = Claims::from_json(&Json::parse(full).unwrap()).unwrap();
    assert_eq!(claims.roles, vec!["A".to_string(), "B".to_string()]);
    assert!(claims.is_admin);
    assert!(!claims.is_user);
    let copy = claims.clone();
    assert_eq!(copy.roles, claims.roles);
    assert_eq!(copy.email, claims.email);
    for broken in [
        "{\"email\": \"e\", \"roles\": [], \"is_admin\": true, \"is_user\": false, \"exp\": 5}",
        "{\"sub\": \"1\", \"email\": \"e\", \"roles\": [], \"is_admin\": true, \"is_user\": false, \"exp\": 5}",
        "{\"sub\": 1, \"email\": 2, \"roles\": [], \"is_admin\": true, \"is_user\": false, \"exp\": 5}",
        "{\"sub\": 1, \"email\": \"e\", \"roles\": [1], \"is_admin\": true, \"is_user\": false, \"exp\": 5}",
        "{\"sub\": 1, \"email\": \"e\", \"roles\": \"A\", \"is_admin\": true, \"is_user\": false, \"exp\": 5}",
        "{\"sub\": 1, \"email\": \"e\", \"roles\": [], \"is_admin\": 1, \"is_user\": false, \"exp\": 5}",
        "{\"sub\": 1, \"email\": \"e\", \"roles\": [], \"is_admin\": true, \"exp\": 5}",
        "{\"sub\": 1, \"email\": \"e\", \"roles\": [], \"is_admin\": true, \"is_user\": false, \"exp\": -5}",
        "{\"sub\": 1, \"email\": \"e\", \"roles\": [], \"is_admin\": true, \"is_user\": false}",
    ] {
        assert!(Claims::from_json(&Json::parse(broken).unwrap()).is_none(), "{}", broken);
    }
}

#[test]
fn the_token_is_found_in_a_query() {
    assert_eq!(token_in_query("token=abc").as_deref(), Some("abc"));
    assert_eq!(token_in_query("a=1&token=abc&b=2").as_deref(), Some("abc"));
    assert_eq!(token_in_query("token=first&token=second").as_deref(), Some("first"));
    assert_eq!(token_in_query("token=a=b").as_deref(), Some("a"));
    assert_eq!(token_in_query("token=").as_deref(), Some(""));
    assert_eq!(token_in_query("token&token=x").as_deref(), Some("x"));
    assert_eq!(token_in_query("xtoken=no&token=yes").as_deref(), Some("yes"));
    assert_eq!(token_in_query(""), None);
    assert_eq!(token_in_query("token"), None);
    assert_eq!(token_in_query("a=1&b=2"), None);
    assert_eq!(token_in_query("Token=abc"), None);
    assert_eq!(token_in_query("=token"), None);
    assert_eq!(token_in_query("&&"), None);
}

#[test]
fn a_connection_is_authenticated_by_its_query() {
    let query = format!("x=1&token={}", valid_token(9));
    let WsAuth(claims) = WsAuth::from_query(&query, Some(SECRET)).unwrap();
    assert_eq!(claims.sub, 9);
    let r = WsAuth::from_query("x=1", Some(SECRET)).unwrap_err();
    assert_eq!((r.status, r.message.as_str(), r.code.as_str()), (400, "Missing token in query", "token_missing"));
    assert_eq!(WsAuth::from_query("token=junk", Some(SECRET)).unwrap_err().status, 401);
    assert_eq!(WsAuth::from_query(&query, None).unwrap_err().status, 500);
}

#[test]
fn the_token_is_found_in_the_first_frame() {
    assert_eq!(token_in_frame(&Frame::Text("{\"token\": \"abc\"}".to_string())).unwrap(), "abc");
    assert_eq!(token_in_frame(&Frame::Text("{\"token\": 5}".to_string())).unwrap_err(), HandshakeFault::NoToken);
    assert_eq!(token_in_frame(&Frame::Text("{}".to_string())).unwrap_err(), HandshakeFault::NoToken);
    assert_eq!(token_in_frame(&Frame::Text("[\"token\"]".to_string())).unwrap_err(), HandshakeFault::NoToken);
    assert_eq!(token_in_frame(&Frame::Text("token".to_string())).unwrap_err(), HandshakeFault::NotJson);
    assert_eq!(token_in_frame(&Frame::Text("{\"token\": \"ab".to_string())).unwrap_err(), HandshakeFault::NotJson);
    assert_eq!(token_in_frame(&Frame::Binary).unwrap_err(), HandshakeFault::NotText);
    assert_eq!(token_in_frame(&Frame::Ping).unwrap_err(), HandshakeFault::NotText);
    assert_eq!(token_in_frame(&Frame::Pong).unwrap_err(), HandshakeFault::NotText);
    assert_eq!(token_in_frame(&Frame::Close).unwrap_err(), HandshakeFault::NotText);
    assert_eq!(token_in_value(&Json::parse("{\"token\": \"t\"}")).unwrap(), "t");
    assert_eq!(token_in_value(&Json::parse("{")).unwrap_err(), HandshakeFault::NotJson);
}

#[test]
fn a_connection_is_authenticated_by_its_first_frame() {
    let frame = Frame::Text(format!("{{\"token\": \"{}\"}}", valid_token(11)));
    let WsAuth(claims) = WsAuth::from_first_message(&frame, Some(SECRET)).unwrap();
    assert_eq!(claims.sub, 11);
    let r = WsAuth::from_first_message(&Frame::Binary, Some(SECRET)).unwrap_err();
    assert_eq!((r.status, r.message.as_str(), r.code.as_str()), (400, "Expected text message", "token_malformed"));
    let r = WsAuth::from_first_message(&Frame::Text("nope".to_string()), Some(SECRET)).unwrap_err();
    assert_eq!((r.status, r.message.as_str(), r.code.as_str()), (400, "Invalid JSON", "token_malformed"));
    let r = WsAuth::from_first_message(&Frame::Text("{}".to_string()), Some(SECRET)).unwrap_err();
    assert_eq!((r.status, r.message.as_str(), r.code.as_str()), (400, "Missing token field", "token_missing"));
    let r = WsAuth::from_first_message(&Frame::Text("{\"token\": \"x\"}".to_string()), Some(SECRET))
        .unwrap_err();
    assert_eq!((r.status, r.message.as_str()), (401, "Invalid token"));
    assert_eq!(WsAuth::from_first_message(&frame, None).unwrap_err().status, 500);
}

#[test]
fn faults_and_rejections_are_put_in_words() {
    assert_eq!(HandshakeFault::NotText.message(), "Expected text message");
    assert_eq!(HandshakeFault::NotJson.message(), "Invalid JSON");
    assert_eq!(HandshakeFault::NoToken.message(), "Missing token field");
    assert_eq!(HandshakeFault::NoToken.as_error(), AuthError::Missing);
    assert_eq!(HandshakeFault::NotJson.as_error(), AuthError::Malformed);
    assert_eq!(HandshakeFault::NotText.as_error(), AuthError::Malformed);
    let r = Rejection::for_error(AuthError::Expired);
    assert_eq!((r.status, r.message.as_str(), r.code.as_str()), (401, "Token expired", "token_expired"));
    let r = Rejection::for_fault(HandshakeFault::NoToken);
    assert_eq!((r.status, r.message.as_str(), r.code.as_str()), (400, "Missing token field", "token_missing"));
}

#[test]
fn the_bearer_token_is_taken_from_the_header() {
    assert_eq!(bearer_token("Bearer abc.def").as_deref(), Some("abc.def"));
    assert_eq!(bearer_token("Bearer ").as_deref(), Some(""));
    assert_eq!(bearer_token("Bearer"), None);
    assert_eq!(bearer_token("bearer abc"), None);
    assert_eq!(bearer_token("Basic abc"), None);
    assert_eq!(bearer_token(""), None);
    assert_eq!(bearer_token(" Bearer abc"), None);
}

#[test]
fn a_request_is_identified_by_its_header() {
    let header = format!("Bearer {}", valid_token(5));
    let AuthUser(claims) = AuthUser::from_header(Some(&header), Some(SECRET)).unwrap();
    assert_eq!(claims.sub, 5);
    assert_eq!(AuthUser::from_header(None, Some(SECRET)).unwrap_err(), Denial::NoToken);
    assert_eq!(AuthUser::from_header(Some("Token x"), Some(SECRET)).unwrap_err(), Denial::NoToken);
    assert_eq!(AuthUser::from_header(Some("Bearer junk"), Some(SECRET)).unwrap_err(), Denial::Invalid);
    let expired = format!("Bearer {}", token_for(&claims_value(5, now_secs() - 3600, false), SECRET));
    assert_eq!(AuthUser::from_header(Some(&expired), Some(SECRET)).unwrap_err(), Denial::Expired);
    assert_eq!(AuthUser::from_header(Some(&header), None).unwrap_err(), Denial::Invalid);
}

#[test]
fn only_administrators_are_accepted_as_such() {
    let admin = decode_token(&token_for(&claims_value(1, now_secs() + 60, true), SECRET), Some(SECRET));
    let user = decode_token(&token_for(&claims_value(2, now_secs() + 60, false), SECRET), Some(SECRET));
    let AdminUser(claims) = AdminUser::accept(AuthUser::accept(admin).unwrap()).unwrap();
    assert_eq!(claims.sub, 1);
    assert_eq!(AdminUser::accept(AuthUser::accept(user).unwrap()).unwrap_err(), Denial::NotAdmin);
    assert_eq!(AuthUser::accept(Err(AuthError::Expired)).unwrap_err(), Denial::Expired);
    assert_eq!(AuthUser::accept(Err(AuthError::InvalidSignature)).unwrap_err(), Denial::Invalid);
    assert_eq!(AuthUser::accept(Err(AuthError::Internal)).unwrap_err(), Denial::Invalid);
}

#[test]
fn denials_are_put_in_words() {
    assert_eq!((Denial::NoToken.status(), Denial::NoToken.message()), (401, "Missing authorization token"));
    assert_eq!((Denial::Expired.status(), Denial::Expired.message()), (401, "Token has expired"));
    assert_eq!((Denial::Invalid.status(), Denial::Invalid.message()), (401, "Invalid token"));
    assert_eq!((Denial::NotAdmin.status(), Denial::NotAdmin.message()), (403, "Access denied: Admins only"));
}

#[test]
fn an_error_of_the_service_is_put_in_words() {
    assert_eq!(ai_web_assistant::auth::ErrorResponse::of(AuthError::Expired).error, "Token expired");
}

#[test]
fn a_token_is_judged_at_a_given_time() {
    let token = token_for(&claims_value(42, 1_000_000, false), SECRET);
    let before = Timestamp::new(999_000, 0);
    let at_edge = Timestamp::new(1_000_060, 0);
    let after = Timestamp::new(1_000_061, 0);
    assert_eq!(decode_token_at(&token, Some(SECRET), before).unwrap().sub, 42);
    assert_eq!(decode_token_at(&token, Some(SECRET), at_edge).unwrap().sub, 42);
    assert_eq!(decode_token_at(&token, Some(SECRET), after).unwrap_err(), AuthError::Expired);
    assert_eq!(decode_token_at(&token, None, before).unwrap_err(), AuthError::Internal);
    assert_eq!(
        decode_token_at(&token, Some(b"other"), before).unwrap_err(),
        AuthError::InvalidSignature
    );
    assert_eq!(decode_token_at("junk", Some(SECRET), before).unwrap_err(), AuthError::Malformed);
    // The signature is checked before the expiry.
    assert_eq!(decode_token_at(&token, Some(b"other"), after).unwrap_err(), AuthError::InvalidSignature);

    let WsAuth(claims) = WsAuth::validate_token_at(&token, Some(SECRET), before).unwrap();
    assert_eq!(claims.sub, 42);
    let r = WsAuth::validate_token_at(&token, Some(SECRET), after).unwrap_err();
    assert_eq!((r.status, r.code.as_str()), (401, "token_expired"));
    let frame = Frame::Text(format!("{{\"token\": \"{}\"}}", token));
    assert!(WsAuth::from_first_message_at(&frame, Some(SECRET), before).is_ok());
    assert_eq!(WsAuth::from_first_message_at(&frame, Some(SECRET), after).unwrap_err().message, "Token expired");
    assert_eq!(WsAuth::from_first_message_at(&Frame::Ping, Some(SECRET), before).unwrap_err().status, 400);
    let query = format!("token={}", token);
    assert!(WsAuth::from_query_at(&query, Some(SECRET), before).is_ok());
    assert_eq!(WsAuth::from_query_at(&query, Some(SECRET), after).unwrap_err().status, 401);
    assert_eq!(WsAuth::from_query_at("a=b", Some(SECRET), before).unwrap_err().message, "Missing token in query");
    let header = format!("Bearer {}", token);
    assert!(AuthUser::from_header_at(Some(&header), Some(SECRET), before).is_ok());
    assert_eq!(AuthUser::from_header_at(Some(&header), Some(SECRET), after).unwrap_err(), Denial::Expired);
    assert_eq!(AuthUser::from_header_at(None, Some(SECRET), before).unwrap_err(), Denial::NoToken);
}

#[test]
fn a_token_without_expiry_is_refused() {
    let mut claims = serde_json::Map::new();
    claims.insert("sub".to_string(), Value::from(1));
    claims.insert("email".to_string(), Value::from("e"));
    claims.insert("roles".to_string(), Value::from(Vec::<String>::new()));
    claims.insert("is_admin".to_string(), Value::from(false));
    claims.insert("is_user".to_string(), Value::from(true));
    let token = token_for(&Value::Object(claims), SECRET);
    assert_eq!(decode_token_at(&token, Some(SECRET), Timestamp::new(0, 0)).unwrap_err(), AuthError::Malformed);
}
