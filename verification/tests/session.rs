use axum::http::{HeaderMap, HeaderValue};
use bakoel_super_admin::clock::{session_expiry, LAST_SECOND};
use bakoel_super_admin::reply::{Body, Reply, Status};
use bakoel_super_admin::session::{
    accept_token, issue_token, jwt_secret, let_in, read_bearer_token, read_session,
    verify_super_admin, Claim, ClaimValue, Claims,
};
use jsonwebtoken::{Algorithm, EncodingKey, Header};
use serde_json::Value;

const SECRET: &str = "rahasia";

fn now() -> i64 {
    chrono::Utc::now().timestamp()
}

fn with_authorization(value: &str) -> HeaderMap {
    let mut headers = HeaderMap::new();
    headers.insert("Authorization", HeaderValue::from_bytes(value.as_bytes()).unwrap());
    headers
}

fn sign(claims: &serde_json::Map<String, Value>, algorithm: Algorithm) -> String {
    let key = EncodingKey::from_secret(SECRET.as_bytes());
    jsonwebtoken::encode(&Header::new(algorithm), claims, &key).unwrap()
}

fn claims(sub: Value, exp: Value) -> serde_json::Map<String, Value> {
    let mut map = serde_json::Map::new();
    map.insert("sub".to_string(), sub);
    map.insert("exp".to_string(), exp);
    map
}

fn refusal(session: Result<String, Reply>) -> (Status, String) {
    match session {
        Ok(subject) => panic!("let in as {}", subject),
        Err(reply) => match reply.body {
            Body::Error { error } => (reply.status, error),
            other => panic!("{:?}", other),
        },
    }
}

fn verdict(token: &str) -> Result<String, Reply> {
    verify_super_admin(&with_authorization(&format!("Bearer {}", token)), SECRET)
}

fn invalid() -> (Status, String) {
    (Status::Unauthorized, "Token kedaluarsa atau invalid.".to_string())
}

#[test]
fn a_request_without_a_token_has_no_session() {
    let none = (Status::Unauthorized, "Sesi tidak valid.".to_string());
    assert_eq!(refusal(verify_super_admin(&HeaderMap::new(), SECRET)), none);
    for value in ["", "Bearer", "bearer x", "Basic x", "Bearerx", "Bearer\tx", " Bearer x"] {
        assert_eq!(refusal(verify_super_admin(&with_authorization(value), SECRET)), none);
    }
    let mut headers = HeaderMap::new();
    headers.insert("authorization", HeaderValue::from_bytes(b"Bearer caf\xe9").unwrap());
    assert_eq!(refusal(verify_super_admin(&headers, SECRET)), none);
}

#[test]
fn bearer_tokens_are_trimmed() {
    let read = |value: &str| read_bearer_token(&with_authorization(value));
    assert_eq!(read("Bearer abc"), Some("abc".to_string()));
    assert_eq!(read("Bearer  \t abc\t "), Some("abc".to_string()));
    assert_eq!(read("Bearer a b"), Some("a b".to_string()));
    assert_eq!(read("Bearer "), Some(String::new()));
    assert_eq!(read("Token abc"), None);
}

#[test]
fn an_issued_token_lets_the_super_admin_in() {
    let token = issue_token(SECRET, now()).unwrap();
    assert_eq!(verdict(&token).unwrap(), "SUPER-BOSS");
}

#[test]
fn a_session_lasts_for_its_leeway_and_no_longer() {
    let late = issue_token(SECRET, now() - 7200 - 30).unwrap();
    assert_eq!(verdict(&late).unwrap(), "SUPER-BOSS");
    let over = issue_token(SECRET, now() - 7200 - 90).unwrap();
    assert_eq!(refusal(verdict(&over)), invalid());
}

#[test]
fn a_session_that_is_over_does_not_come_back() {
    let start = now();
    let token = issue_token(SECRET, start - 7200 - 57).unwrap();
    assert_eq!(verdict(&token).unwrap(), "SUPER-BOSS");
    let mut over = false;
    while now() < start + 5 {
        match verdict(&token) {
            Ok(subject) => {
                assert!(!over);
                assert_eq!(subject, "SUPER-BOSS");
            },
            refused => {
                assert_eq!(refusal(refused), invalid());
                over = true;
            },
        }
    }
    assert!(over);
}

#[test]
fn a_token_has_this_form() {
    let token = issue_token("secret_default", 0).unwrap();
    let parts: Vec<&str> = token.split('.').collect();
    assert_eq!(parts.len(), 3);
    assert_eq!(parts[0], "eyJ0eXAiOiJKV1QiLCJhbGciOiJIUzI1NiJ9");
    assert_eq!(parts[1], "eyJzdWIiOiJTVVBFUi1CT1NTIiwiZXhwIjo3MjAwfQ");
    assert_eq!(parts[2], "l8cmuUU4TL9Vtaiuzx6DYKok_C34Tu-gpqNuIdMOY4c");
}

#[test]
fn a_token_depends_on_the_secret_and_the_time() {
    let token = issue_token(SECRET, 1000).unwrap();
    assert_eq!(issue_token(SECRET, 1000).unwrap(), token);
    assert_ne!(issue_token(SECRET, 1001).unwrap(), token);
    assert_ne!(issue_token("lain", 1000).unwrap(), token);
}

#[test]
fn a_token_under_another_secret_is_invalid() {
    let token = issue_token("lain", now()).unwrap();
    assert_eq!(refusal(verdict(&token)), invalid());
    assert!(accept_token(&token, SECRET).is_none());
    assert!(accept_token(&token, "lain").is_some());
}

#[test]
fn a_malformed_token_is_invalid() {
    for token in ["", "x", "a.b", "a.b.c", "a.b.c.d"] {
        assert_eq!(refusal(verdict(token)), invalid());
    }
    let token = issue_token(SECRET, now()).unwrap();
    assert_eq!(refusal(verdict(&format!("{}x", token))), invalid());
}

#[test]
fn a_token_of_another_algorithm_is_invalid() {
    let token = sign(&claims(Value::from("SUPER-BOSS"), Value::from(now() + 1000)), Algorithm::HS512);
    assert_eq!(refusal(verdict(&token)), invalid());
}

#[test]
fn another_subject_is_denied() {
    for sub in ["", "super-boss", "SUPER-BOSS ", "tenant"] {
        let token = sign(&claims(Value::from(sub), Value::from(now() + 1000)), Algorithm::HS256);
        assert_eq!(refusal(verdict(&token)), (Status::Forbidden, "Akses Ditolak.".to_string()));
    }
}

#[test]
fn a_token_without_a_session_is_invalid() {
    let later = now() + 1000;
    let mut no_sub = serde_json::Map::new();
    no_sub.insert("exp".to_string(), Value::from(later));
    let mut no_exp = serde_json::Map::new();
    no_exp.insert("sub".to_string(), Value::from("SUPER-BOSS"));
    let cases = vec![
        no_sub,
        no_exp,
        claims(Value::Null, Value::from(later)),
        claims(Value::from(7), Value::from(later)),
        claims(Value::from("SUPER-BOSS"), Value::from(later as f64 + 0.5)),
        claims(Value::from("SUPER-BOSS"), Value::from(later.to_string())),
        claims(Value::from("SUPER-BOSS"), Value::from(-5)),
    ];
    for case in cases {
        assert_eq!(refusal(verdict(&sign(&case, Algorithm::HS256))), invalid());
    }
}

#[test]
fn further_claims_do_not_matter() {
    let mut map = claims(Value::from("SUPER-BOSS"), Value::from(now() + 1000));
    map.insert("zzz".to_string(), Value::from(vec![1, 2]));
    map.insert("abc".to_string(), Value::Bool(true));
    let token = sign(&map, Algorithm::HS256);
    assert_eq!(verdict(&token).unwrap(), "SUPER-BOSS");
    let accepted = accept_token(&token, SECRET).unwrap();
    assert_eq!(accepted.sub, "SUPER-BOSS");
}

#[test]
fn any_session_ends_with_its_expiry() {
    let with = |sub: &str, exp: i64| {
        let mut map = claims(Value::from(sub), Value::from(exp));
        map.insert("nbf".to_string(), Value::from(now() + 5000));
        map.insert("abc".to_string(), Value::from("x"));
        sign(&map, Algorithm::HS256)
    };
    let late = now() - 30;
    let accepted = accept_token(&with("tenant", late), SECRET).unwrap();
    assert_eq!((accepted.sub.as_str(), accepted.exp), ("tenant", late as usize));
    assert_eq!(verdict(&with("SUPER-BOSS", late)).unwrap(), "SUPER-BOSS");
    let over = now() - 90;
    assert!(accept_token(&with("tenant", over), SECRET).is_none());
    assert_eq!(refusal(verdict(&with("tenant", over))), invalid());
    assert_eq!(refusal(verdict(&with("SUPER-BOSS", over))), invalid());
}

#[test]
fn a_session_is_read_from_claims() {
    let text = |name: &str, text: &str| Claim {
        name: name.to_string(),
        value: ClaimValue::Text(text.to_string()),
    };
    let number = |name: &str, n: Option<u64>| Claim {
        name: name.to_string(),
        value: ClaimValue::Number(n),
    };
    let read = read_session(&vec![number("exp", Some(9)), text("sub", "a"), text("sub", "b")]);
    let read = read.unwrap();
    assert_eq!((read.sub.as_str(), read.exp), ("a", 9));
    assert!(read_session(&vec![number("exp", None), text("sub", "a")]).is_none());
    assert!(read_session(&vec![text("exp", "9"), text("sub", "a")]).is_none());
    assert!(read_session(&vec![number("exp", Some(9)), number("sub", Some(9))]).is_none());
    let other = Claim { name: "sub".to_string(), value: ClaimValue::Other };
    assert!(read_session(&vec![number("exp", Some(9)), other]).is_none());
    assert!(read_session(&vec![]).is_none());
}

#[test]
fn only_the_super_admin_is_let_in() {
    let claims = |sub: &str| Some(Claims { sub: sub.to_string(), exp: 5 });
    assert_eq!(let_in(claims("SUPER-BOSS")).unwrap(), "SUPER-BOSS");
    assert_eq!(
        refusal(let_in(claims("BOSS"))),
        (Status::Forbidden, "Akses Ditolak.".to_string())
    );
    assert_eq!(refusal(let_in(None)), invalid());
}

#[test]
fn a_session_expires_two_hours_after_its_start() {
    assert_eq!(session_expiry(0), Some(7200));
    assert_eq!(session_expiry(1_700_000_000), Some(1_700_007_200));
}

#[test]
fn no_session_expires_beyond_the_calendar() {
    assert_eq!(chrono::DateTime::<chrono::Utc>::MAX_UTC.timestamp(), LAST_SECOND);
    assert_eq!(session_expiry(LAST_SECOND - 7200), Some(LAST_SECOND as usize));
    assert_eq!(session_expiry(LAST_SECOND - 7199), None);
    assert_eq!(session_expiry(LAST_SECOND), None);
    assert!(issue_token(SECRET, LAST_SECOND).is_none());
}

#[test]
fn the_secret_has_a_default() {
    assert_eq!(jwt_secret(None), "secret_default");
    assert_eq!(jwt_secret(Some("x".to_string())), "x");
    assert_eq!(jwt_secret(Some(String::new())), "");
}

#[test]
fn claims_are_read_however_they_are_written() {
    let sign_text = |text: String| {
        let raw = serde_json::value::RawValue::from_string(text).unwrap();
        let key = EncodingKey::from_secret(SECRET.as_bytes());
        jsonwebtoken::encode(&Header::default(), &raw, &key).unwrap()
    };
    let later = now() + 1000;
    let deep = format!("{}{}", "[".repeat(200), "]".repeat(200));
    for text in [
        format!("{{ \"exp\" : {}, \"s\\u0075b\": \"SUPER\\u002dBOSS\" }}", later),
        format!("{{\"sub\":\"SUPER-BOSS\",\"exp\":{},\"x\":1e400}}", later),
        format!("{{\"sub\":\"SUPER-BOSS\",\"exp\":{},\"x\":{}}}", later, deep),
        format!("{{\"x\":1,\"x\":2,\"sub\":\"SUPER-BOSS\",\"exp\":{}}}", later),
    ] {
        assert_eq!(verdict(&sign_text(text)).unwrap(), "SUPER-BOSS");
    }
    for text in [
        format!("[\"SUPER-BOSS\",{}]", later),
        format!("{{\"sub\":\"SUPER-BOSS\",\"sub\":\"SUPER-BOSS\",\"exp\":{}}}", later),
        format!("{{\"sub\":\"SUPER-BOSS\",\"exp\":{},\"aud\":\"a\"}}", later),
        "null".to_string(),
    ] {
        assert_eq!(refusal(verdict(&sign_text(text))), invalid());
    }
}
