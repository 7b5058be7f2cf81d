use axum::http::HeaderMap;
use bakoel_super_admin::headers::read_header;
use bakoel_super_admin::reply::{
    error_response, message_response, success_response, Body, Status,
};

fn value(headers: &HeaderMap, name: &str) -> String {
    headers.get(name).unwrap().to_str().unwrap().to_string()
}

#[test]
fn success_carries_five_headers() {
    let reply = success_response(Body::Balances(vec![]));
    assert_eq!(reply.status, Status::Success);
    assert_eq!(reply.headers.len(), 5);
    assert_eq!(
        value(&reply.headers, "Cache-Control"),
        "no-store, no-cache, must-revalidate, max-age=0"
    );
    assert_eq!(value(&reply.headers, "Pragma"), "no-cache");
    assert_eq!(value(&reply.headers, "X-Content-Type-Options"), "nosniff");
    assert_eq!(value(&reply.headers, "X-Frame-Options"), "DENY");
    assert_eq!(
        value(&reply.headers, "Strict-Transport-Security"),
        "max-age=31536000; includeSubDomains"
    );
    assert!(matches!(reply.body, Body::Balances(list) if list.is_empty()));
}

#[test]
fn errors_carry_three_headers() {
    let reply = error_response(Status::Conflict, "bentrok");
    assert_eq!(reply.status, Status::Conflict);
    assert_eq!(reply.headers.len(), 3);
    assert_eq!(value(&reply.headers, "cache-control"), "no-store, no-cache, must-revalidate");
    assert_eq!(value(&reply.headers, "x-content-type-options"), "nosniff");
    assert_eq!(value(&reply.headers, "x-frame-options"), "DENY");
    assert!(matches!(reply.body, Body::Error { error } if error == "bentrok"));
}

#[test]
fn messages_are_successes() {
    let reply = message_response("beres");
    assert_eq!(reply.status, Status::Success);
    assert!(matches!(reply.body, Body::Message { message } if message == "beres"));
}

#[test]
fn statuses_have_their_numbers() {
    assert_eq!(Status::Success.code(), 200);
    assert_eq!(Status::BadRequest.code(), 400);
    assert_eq!(Status::Unauthorized.code(), 401);
    assert_eq!(Status::Forbidden.code(), 403);
    assert_eq!(Status::NotFound.code(), 404);
    assert_eq!(Status::Conflict.code(), 409);
    assert_eq!(Status::InternalServerError.code(), 500);
    assert_eq!(Status::ServiceUnavailable.code(), 503);
}

#[test]
fn the_first_value_of_a_header_is_read() {
    let mut headers = HeaderMap::new();
    assert_eq!(read_header(&headers, "x-one"), None);
    headers.insert("X-One", "a b".parse().unwrap());
    headers.append("x-one", "c".parse().unwrap());
    assert_eq!(read_header(&headers, "x-one"), Some("a b".to_string()));
    assert_eq!(read_header(&headers, "x-two"), None);
}

#[test]
fn header_values_beyond_ascii_are_no_text() {
    let mut headers = HeaderMap::new();
    headers.insert("x-one", axum::http::HeaderValue::from_bytes(b"caf\xe9").unwrap());
    headers.insert("x-two", axum::http::HeaderValue::from_bytes(b"a\tb").unwrap());
    headers.insert("x-three", axum::http::HeaderValue::from_bytes(b"").unwrap());
    assert_eq!(read_header(&headers, "x-one"), None);
    assert_eq!(read_header(&headers, "x-two"), Some("a\tb".to_string()));
    assert_eq!(read_header(&headers, "x-three"), Some(String::new()));
}
