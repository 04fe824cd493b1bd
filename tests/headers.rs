use axum::http::header::{
    ACCEPT_LANGUAGE, CONTENT_TYPE, COOKIE, HOST, SET_COOKIE, X_FRAME_OPTIONS, X_XSS_PROTECTION,
};
use axum::http::{HeaderMap, HeaderName, HeaderValue};
use curto::headers::forward_headers;

#[test]
fn test_forward_headers() {
    let mut resp = HeaderMap::new();
    let mut headers = HeaderMap::new();

    forward_headers(&mut resp, &headers.clone());
    assert_eq!(resp.len(), 0);

    headers.insert(HOST, "host".parse().unwrap());
    forward_headers(&mut resp, &headers.clone());
    assert!(resp.contains_key(HOST));

    // Inserts new headers but does not duplicate existing headers
    headers.insert(ACCEPT_LANGUAGE, "en".parse().unwrap());
    forward_headers(&mut resp, &headers.clone());
    assert_eq!(resp.len(), 2);
    assert!(resp.contains_key(HOST));
    assert_eq!(resp.get(HOST).unwrap(), "host");
    assert!(resp.contains_key(ACCEPT_LANGUAGE));

    // Does not replace existing header
    headers.insert(HOST, "new_host".parse().unwrap());
    forward_headers(&mut resp, &headers.clone());
    assert_eq!(resp.len(), 2);
    assert_eq!(resp.get(HOST).unwrap(), "host");
}

#[test]
fn forward_headers_skips_unlisted_names_and_non_text_values() {
    let mut request = HeaderMap::new();
    request.insert(HeaderName::from_static("x-custom"), HeaderValue::from_static("1"));
    request.insert(COOKIE, HeaderValue::from_bytes(&[b'a', 0x80, b'b']).unwrap());
    request.insert(SET_COOKIE, HeaderValue::from_static("id=1; Path=/"));
    request.insert(CONTENT_TYPE, HeaderValue::from_bytes(b"text/html\tx").unwrap());
    let mut resp = HeaderMap::new();
    forward_headers(&mut resp, &request);
    assert_eq!(resp.len(), 2);
    assert!(!resp.contains_key("x-custom"));
    assert!(!resp.contains_key(COOKIE));
    assert_eq!(resp.get(SET_COOKIE).unwrap(), "id=1; Path=/");
    assert_eq!(resp.get(CONTENT_TYPE).unwrap().as_bytes(), b"text/html\tx");
}

#[test]
fn forward_headers_keeps_what_the_response_already_holds() {
    let mut resp = HeaderMap::new();
    resp.insert(X_FRAME_OPTIONS, HeaderValue::from_static("DENY"));
    let mut request = HeaderMap::new();
    request.insert(X_FRAME_OPTIONS, HeaderValue::from_static("ALLOW"));
    request.insert(X_XSS_PROTECTION, HeaderValue::from_static("1"));
    forward_headers(&mut resp, &request);
    assert_eq!(resp.len(), 2);
    assert_eq!(resp.get(X_FRAME_OPTIONS).unwrap(), "DENY");
    assert_eq!(resp.get(X_XSS_PROTECTION).unwrap(), "1");
}

#[test]
fn forward_headers_takes_the_first_of_several_values() {
    let mut request = HeaderMap::new();
    request.append(ACCEPT_LANGUAGE, HeaderValue::from_static("en"));
    request.append(ACCEPT_LANGUAGE, HeaderValue::from_static("fr"));
    let mut resp = HeaderMap::new();
    forward_headers(&mut resp, &request);
    assert_eq!(resp.len(), 1);
    assert_eq!(resp.get(ACCEPT_LANGUAGE).unwrap(), "en");
}
