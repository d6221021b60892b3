use canister_router::http::{HttpResponse, StreamingCallbackHttpResponse};

#[test]
fn builder_sets_each_field() {
    let resp = HttpResponse::builder()
        .set_status(201)
        .set_body(b"made".to_vec())
        .set_headers(vec![("x".to_string(), "y".to_string())])
        .set_upgrade(Some(false))
        .set_streaming_strategy(None)
        .build();
    assert_eq!(resp.status_code, 201);
    assert_eq!(resp.body, b"made".to_vec());
    assert_eq!(resp.headers, vec![("x".to_string(), "y".to_string())]);
    assert_eq!(resp.upgrade, Some(false));
    assert!(resp.streaming_strategy.is_none());
}

#[test]
fn builder_starts_at_ok() {
    let resp = HttpResponse::builder().build();
    assert_eq!(resp.status_code, 200);
    assert!(resp.headers.is_empty());
    assert!(resp.body.is_empty());
    assert!(resp.upgrade.is_none());
}

#[test]
fn canned_responses() {
    assert_eq!(HttpResponse::new().status_code, 200);
    assert_eq!(HttpResponse::not_found().status_code, 404);
    let up = HttpResponse::upgrade();
    assert_eq!(up.status_code, 200);
    assert_eq!(up.upgrade, Some(true));
    let bad = HttpResponse::bad_request(Some("no"));
    assert_eq!(bad.status_code, 400);
    assert_eq!(bad.body, b"no".to_vec());
    assert!(HttpResponse::bad_request(None).body.is_empty());
}

#[test]
fn response_mutators_chain() {
    let mut resp = HttpResponse::new();
    resp.status(418)
        .add_headers(vec![("a".to_string(), "1".to_string())])
        .add_headers(vec![("b".to_string(), "2".to_string())])
        .set_body(b"tea".to_vec());
    assert_eq!(resp.status_code, 418);
    assert_eq!(
        resp.headers,
        vec![("a".to_string(), "1".to_string()), ("b".to_string(), "2".to_string())]
    );
    assert_eq!(resp.body, b"tea".to_vec());
}

#[test]
fn streaming_chunk_keeps_its_parts() {
    let chunk = StreamingCallbackHttpResponse::new(b"part".to_vec(), Some(3u8));
    let _ = chunk;
}
