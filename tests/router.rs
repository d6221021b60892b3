use canister_router::add;
use canister_router::http::{HttpRequest, HttpResponse};
use canister_router::router::{
    path_of, CallType, CanisterRouter, CanisterRouterContext, ConfigurationError, Handler,
};

struct Reply(u16);

impl Handler for Reply {
    fn handle(&self, _req: CanisterRouterContext) -> HttpResponse {
        let mut resp = HttpResponse::new();
        resp.status(self.0);
        resp
    }
}

/// Answers with the captured `id` parameter as the body.
struct EchoId;

impl Handler for EchoId {
    fn handle(&self, req: CanisterRouterContext) -> HttpResponse {
        let mut resp = HttpResponse::new();
        let id = req
            .params
            .unwrap_or_default()
            .into_iter()
            .find(|(k, _)| k == "id")
            .map(|(_, v)| v)
            .unwrap_or_default();
        resp.set_body(id.into_bytes());
        resp
    }
}

fn request(method: &str, url: &str) -> HttpRequest {
    HttpRequest {
        method: method.to_string(),
        url: url.to_string(),
        headers: vec![],
        body: vec![],
        certificate_version: None,
    }
}

#[test]
fn it_works() {
    let result = add(2, 2);
    assert_eq!(result, 4);
}

#[test]
fn ping_is_found_and_pong_is_not() {
    let mut router = CanisterRouter::new();
    assert!(router.get("/ping", Reply(200)).is_ok());
    let ok = router.process(request("GET", "/ping"), CallType::Query);
    assert_eq!(ok.status_code, 200);
    assert!(ok.body.is_empty());
    let missing = router.process(request("GET", "/pong"), CallType::Query);
    assert_eq!(missing.status_code, 404);
    assert_eq!(missing.body, b"There was no match".to_vec());
}

#[test]
fn unsupported_method_is_not_found() {
    let mut router = CanisterRouter::new();
    assert!(router.get("/ping", Reply(200)).is_ok());
    let resp = router.process(request("PUT", "/ping"), CallType::Update);
    assert_eq!(resp.status_code, 404);
    assert!(resp.body.is_empty());
}

#[test]
fn method_without_routes_is_not_found() {
    let mut router = CanisterRouter::new();
    assert!(router.get("/ping", Reply(200)).is_ok());
    let resp = router.process(request("POST", "/ping"), CallType::Update);
    assert_eq!(resp.status_code, 404);
    assert!(resp.body.is_empty());
    let head = router.process(request("HEAD", "/ping"), CallType::Query);
    assert_eq!(head.status_code, 404);
}

#[test]
fn each_method_reaches_its_own_handler() {
    let mut router = CanisterRouter::new();
    assert!(router.get("/item", Reply(201)).is_ok());
    assert!(router.post("/item", Reply(202)).is_ok());
    assert!(router.head("/item", Reply(203)).is_ok());
    assert_eq!(router.process(request("GET", "/item"), CallType::Query).status_code, 201);
    assert_eq!(router.process(request("POST", "/item"), CallType::Update).status_code, 202);
    assert_eq!(router.process(request("HEAD", "/item"), CallType::Query).status_code, 203);
}

#[test]
fn pattern_without_leading_slash_is_refused() {
    let mut router = CanisterRouter::new();
    let r = router.get("users/{id}", Reply(200));
    assert_eq!(r, Err(ConfigurationError::MissingLeadingSlash));
    let empty = router.post("", Reply(200));
    assert_eq!(empty, Err(ConfigurationError::MissingLeadingSlash));
    let resp = router.process(request("GET", "users/1"), CallType::Query);
    assert_eq!(resp.status_code, 404);
}

#[test]
fn duplicate_pattern_is_a_conflict() {
    let mut router = CanisterRouter::new();
    assert!(router.get("/users/{id}", Reply(200)).is_ok());
    assert_eq!(router.get("/users/{id}", Reply(201)), Err(ConfigurationError::Conflict));
    assert_eq!(router.get("/users/{name}", Reply(202)), Err(ConfigurationError::Conflict));
    let resp = router.process(request("GET", "/users/7"), CallType::Query);
    assert_eq!(resp.status_code, 200);
}

#[test]
fn named_segment_is_captured() {
    let mut router = CanisterRouter::new();
    assert!(router.get("/users/{id}", EchoId).is_ok());
    let routed = router.route(request("GET", "/users/42"), CallType::Query);
    let (index, ctx) = match routed {
        Ok(found) => found,
        Err(_) => panic!("expected a match"),
    };
    assert_eq!(index, 0);
    assert_eq!(ctx.params, Some(vec![("id".to_string(), "42".to_string())]));
    assert!(ctx.query.is_none());
    assert_eq!(ctx.request.url, "/users/42");
    let resp = router.process(request("GET", "/users/42"), CallType::Query);
    assert_eq!(resp.body, b"42".to_vec());
}

#[test]
fn extra_segment_does_not_match() {
    let mut router = CanisterRouter::new();
    assert!(router.get("/users/{id}", EchoId).is_ok());
    let resp = router.process(request("GET", "/users/42/extra"), CallType::Query);
    assert_eq!(resp.status_code, 404);
    assert_eq!(resp.body, b"There was no match".to_vec());
}

#[test]
fn static_segment_wins_over_named_one() {
    let mut router = CanisterRouter::new();
    assert!(router.get("/users/{id}", Reply(200)).is_ok());
    assert!(router.get("/users/me", Reply(299)).is_ok());
    assert_eq!(router.process(request("GET", "/users/me"), CallType::Query).status_code, 299);
    assert_eq!(router.process(request("GET", "/users/you"), CallType::Query).status_code, 200);
}

#[test]
fn catch_all_takes_the_rest_of_the_path() {
    let mut router = CanisterRouter::new();
    assert!(router.get("/files/{*path}", Reply(200)).is_ok());
    let routed = router.route(request("GET", "/files/a/b.txt"), CallType::Query);
    match routed {
        Ok((_, ctx)) => {
            assert_eq!(ctx.params, Some(vec![("path".to_string(), "a/b.txt".to_string())]))
        }
        Err(_) => panic!("expected a match"),
    }
}

#[test]
fn pattern_without_params_gives_no_params() {
    let mut router = CanisterRouter::new();
    assert!(router.get("/ping", Reply(200)).is_ok());
    match router.route(request("GET", "/ping"), CallType::Update) {
        Ok((_, ctx)) => {
            assert!(ctx.params.is_none());
            assert!(ctx.call_type == CallType::Update);
        }
        Err(_) => panic!("expected a match"),
    }
}

#[test]
fn query_is_matched_apart_from_the_path() {
    let mut router = CanisterRouter::new();
    assert!(router.get("/search", Reply(200)).is_ok());
    match router.route(request("GET", "/search?k1=v1&k2=v2"), CallType::Query) {
        Ok((_, ctx)) => {
            assert_eq!(
                ctx.query,
                Some(vec![
                    ("k1".to_string(), "v1".to_string()),
                    ("k2".to_string(), "v2".to_string())
                ])
            );
        }
        Err(_) => panic!("expected a match"),
    }
}

#[test]
fn later_query_value_wins() {
    let mut router = CanisterRouter::new();
    assert!(router.get("/search", Reply(200)).is_ok());
    match router.route(request("GET", "/search?a=1&b=2&a=3"), CallType::Query) {
        Ok((_, ctx)) => {
            assert_eq!(
                ctx.query,
                Some(vec![
                    ("a".to_string(), "3".to_string()),
                    ("b".to_string(), "2".to_string())
                ])
            );
        }
        Err(_) => panic!("expected a match"),
    }
}

#[test]
fn query_values_are_percent_decoded() {
    let mut router = CanisterRouter::new();
    assert!(router.get("/search", Reply(200)).is_ok());
    match router.route(request("GET", "/search?q=hello%20world&r=a+b&bad=%zz"), CallType::Query) {
        Ok((_, ctx)) => {
            assert_eq!(
                ctx.query,
                Some(vec![
                    ("q".to_string(), "hello world".to_string()),
                    ("r".to_string(), "a b".to_string()),
                    ("bad".to_string(), "%zz".to_string())
                ])
            );
        }
        Err(_) => panic!("expected a match"),
    }
}

#[test]
fn empty_query_is_present_but_empty() {
    let mut router = CanisterRouter::new();
    assert!(router.get("/search", Reply(200)).is_ok());
    match router.route(request("GET", "/search?"), CallType::Query) {
        Ok((_, ctx)) => assert_eq!(ctx.query, Some(vec![])),
        Err(_) => panic!("expected a match"),
    }
}

#[test]
fn path_stops_at_the_first_question_mark() {
    assert_eq!(path_of("/a/b?x=1?y=2"), "/a/b");
    assert_eq!(path_of("/a/b"), "/a/b");
    assert_eq!(path_of("?q"), "");
}

#[test]
fn too_many_parameters_are_refused() {
    let names: Vec<String> = (0..26).map(|i| format!("/{{p{}}}", i)).collect();
    let mut router = CanisterRouter::new();
    assert_eq!(
        router.get(&names.concat(), Reply(200)),
        Err(ConfigurationError::TooManyParameters)
    );
    assert!(router.get(&names[..25].concat(), Reply(200)).is_ok());
    let path: String = (0..25).map(|i| format!("/v{}", i)).collect();
    let routed = router.route(request("GET", &path), CallType::Query);
    match routed {
        Ok((_, ctx)) => assert_eq!(ctx.params.map(|p| p.len()), Some(25)),
        Err(_) => panic!("expected a match"),
    }
}

#[test]
fn failed_registration_leaves_routes_working() {
    let mut router = CanisterRouter::new();
    assert!(router.get("/{a}/b", Reply(200)).is_ok());
    assert!(router.get("/{a}x/{b}{c}", Reply(201)).is_err());
    assert_eq!(router.process(request("GET", "/ax/b"), CallType::Query).status_code, 200);
}

#[test]
fn fresh_static_pattern_is_registered() {
    let mut router = CanisterRouter::new();
    assert!(router.get("/{*rest}", Reply(200)).is_ok());
    assert!(router.get("/a", Reply(201)).is_ok());
    assert!(router.get("/a/b", Reply(202)).is_ok());
    assert!(router.get("/", Reply(203)).is_ok());
    assert_eq!(router.process(request("GET", "/a"), CallType::Query).status_code, 201);
    assert_eq!(router.process(request("GET", "/a/b"), CallType::Query).status_code, 202);
    assert_eq!(router.process(request("GET", "/zzz"), CallType::Query).status_code, 200);
    assert_eq!(router.process(request("GET", "/"), CallType::Query).status_code, 203);
}
