use webservice_rust_workshop::auth::RequireAuthorization;
use webservice_rust_workshop::http::{Body, Method, Request, Response, StatusCode};
use webservice_rust_workshop::pattern::PathParam;
use webservice_rust_workshop::routing::{BodyLimit, Endpoint, Handler, Router};
use webservice_rust_workshop::routes::{admin_routes, router, ADMIN_TOKEN};
use webservice_rust_workshop::service::{run_handler, take_key, Service};
use webservice_rust_workshop::store::AppState;

fn key_of(value: &str) -> Vec<PathParam> {
    vec![PathParam { name: "key".to_string(), value: value.to_string() }]
}

#[test]
fn the_table_has_six_routes() {
    let app = router();
    let table = app.get_ref();
    assert_eq!(table.len(), 6);
    assert_eq!(admin_routes().len(), 2);
    assert_eq!(Router::new().len(), 0);
    assert_eq!(ADMIN_TOKEN, "secret");
}

#[test]
fn requests_resolve_to_their_routes() {
    let app = router();
    let table = app.get_ref();
    let cases = [
        ("GET", "/", 0, Handler::HelloAxum),
        ("GET", "/hello", 1, Handler::Hello),
        ("GET", "/kv/test", 2, Handler::KvGet),
        ("POST", "/kv/test", 3, Handler::KvPost),
        ("DELETE", "/admin/kv", 4, Handler::AdminDelete),
        ("DELETE", "/admin/kv/test", 5, Handler::AdminDeleteKey),
    ];
    for (method, path, index, handler) in cases {
        let found = table.resolve(&Method::from_name(method), path).unwrap();
        assert_eq!(found.index, index);
        assert_eq!(found.endpoint.handler, handler);
        let keyed = matches!(handler, Handler::KvGet | Handler::KvPost | Handler::AdminDeleteKey);
        assert_eq!(found.params, if keyed { key_of("test") } else { vec![] });
    }
    assert!(table.resolve(&Method::get(), "/kv").is_none());
    assert!(table.resolve(&Method::get(), "kv/test").is_none());
    assert!(table.resolve(&Method::post(), "/admin/kv").is_none());
}

#[test]
fn only_the_write_route_lifts_the_body_cap() {
    let app = router();
    let table = app.get_ref();
    let cases = [
        ("GET", "/", BodyLimit::Capped),
        ("GET", "/hello", BodyLimit::Capped),
        ("GET", "/kv/test", BodyLimit::Capped),
        ("POST", "/kv/test", BodyLimit::Disabled),
        ("DELETE", "/admin/kv", BodyLimit::Capped),
        ("DELETE", "/admin/kv/test", BodyLimit::Capped),
    ];
    for (method, path, limit) in cases {
        let found = table.resolve(&Method::from_name(method), path).unwrap();
        assert_eq!(found.endpoint.body_limit, limit);
    }
    let mut state = AppState::new();
    let big = vec![7u8; 3 * 1024 * 1024];
    let request = Request::new(Method::post(), "/kv/big").with_body(big.clone());
    assert_eq!(app.call(&mut state, request).response.status, StatusCode::Success);
    assert_eq!(state.get("big"), Ok(big));
}

#[test]
fn only_admin_routes_are_guarded() {
    let app = router();
    let table = app.get_ref();
    let token = Some("Bearer secret".to_string());
    let wrong = Some("Bearer other".to_string());
    for index in 0..4 {
        assert!(table.admits(index, &None));
        assert!(table.admits(index, &wrong));
    }
    for index in 4..6 {
        assert!(!table.admits(index, &None));
        assert!(!table.admits(index, &wrong));
        assert!(table.admits(index, &token));
    }
    assert!(!table.admits(6, &token));
    assert!(!table.admits(usize::MAX, &None));
}

#[test]
fn the_first_route_that_matches_wins() {
    let table = Router::new()
        .route("/a/:x", Method::get(), Endpoint::new(Handler::KvGet))
        .route("/a/b", Method::get(), Endpoint::new(Handler::HelloAxum))
        .route("/a/b", Method::post(), Endpoint::new(Handler::Hello));
    let found = table.resolve(&Method::get(), "/a/b").unwrap();
    assert_eq!((found.index, found.endpoint.handler), (0, Handler::KvGet));
    assert_eq!(found.params, vec![PathParam { name: "x".to_string(), value: "b".to_string() }]);
    let found = table.resolve(&Method::post(), "/a/b").unwrap();
    assert_eq!((found.index, found.endpoint.handler), (2, Handler::Hello));
    assert!(table.resolve(&Method::delete(), "/a/b").is_none());
}

#[test]
fn nesting_puts_routes_under_the_prefix() {
    let sub = Router::new()
        .route("/kv", Method::delete(), Endpoint::new(Handler::AdminDelete))
        .route("/kv/:key", Method::delete(), Endpoint::new(Handler::AdminDeleteKey));
    let table = Router::new()
        .route("/kv", Method::delete(), Endpoint::new(Handler::HelloAxum))
        .nest("/x/y", sub);
    assert_eq!(table.len(), 3);
    assert_eq!(table.resolve(&Method::delete(), "/kv").unwrap().index, 0);
    assert_eq!(table.resolve(&Method::delete(), "/x/y/kv").unwrap().index, 1);
    let found = table.resolve(&Method::delete(), "/x/y/kv/k").unwrap();
    assert_eq!(found.index, 2);
    assert_eq!(found.params, key_of("k"));
    assert!(table.resolve(&Method::delete(), "/x/kv").is_none());
    assert!(table.resolve(&Method::delete(), "/kv/k").is_none());
}

#[test]
fn layers_guard_the_routes_that_are_there() {
    let table = Router::new()
        .route("/in", Method::get(), Endpoint::new(Handler::HelloAxum))
        .layer(RequireAuthorization::bearer("one"))
        .route("/out", Method::get(), Endpoint::new(Handler::HelloAxum));
    let mut state = AppState::new();
    let plain = Request::new(Method::get(), "/in");
    assert_eq!(table.call(&mut state, plain).response.status, StatusCode::Unauthorized);
    let with = Request::new(Method::get(), "/in").with_authorization("Bearer one");
    assert_eq!(table.call(&mut state, with).response.status, StatusCode::Success);
    let open = Request::new(Method::get(), "/out");
    assert_eq!(table.call(&mut state, open).response.status, StatusCode::Success);

    let twice = Router::new()
        .route("/in", Method::get(), Endpoint::new(Handler::HelloAxum))
        .layer(RequireAuthorization::bearer("one"))
        .layer(RequireAuthorization::bearer("two"));
    for header in ["Bearer one", "Bearer two"] {
        let request = Request::new(Method::get(), "/in").with_authorization(header);
        assert_eq!(twice.call(&mut state, request).response.status, StatusCode::Unauthorized);
    }
}

#[test]
fn bearer_checks_compare_the_whole_header() {
    let check = RequireAuthorization::bearer("secret");
    assert!(check.authorize(&Some("Bearer secret".to_string())));
    assert!(!check.authorize(&Some("Bearer secre".to_string())));
    assert!(!check.authorize(&Some("Bearer secrets".to_string())));
    assert!(!check.authorize(&Some("secret".to_string())));
    assert!(!check.authorize(&None));
    let empty = RequireAuthorization::bearer("");
    assert!(empty.authorize(&Some("Bearer ".to_string())));
    assert!(!empty.authorize(&Some("Bearer".to_string())));
    assert!(check.duplicate().authorize(&Some("Bearer secret".to_string())));
    assert_eq!(check.duplicate(), check);
}

#[test]
fn a_handler_that_needs_a_key_fails_on_a_route_without_one() {
    let failure = Response {
        status: StatusCode::InternalServerError,
        body: Body::Text("Internal Server Error"),
    };
    let table = Router::new()
        .route("/plain", Method::get(), Endpoint::new(Handler::KvGet))
        .route("/plain", Method::post(), Endpoint::new(Handler::KvPost))
        .route("/plain", Method::delete(), Endpoint::new(Handler::AdminDeleteKey))
        .route("/:a/:b", Method::get(), Endpoint::new(Handler::KvGet));
    let mut state = AppState::new();
    state.put("plain".to_string(), vec![1]).unwrap();
    for (method, path) in [("GET", "/plain"), ("POST", "/plain"), ("DELETE", "/plain"), ("GET", "/x/y")] {
        let request = Request::new(Method::from_name(method), path);
        assert_eq!(table.call(&mut state, request).response, failure);
    }
    assert_eq!(state.get("plain"), Ok(vec![1]));
    assert_eq!(take_key(vec![]), None);
    assert_eq!(take_key(key_of("k")), Some("k".to_string()));
    let mut two = key_of("a");
    two.extend(key_of("b"));
    assert_eq!(take_key(two), None);
}

#[test]
fn handlers_run_on_the_bound_key() {
    let mut state = AppState::new();
    let request = Request::new(Method::post(), "/ignored").with_body(vec![5, 6]);
    let response = run_handler(Handler::KvPost, key_of("k"), &mut state, request);
    assert_eq!(response, Response { status: StatusCode::Success, body: Body::Text("Inserted key") });
    assert_eq!(state.get("k"), Ok(vec![5, 6]));
    let request = Request::new(Method::get(), "/ignored");
    let response = run_handler(Handler::KvGet, key_of("k"), &mut state, request);
    assert_eq!(response, Response { status: StatusCode::Success, body: Body::Bytes(vec![5, 6]) });
    let request = Request::new(Method::delete(), "/ignored");
    let response = run_handler(Handler::AdminDeleteKey, key_of("k"), &mut state, request);
    assert_eq!(response, Response { status: StatusCode::Success, body: Body::Text("Deleted entry") });
    assert!(state.get("k").is_err());
}
