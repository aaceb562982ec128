use webservice_rust_workshop::http::{Body, Method, Request, Response, StatusCode};
use webservice_rust_workshop::logger::Logger;
use webservice_rust_workshop::routing::Router;
use webservice_rust_workshop::service::Service;
use webservice_rust_workshop::{router, AppState};

fn ask(method: &str, path: &str) -> Request {
    Request::new(Method::from_name(method), path)
}

fn send(app: &Logger<Router>, state: &mut AppState, request: Request) -> Response {
    app.call(state, request).response
}

#[test]
fn hello_world() {
    let mut state = AppState::default();
    let app = router();

    let response = send(&app, &mut state, ask("GET", "/"));

    assert_eq!(response.status, StatusCode::Success);
    assert_eq!(response.status.as_u16(), 200);

    let body = response.body.to_bytes();
    assert_eq!(&body[..], b"<h1>Hello Axum</h1>");
}

#[test]
fn say_hi_unknown() {
    let mut state = AppState::default();
    let app = router();

    let response = send(&app, &mut state, ask("GET", "/hello"));

    assert_eq!(response.status, StatusCode::Success);

    let body = response.body.to_bytes();
    assert_eq!(&body[..], b"<h1>Hello Unknown Visitor</h1>");
}

#[test]
fn say_hi_stefan() {
    let mut state = AppState::default();
    let app = router();

    let response = send(&app, &mut state, ask("GET", "/hello").with_visitor_name("Stefan"));

    assert_eq!(response.status, StatusCode::Success);

    let body = response.body.to_bytes();
    assert_eq!(&body[..], b"<h1>Hello Stefan</h1>");
}

#[test]
fn no_auth() {
    let mut state = AppState::default();
    let app = router();

    let response = send(
        &app,
        &mut state,
        ask("POST", "/kv/test").with_body(b"Hello World".to_vec()),
    );
    assert_eq!(response.status, StatusCode::Success);

    let response = send(&app, &mut state, ask("GET", "/kv/test"));
    let body = response.body.to_bytes();
    assert_eq!(&body[..], b"Hello World");

    let response = send(&app, &mut state, ask("DELETE", "/admin/kv"));
    assert_eq!(response.status, StatusCode::Unauthorized);
    assert_eq!(response.status.as_u16(), 401);
}

#[test]
fn delete_entries() {
    let mut state = AppState::default();
    let app = router();

    let response = send(
        &app,
        &mut state,
        ask("POST", "/kv/test").with_body(b"Hello World".to_vec()),
    );
    assert_eq!(response.status, StatusCode::Success);

    let response = send(&app, &mut state, ask("GET", "/kv/test"));
    let body = response.body.to_bytes();
    assert_eq!(&body[..], b"Hello World");

    let response = send(
        &app,
        &mut state,
        ask("DELETE", "/admin/kv").with_authorization("Bearer secret"),
    );
    assert_eq!(response.status, StatusCode::Success);

    let response = send(&app, &mut state, ask("GET", "/kv/test"));
    assert_eq!(response.status, StatusCode::NotFound);
    assert_eq!(response.status.as_u16(), 404);
}

#[test]
fn delete_keys() {
    let mut state = AppState::default();
    let app = router();

    let response = send(
        &app,
        &mut state,
        ask("POST", "/kv/test").with_body(b"Hello World".to_vec()),
    );
    assert_eq!(response.status, StatusCode::Success);

    let response = send(&app, &mut state, ask("GET", "/kv/test"));
    let body = response.body.to_bytes();
    assert_eq!(&body[..], b"Hello World");

    let response = send(
        &app,
        &mut state,
        ask("DELETE", "/admin/kv/test").with_authorization("Bearer secret"),
    );
    assert_eq!(response.status, StatusCode::Success);

    let response = send(&app, &mut state, ask("GET", "/kv/test"));
    assert_eq!(response.status, StatusCode::NotFound);
}

#[test]
fn full_scenario_with_messages() {
    let mut state = AppState::new();
    let app = router();

    let response = send(
        &app,
        &mut state,
        ask("POST", "/kv/test").with_body(b"Hello World".to_vec()),
    );
    assert_eq!(response, Response { status: StatusCode::Success, body: Body::Text("Inserted key") });

    let response = send(&app, &mut state, ask("GET", "/kv/test"));
    assert_eq!(
        response,
        Response { status: StatusCode::Success, body: Body::Bytes(b"Hello World".to_vec()) }
    );

    let response = send(
        &app,
        &mut state,
        ask("DELETE", "/admin/kv/test").with_authorization("Bearer secret"),
    );
    assert_eq!(response, Response { status: StatusCode::Success, body: Body::Text("Deleted entry") });

    let response = send(&app, &mut state, ask("GET", "/kv/test"));
    assert_eq!(
        response,
        Response { status: StatusCode::NotFound, body: Body::Text("Key not found") }
    );
    assert_eq!(&response.body.to_bytes()[..], b"Key not found");
}

#[test]
fn round_trip_keeps_every_byte() {
    let mut state = AppState::new();
    let app = router();
    let values: Vec<Vec<u8>> = vec![
        Vec::new(),
        vec![0],
        vec![0xff, 0xfe, 0x00, 0x80],
        (0..=255).collect(),
        "snow \u{2603}".as_bytes().to_vec(),
    ];
    let keys = ["a", "key", "with space", "\u{e9}t\u{e9}", ":key", "a.b-c_d", "?"];
    for key in keys {
        for value in &values {
            let path = format!("/kv/{}", key);
            let response = send(&app, &mut state, ask("POST", &path).with_body(value.clone()));
            assert_eq!(response.status, StatusCode::Success);
            let response = send(&app, &mut state, ask("GET", &path));
            assert_eq!(response.status, StatusCode::Success);
            assert_eq!(response.body, Body::Bytes(value.clone()));
            assert_eq!(response.body.to_bytes(), *value);
        }
    }
}

#[test]
fn writing_again_replaces_the_value() {
    let mut state = AppState::new();
    let app = router();
    send(&app, &mut state, ask("POST", "/kv/k").with_body(b"one".to_vec()));
    send(&app, &mut state, ask("POST", "/kv/k").with_body(b"two".to_vec()));
    let response = send(&app, &mut state, ask("GET", "/kv/k"));
    assert_eq!(response.body, Body::Bytes(b"two".to_vec()));
}

#[test]
fn reading_a_key_never_written_is_not_found() {
    let mut state = AppState::new();
    let app = router();
    let response = send(&app, &mut state, ask("GET", "/kv/missing"));
    assert_eq!(response.status, StatusCode::NotFound);
    assert_eq!(response.body, Body::Text("Key not found"));

    send(&app, &mut state, ask("POST", "/kv/other").with_body(b"x".to_vec()));
    let response = send(&app, &mut state, ask("GET", "/kv/missing"));
    assert_eq!(response.status, StatusCode::NotFound);
}

#[test]
fn removing_without_the_token_changes_nothing() {
    let app = router();
    let headers: Vec<Option<&str>> = vec![
        None,
        Some(""),
        Some("secret"),
        Some("Bearer"),
        Some("Bearer "),
        Some("Bearer wrong"),
        Some("bearer secret"),
        Some("Bearer secret "),
        Some(" Bearer secret"),
        Some("Bearer  secret"),
        Some("Basic secret"),
    ];
    for header in headers {
        for path in ["/admin/kv/test", "/admin/kv"] {
            let mut state = AppState::new();
            send(&app, &mut state, ask("POST", "/kv/test").with_body(b"kept".to_vec()));
            let mut request = ask("DELETE", path);
            if let Some(value) = header {
                request = request.with_authorization(value);
            }
            let response = send(&app, &mut state, request);
            assert_eq!(response, Response { status: StatusCode::Unauthorized, body: Body::Empty });
            assert!(response.body.to_bytes().is_empty());
            let response = send(&app, &mut state, ask("GET", "/kv/test"));
            assert_eq!(response.body, Body::Bytes(b"kept".to_vec()));
        }
    }
}

#[test]
fn removing_a_key_that_holds_nothing_succeeds() {
    let mut state = AppState::new();
    let app = router();
    let response = send(
        &app,
        &mut state,
        ask("DELETE", "/admin/kv/ghost").with_authorization("Bearer secret"),
    );
    assert_eq!(response, Response { status: StatusCode::Success, body: Body::Text("Deleted entry") });
    let response = send(&app, &mut state, ask("GET", "/kv/ghost"));
    assert_eq!(response.status, StatusCode::NotFound);
}

#[test]
fn removing_one_key_leaves_the_others() {
    let mut state = AppState::new();
    let app = router();
    send(&app, &mut state, ask("POST", "/kv/a").with_body(b"1".to_vec()));
    send(&app, &mut state, ask("POST", "/kv/b").with_body(b"2".to_vec()));
    send(&app, &mut state, ask("DELETE", "/admin/kv/a").with_authorization("Bearer secret"));
    assert_eq!(send(&app, &mut state, ask("GET", "/kv/a")).status, StatusCode::NotFound);
    assert_eq!(send(&app, &mut state, ask("GET", "/kv/b")).body, Body::Bytes(b"2".to_vec()));
}

#[test]
fn wiping_empties_the_store() {
    let mut state = AppState::new();
    let app = router();
    let keys = ["a", "b", "c", "test"];
    for key in keys {
        let path = format!("/kv/{}", key);
        send(&app, &mut state, ask("POST", &path).with_body(key.as_bytes().to_vec()));
    }
    let response = send(
        &app,
        &mut state,
        ask("DELETE", "/admin/kv").with_authorization("Bearer secret"),
    );
    assert_eq!(
        response,
        Response { status: StatusCode::Success, body: Body::Text("Deleted all entries") }
    );
    for key in keys {
        let path = format!("/kv/{}", key);
        let response = send(&app, &mut state, ask("GET", &path));
        assert_eq!(response.status, StatusCode::NotFound);
    }
    let response = send(
        &app,
        &mut state,
        ask("DELETE", "/admin/kv").with_authorization("Bearer secret"),
    );
    assert_eq!(response.status, StatusCode::Success);
}

#[test]
fn writes_to_distinct_keys_do_not_disturb_each_other() {
    let app = router();
    for first_is_k1 in [true, false] {
        let mut state = AppState::new();
        let put1 = ask("POST", "/kv/k1").with_body(b"v1".to_vec());
        let put2 = ask("POST", "/kv/k2").with_body(b"v2".to_vec());
        let (a, b) = if first_is_k1 { (put1, put2) } else { (put2, put1) };
        assert_eq!(send(&app, &mut state, a).status, StatusCode::Success);
        assert_eq!(send(&app, &mut state, b).status, StatusCode::Success);
        assert_eq!(send(&app, &mut state, ask("GET", "/kv/k1")).body, Body::Bytes(b"v1".to_vec()));
        assert_eq!(send(&app, &mut state, ask("GET", "/kv/k2")).body, Body::Bytes(b"v2".to_vec()));
    }
}

#[test]
fn requests_that_no_route_takes_are_not_found() {
    let app = router();
    let cases = [
        ("GET", "/nope"),
        ("GET", ""),
        ("GET", "kv/test"),
        ("GET", "/kv"),
        ("GET", "/kv/"),
        ("GET", "/kv/a/b"),
        ("GET", "/kv/test/"),
        ("GET", "//kv/test"),
        ("GET", "/hello/"),
        ("GET", "/Hello"),
        ("GET", "/admin/kv"),
        ("GET", "/admin/kv/test"),
        ("POST", "/"),
        ("POST", "/hello"),
        ("PUT", "/kv/test"),
        ("DELETE", "/kv/test"),
        ("get", "/kv/test"),
        ("HEAD", "/"),
        ("DELETE", "/admin"),
        ("DELETE", "/admin/kv/"),
        ("DELETE", "/admin/kv/a/b"),
        ("POST", "/admin/kv"),
    ];
    for (method, path) in cases {
        let mut state = AppState::new();
        send(&app, &mut state, ask("POST", "/kv/test").with_body(b"kept".to_vec()));
        let request = ask(method, path).with_authorization("Bearer secret").with_body(b"x".to_vec());
        let response = send(&app, &mut state, request);
        assert_eq!(
            response,
            Response { status: StatusCode::NotFound, body: Body::Empty },
            "{} {}",
            method,
            path
        );
        assert_eq!(send(&app, &mut state, ask("GET", "/kv/test")).body, Body::Bytes(b"kept".to_vec()));
    }
}

#[test]
fn a_corrupted_store_fails_every_store_operation() {
    let app = router();
    let mut state = AppState::new();
    send(&app, &mut state, ask("POST", "/kv/test").with_body(b"lost".to_vec()));
    state.poison();
    assert!(state.is_corrupted());
    let corrupted =
        Response { status: StatusCode::InternalServerError, body: Body::Text("Database corrupted") };
    let requests = vec![
        ask("GET", "/kv/test"),
        ask("GET", "/kv/other"),
        ask("POST", "/kv/test").with_body(b"new".to_vec()),
        ask("DELETE", "/admin/kv/test").with_authorization("Bearer secret"),
        ask("DELETE", "/admin/kv").with_authorization("Bearer secret"),
        ask("GET", "/kv/test"),
    ];
    for request in requests {
        let response = send(&app, &mut state, request);
        assert_eq!(response, corrupted);
        assert_eq!(response.status.as_u16(), 500);
        assert!(state.is_corrupted());
    }
    assert_eq!(send(&app, &mut state, ask("GET", "/")).status, StatusCode::Success);
    assert_eq!(send(&app, &mut state, ask("DELETE", "/admin/kv")).status, StatusCode::Unauthorized);
}

#[test]
fn every_request_is_logged_once_with_method_and_path() {
    let app = router();
    let mut state = AppState::new();
    let cases = [
        ("GET", "/", "GET /"),
        ("POST", "/kv/test", "POST /kv/test"),
        ("DELETE", "/admin/kv", "DELETE /admin/kv"),
        ("PATCH", "/nowhere", "PATCH /nowhere"),
        ("GET", "", "GET "),
    ];
    for (method, path, line) in cases {
        let out = app.call(&mut state, ask(method, path));
        assert_eq!(out.log, vec![line.to_string()]);
        assert_eq!(Logger::<Router>::line(&ask(method, path)), line);
    }
}

#[test]
fn the_logger_hands_back_what_the_table_answers() {
    let app = router();
    let requests = vec![
        ask("POST", "/kv/a").with_body(b"1".to_vec()),
        ask("GET", "/kv/a"),
        ask("GET", "/kv/b"),
        ask("DELETE", "/admin/kv/a"),
        ask("GET", "/hello").with_visitor_name("Ada"),
        ask("GET", "/none"),
    ];
    let mut logged = AppState::new();
    let mut bare = AppState::new();
    for request in requests {
        let outer = app.call(&mut logged, request.clone());
        let inner = app.get_ref().call(&mut bare, request);
        assert_eq!(outer.response, inner.response);
        assert!(inner.log.is_empty());
        assert_eq!(outer.log.len(), 1);
    }
}

#[test]
fn the_greeting_is_markup() {
    let app = router();
    let mut state = AppState::new();
    let response = send(&app, &mut state, ask("GET", "/hello").with_visitor_name(""));
    assert_eq!(response.body, Body::Html("<h1>Hello </h1>".to_string()));
    let response = send(&app, &mut state, ask("GET", "/hello").with_visitor_name("<b>"));
    assert_eq!(response.body, Body::Html("<h1>Hello <b></h1>".to_string()));
    let response = send(&app, &mut state, ask("GET", "/"));
    assert_eq!(response.body, Body::Text("<h1>Hello Axum</h1>"));
}
