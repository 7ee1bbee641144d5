use hello_tide::{
    greet, greet_json, push_decimal, reads_body, respond, route, Endpoint, Greeting, Method,
    Response, METHOD_NOT_ALLOWED, NOT_FOUND, OK, UNPROCESSABLE_ENTITY,
};

fn get(path: &str) -> Response {
    respond(&route(Method::Get, path), None)
}

fn post_json(path: &str, body: Option<Greeting>) -> Response {
    respond(&route(Method::Post, path), body)
}

fn decimal_text(n: u16) -> String {
    let mut s = String::new();
    push_decimal(&mut s, n);
    s
}

#[test]
fn test_default_get() {
    assert_eq!(get("/hello").body, "Hello, world!\n")
}

#[test]
fn test_named_get() {
    assert_eq!(get("/hello/Fred").body, "Hello, Fred!\n")
}

#[test]
fn test_json_post() {
    assert_eq!(
        post_json(
            "/hello_json",
            Some(Greeting::new("Barney".to_string(), 79))
        )
        .body,
        "Hello, Barney!, you appear to be 79\n"
    )
}

#[test]
fn default_get_is_ok() {
    let r = get("/hello");
    assert_eq!(r.status, 200);
    assert_eq!(r.status, OK);
    assert_eq!(r.body, "Hello, world!\n");
}

#[test]
fn named_get_keeps_printable_token() {
    let r = get("/hello/a-b_c.~!$'()*+,;=:@");
    assert_eq!(r.status, 200);
    assert_eq!(r.body, "Hello, a-b_c.~!$'()*+,;=:@!\n");
}

#[test]
fn named_get_route_carries_name() {
    assert_eq!(
        route(Method::Get, "/hello/Wilma"),
        Endpoint::HelloName("Wilma".to_string())
    );
}

#[test]
fn head_is_answered_as_get() {
    let r = respond(&route(Method::Head, "/hello/Dino"), None);
    assert_eq!(r.status, 200);
    assert_eq!(r.body, "Hello, Dino!\n");
}

#[test]
fn json_post_zero_and_largest_age() {
    assert_eq!(
        post_json("/hello_json", Some(Greeting::new("Pebbles".to_string(), 0))).body,
        "Hello, Pebbles!, you appear to be 0\n"
    );
    assert_eq!(
        post_json("/hello_json", Some(Greeting::new(String::new(), 65535))).body,
        "Hello, !, you appear to be 65535\n"
    );
}

#[test]
fn json_post_without_payload_is_client_error() {
    let r = post_json("/hello_json", None);
    assert_eq!(r.status, UNPROCESSABLE_ENTITY);
    assert!(r.status >= 400 && r.status < 500);
    assert_eq!(r.body, "");
}

#[test]
fn unregistered_path_is_not_found() {
    let r = get("/nonexistent");
    assert_eq!(r.status, NOT_FOUND);
    assert_eq!(r.status, 404);
    assert_eq!(r.body, "");
    assert_eq!(post_json("/nonexistent", None).status, 404);
    assert_eq!(respond(&route(Method::Other, "/"), None).status, 404);
}

#[test]
fn name_segment_must_be_one_nonempty_segment() {
    assert_eq!(route(Method::Get, "/hello/"), Endpoint::NotFound);
    assert_eq!(route(Method::Get, "/hello/a/b"), Endpoint::NotFound);
    assert_eq!(route(Method::Get, "/hello/Fred/"), Endpoint::NotFound);
    assert_eq!(route(Method::Get, "/hellox"), Endpoint::NotFound);
    assert_eq!(route(Method::Get, ""), Endpoint::NotFound);
}

#[test]
fn wrong_method_is_not_allowed() {
    assert_eq!(post_json("/hello", None).status, METHOD_NOT_ALLOWED);
    assert_eq!(post_json("/hello/Fred", None).status, 405);
    assert_eq!(get("/hello_json").status, 405);
    assert_eq!(respond(&route(Method::Other, "/hello"), None).status, 405);
    assert_eq!(route(Method::Head, "/hello_json"), Endpoint::MethodNotAllowed);
}

#[test]
fn only_json_endpoint_reads_body() {
    assert!(reads_body(&route(Method::Post, "/hello_json")));
    assert!(!reads_body(&route(Method::Get, "/hello")));
    assert!(!reads_body(&route(Method::Get, "/hello/Fred")));
    assert!(!reads_body(&route(Method::Post, "/nonexistent")));
}

#[test]
fn repeated_requests_get_identical_answers() {
    let first = get("/hello/Fred");
    for _ in 0..5 {
        assert_eq!(get("/hello/Fred"), first);
    }
    let json = post_json("/hello_json", Some(Greeting::new("Barney".to_string(), 79)));
    for _ in 0..5 {
        let again = post_json("/hello_json", Some(Greeting::new("Barney".to_string(), 79)));
        assert_eq!(again, json);
    }
    let bad = post_json("/hello_json", None);
    assert_eq!(post_json("/hello_json", None), bad);
}

#[test]
fn greet_defaults_to_world() {
    assert_eq!(greet(None), "Hello, world!\n");
    assert_eq!(greet(Some("")), "Hello, !\n");
    assert_eq!(greet(Some("Bamm-Bamm")), "Hello, Bamm-Bamm!\n");
}

#[test]
fn greet_json_formats_age_in_base_ten() {
    let g = Greeting::new("Betty".to_string(), 1007);
    assert_eq!(greet_json(&g), "Hello, Betty!, you appear to be 1007\n");
}

#[test]
fn decimal_digits() {
    assert_eq!(decimal_text(0), "0");
    assert_eq!(decimal_text(9), "9");
    assert_eq!(decimal_text(10), "10");
    assert_eq!(decimal_text(100), "100");
    assert_eq!(decimal_text(4096), "4096");
    assert_eq!(decimal_text(u16::MAX), "65535");
    let mut s = "age ".to_string();
    push_decimal(&mut s, 42);
    assert_eq!(s, "age 42");
}
