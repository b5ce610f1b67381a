use hello_api::{
    decimal_of, handle, hello, hello_response, ApiDescription, Action, AssetFile, AssetLookup,
    Body, HttpResponse, InputParams, Method, ParsingError, Route, route, swagger_asset_response,
};

fn body_text(r: &HttpResponse) -> String {
    match &r.body {
        Body::Text(s) => s.clone(),
        Body::Bytes(b) => String::from_utf8(b.clone()).unwrap(),
    }
}

/// What the framework collaborator does with a hello request body:
/// decode `{name, age}` with `age` confined to `u8`, or reject.
fn decode_body(body: &str) -> Option<InputParams> {
    let v: serde_json::Value = serde_json::from_str(body).ok()?;
    let name = v.get("name")?.as_str()?.to_string();
    let age = u8::try_from(v.get("age")?.as_u64()?).ok()?;
    Some(InputParams::new(name, age))
}

#[test]
fn hello_formats_the_greeting() {
    let p = InputParams::new(String::from("John"), 30);
    assert_eq!(hello(&p), "Hello John, age : 30!");
}

#[test]
fn hello_keeps_the_name_verbatim() {
    let p = InputParams::new(String::from("Ann O'Hara \"the 2nd\""), 7);
    assert_eq!(hello(&p), "Hello Ann O'Hara \"the 2nd\", age : 7!");
    let empty = InputParams::new(String::new(), 1);
    assert_eq!(hello(&empty), "Hello , age : 1!");
}

#[test]
fn hello_handles_edge_ages() {
    assert_eq!(hello(&InputParams::new(String::from("a"), 0)), "Hello a, age : 0!");
    assert_eq!(hello(&InputParams::new(String::from("a"), 255)), "Hello a, age : 255!");
}

#[test]
fn decimal_renders_exact_values() {
    let cases: Vec<(u64, &str)> = vec![
        (0, "0"),
        (7, "7"),
        (10, "10"),
        (42, "42"),
        (99, "99"),
        (100, "100"),
        (255, "255"),
        (1000, "1000"),
        (18446744073709551615, "18446744073709551615"),
    ];
    for (n, s) in cases {
        assert_eq!(decimal_of(n), s);
    }
}

#[test]
fn hello_response_is_200_plain_text() {
    let r = hello_response(&InputParams::new(String::from("John"), 30));
    assert_eq!(r.status, 200);
    assert_eq!(r.content_type.as_deref(), Some("text/plain; charset=utf-8"));
    assert_eq!(body_text(&r), "Hello John, age : 30!");
}

#[test]
fn route_table_matches_the_four_routes() {
    assert!(matches!(route(&Method::Get, "/"), Some(Route::Root)));
    assert!(matches!(route(&Method::Get, "/api-docs/openapi.json"), Some(Route::ApiDoc)));
    assert!(matches!(route(&Method::Post, "/hello"), Some(Route::Hello)));
    match route(&Method::Get, "/swagger/x/y.js") {
        Some(Route::SwaggerAsset(t)) => assert_eq!(t, "x/y.js"),
        other => panic!("wrong route: {:?}", other.is_some()),
    }
    assert!(route(&Method::Get, "/nope").is_none());
    assert!(route(&Method::Post, "/").is_none());
    assert!(route(&Method::Get, "/hello").is_none());
    assert!(route(&Method::Post, "/api-docs/openapi.json").is_none());
    assert!(route(&Method::Get, "/swagger").is_none());
}

#[test]
fn dispatcher_answers_each_route() {
    let doc = ApiDescription::new();
    match handle(&Method::Get, "/missing", None, &doc) {
        Action::Respond(r) => assert_eq!(r.status, 404),
        Action::ServeAsset(_) => panic!("not an asset route"),
    }
    match handle(&Method::Get, "/", None, &doc) {
        Action::Respond(r) => {
            assert_eq!(r.status, 303);
            assert_eq!(r.location.as_deref(), Some("/swagger/index.html"));
        },
        Action::ServeAsset(_) => panic!("not an asset route"),
    }
    match handle(&Method::Get, "/api-docs/openapi.json", None, &doc) {
        Action::Respond(r) => {
            assert_eq!(r.status, 200);
            assert_eq!(r.content_type.as_deref(), Some("application/json"));
            assert_eq!(body_text(&r), doc.to_json());
        },
        Action::ServeAsset(_) => panic!("not an asset route"),
    }
    match handle(&Method::Get, "/swagger/index.html", None, &doc) {
        Action::ServeAsset(t) => assert_eq!(t, "index.html"),
        Action::Respond(_) => panic!("asset routes are delegated"),
    }
}

#[test]
fn valid_hello_body_reaches_the_handler() {
    let doc = ApiDescription::new();
    let parsed = decode_body("{\"name\":\"John\",\"age\":30}");
    assert!(parsed.is_some());
    match handle(&Method::Post, "/hello", parsed, &doc) {
        Action::Respond(r) => {
            assert_eq!(r.status, 200);
            assert_eq!(body_text(&r), "Hello John, age : 30!");
        },
        Action::ServeAsset(_) => panic!("not an asset route"),
    }
}

#[test]
fn age_out_of_range_is_a_client_error() {
    let doc = ApiDescription::new();
    let parsed = decode_body("{\"name\":\"Ann\",\"age\":300}");
    assert!(parsed.is_none());
    match handle(&Method::Post, "/hello", parsed, &doc) {
        Action::Respond(r) => assert!((400..500).contains(&r.status)),
        Action::ServeAsset(_) => panic!("not an asset route"),
    }
}

#[test]
fn missing_name_and_bad_age_are_client_errors() {
    assert!(decode_body("{\"age\":30}").is_none());
    assert!(decode_body("{\"name\":\"a\",\"age\":-1}").is_none());
    assert!(decode_body("{\"name\":\"a\",\"age\":3.5}").is_none());
    assert!(decode_body("{\"name\":\"a\",\"age\":\"30\"}").is_none());
    assert!(decode_body("not json").is_none());
}

#[test]
fn repeating_a_get_yields_identical_responses() {
    let doc = ApiDescription::new();
    for path in ["/", "/api-docs/openapi.json", "/missing"] {
        let a = handle(&Method::Get, path, None, &doc);
        let b = handle(&Method::Get, path, None, &doc);
        match (a, b) {
            (Action::Respond(x), Action::Respond(y)) => {
                assert_eq!(x.status, y.status);
                assert_eq!(x.content_type, y.content_type);
                assert_eq!(x.location, y.location);
                assert_eq!(body_text(&x), body_text(&y));
            },
            _ => panic!("GET routes respond directly"),
        }
    }
}

#[test]
fn asset_outcomes_map_to_statuses() {
    let found = swagger_asset_response(
        AssetLookup::Found(
            AssetFile { bytes: vec![60, 104, 116, 109, 108, 62], content_type: String::from("text/html") },
        ),
    );
    assert_eq!(found.status, 200);
    assert_eq!(found.content_type.as_deref(), Some("text/html"));
    match &found.body {
        Body::Bytes(b) => assert_eq!(b, &vec![60, 104, 116, 109, 108, 62]),
        Body::Text(_) => panic!("assets are bytes"),
    }
    let missing = swagger_asset_response(AssetLookup::Missing);
    assert_eq!(missing.status, 404);
    let failed = swagger_asset_response(AssetLookup::Failed(String::from("boom")));
    assert_eq!(failed.status, 500);
    assert_eq!(body_text(&failed), "boom");
}

#[test]
fn parsing_error_reports_its_status() {
    let err = ParsingError::InternalServerError(String::from("broken"));
    assert_eq!(err.status(), 500);
    assert_eq!(err.message(), "broken");
    let ok = ParsingError::Success(String::from("fine"));
    assert_eq!(ok.status(), 200);
    assert_eq!(ok.message(), "fine");
}

#[test]
fn accessors_return_the_payload_fields() {
    let p = InputParams::new(String::from("Zoe"), 12);
    assert_eq!(p.name(), "Zoe");
    assert_eq!(p.age(), 12);
}
