use std::sync::Arc;

use hello_api::{
    api_doc_path, route, serve_swagger, to_json_string, ApiDescription, Body, HttpResponse,
    JsonValue, Method, Route,
};
use utoipa_swagger_ui::Config;

fn fetch_asset(tail: &str) -> HttpResponse {
    let config = Arc::new(Config::from(api_doc_path()));
    serve_swagger(tail, &config)
}

#[test]
fn openapi_json_is_valid_and_lists_hello() {
    let doc = ApiDescription::new();
    let text = doc.to_json();
    let v: serde_json::Value = serde_json::from_str(&text).expect("the document parses as JSON");
    let paths = v.get("paths").and_then(|p| p.as_object()).expect("paths is an object");
    let keys: Vec<&String> = paths.keys().collect();
    assert_eq!(keys, vec!["/hello"]);
    assert!(paths.get("/hello").and_then(|i| i.get("post")).is_some());
    let schema = v
        .pointer("/components/schemas/InputParams")
        .expect("the input record's schema is declared");
    assert_eq!(schema.pointer("/properties/name/type").and_then(|t| t.as_str()), Some("string"));
    assert_eq!(schema.pointer("/properties/age/type").and_then(|t| t.as_str()), Some("integer"));
    assert_eq!(schema.pointer("/properties/age/maximum").and_then(|t| t.as_u64()), Some(255));
    assert_eq!(
        v.pointer("/components/securitySchemes/my_auth/type").and_then(|t| t.as_str()),
        Some("apiKey"),
    );
    assert!(v.pointer("/components/securitySchemes/api_oauth2_flow/flows/password").is_some());
    assert!(
        v.pointer("/components/securitySchemes/api_oauth2_flow/flows/authorizationCode").is_some(),
    );
    assert_eq!(v.get("openapi").and_then(|t| t.as_str()), Some("3.0.3"));
    // Serving the document twice yields byte-identical text.
    assert_eq!(text, ApiDescription::new().to_json());
}

#[test]
fn rendered_json_round_trips_through_a_parser() {
    let tricky = String::from("quote \" slash \\ newline \n tab \t bell \u{7} high \u{263a}");
    let value = JsonValue::Obj(vec![
        (String::from("text"), JsonValue::Str(tricky.clone())),
        (String::from("n"), JsonValue::UInt(18446744073709551615)),
        (
            String::from("items"),
            JsonValue::Arr(vec![JsonValue::Str(String::new()), JsonValue::UInt(0)]),
        ),
        (String::from("empty"), JsonValue::Obj(Vec::new())),
    ]);
    let text = to_json_string(&value);
    let v: serde_json::Value = serde_json::from_str(&text).expect("the rendering parses as JSON");
    assert_eq!(v.get("text").and_then(|t| t.as_str()), Some(tricky.as_str()));
    assert_eq!(v.get("n").and_then(|t| t.as_u64()), Some(18446744073709551615));
    assert_eq!(v.get("items").and_then(|t| t.as_array()).map(|a| a.len()), Some(2));
    assert!(v.get("empty").and_then(|t| t.as_object()).map(|o| o.is_empty()).unwrap_or(false));
}

#[test]
fn explorer_index_is_served_as_html() {
    let r = fetch_asset("index.html");
    assert_eq!(r.status, 200);
    assert!(r.content_type.expect("the asset has a content type").contains("html"));
}

#[test]
fn root_redirect_target_serves_200() {
    // Follow the redirect by hand: route its target, then look the
    // captured tail up in the asset bundle.
    let target = "/swagger/index.html";
    match route(&Method::Get, target) {
        Some(Route::SwaggerAsset(tail)) => {
            let r = fetch_asset(&tail);
            assert_eq!(r.status, 200);
            match r.body {
                Body::Bytes(b) => assert!(!b.is_empty()),
                Body::Text(_) => panic!("assets are bytes"),
            }
        },
        _ => panic!("the redirect target is routed to the explorer"),
    }
}

#[test]
fn unknown_explorer_asset_is_404() {
    let r = fetch_asset("__nonexistent__");
    assert_eq!(r.status, 404);
}

#[test]
fn repeating_an_asset_request_yields_identical_responses() {
    let a = fetch_asset("index.html");
    let b = fetch_asset("index.html");
    assert_eq!(a.status, b.status);
    assert_eq!(a.content_type, b.content_type);
    match (a.body, b.body) {
        (Body::Bytes(x), Body::Bytes(y)) => assert_eq!(x, y),
        _ => panic!("assets are bytes"),
    }
}

#[test]
fn security_flows_carry_urls_and_scopes() {
    let text = ApiDescription::new().to_json();
    let v: serde_json::Value = serde_json::from_str(&text).expect("the document parses as JSON");
    let pw = v
        .pointer("/components/securitySchemes/api_oauth2_flow/flows/password")
        .expect("the password flow is declared");
    assert_eq!(pw.get("tokenUrl").and_then(|t| t.as_str()), Some("https://localhost/oauth/token"));
    assert_eq!(
        pw.get("refreshUrl").and_then(|t| t.as_str()),
        Some("https://localhost/refresh/token"),
    );
    let pw_scopes = pw.get("scopes").and_then(|s| s.as_object()).expect("scopes are an object");
    let pw_keys: Vec<&String> = pw_scopes.keys().collect();
    assert_eq!(pw_keys, vec!["edit:items", "read:items"]);
    let ac = v
        .pointer("/components/securitySchemes/api_oauth2_flow/flows/authorizationCode")
        .expect("the authorization-code flow is declared");
    assert_eq!(
        ac.get("authorizationUrl").and_then(|t| t.as_str()),
        Some("https://accounts.google.com/o/oauth2/auth"),
    );
    assert_eq!(
        ac.get("tokenUrl").and_then(|t| t.as_str()),
        Some("https://oauth2.googleapis.com/token"),
    );
    let ac_scopes = ac.get("scopes").and_then(|s| s.as_object()).expect("scopes are an object");
    let ac_keys: Vec<&String> = ac_scopes.keys().collect();
    assert_eq!(
        ac_keys,
        vec![
            "https://www.googleapis.com/auth/cloud-platform",
            "https://www.googleapis.com/auth/userinfo.email",
            "https://www.googleapis.com/auth/userinfo.profile",
            "openid",
        ],
    );
}
