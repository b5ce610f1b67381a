//! Responses, the request dispatcher, and the laws the service obeys.
//!
//! Every handler's response is pinned by a spec function of the request
//! alone; the process keeps no mutable state, so repeating a request
//! cannot change the answer.

use std::sync::Arc;

use vstd::prelude::*;
use crate::input::{hello, hello_message, InputParams, InputParamsModel};
use crate::json::{emit_of, get, obj_keys, JsonValue};
use crate::openapi::{doc_ok, ApiDescription};
use crate::router::{route, spec_route, Method, Route, RouteModel};
use utoipa_swagger_ui::Config;

verus! {

#[verifier::external_type_specification]
#[verifier::external_body]
pub struct ExConfig<'a>(Config<'a>);

/// A response body: text, or raw asset bytes.
pub enum Body {
    Text(String),
    Bytes(Vec<u8>),
}

/// The mathematical content of a `Body`.
pub enum BodyModel {
    Text(Seq<char>),
    Bytes(Seq<u8>),
}

impl View for Body {
    type V = BodyModel;

    open spec fn view(&self) -> BodyModel {
        match self {
            Body::Text(s) => BodyModel::Text(s@),
            Body::Bytes(b) => BodyModel::Bytes(b@),
        }
    }
}

/// One HTTP response: a status, an optional content type, an optional
/// redirect target, and a body.
pub struct HttpResponse {
    pub status: u16,
    pub content_type: Option<String>,
    pub location: Option<String>,
    pub body: Body,
}

/// The mathematical content of an `HttpResponse`.
pub struct HttpResponseModel {
    pub status: u16,
    pub content_type: Option<Seq<char>>,
    pub location: Option<Seq<char>>,
    pub body: BodyModel,
}

impl View for HttpResponse {
    type V = HttpResponseModel;

    open spec fn view(&self) -> HttpResponseModel {
        HttpResponseModel {
            status: self.status,
            content_type: match self.content_type {
                Some(s) => Some(s@),
                None => None,
            },
            location: match self.location {
                Some(s) => Some(s@),
                None => None,
            },
            body: self.body@,
        }
    }
}

/// One explorer asset as the asset bundle hands it out.
pub struct AssetFile {
    pub bytes: Vec<u8>,
    pub content_type: String,
}

/// The outcome of asking the asset bundle for a sub-path.
pub enum AssetLookup {
    Found(AssetFile),
    Missing,
    Failed(String),
}

/// The mathematical content of an `AssetLookup`.
pub enum AssetLookupModel {
    Found(Seq<u8>, Seq<char>),
    Missing,
    Failed(Seq<char>),
}

impl View for AssetLookup {
    type V = AssetLookupModel;

    open spec fn view(&self) -> AssetLookupModel {
        match self {
            AssetLookup::Found(f) => AssetLookupModel::Found(f.bytes@, f.content_type@),
            AssetLookup::Missing => AssetLookupModel::Missing,
            AssetLookup::Failed(e) => AssetLookupModel::Failed(e@),
        }
    }
}

/// The response owed to a decoded hello payload.
pub open spec fn spec_hello_response(p: InputParamsModel) -> HttpResponseModel {
    HttpResponseModel {
        status: 200,
        content_type: Some("text/plain; charset=utf-8"@),
        location: None,
        body: BodyModel::Text(hello_message(p)),
    }
}

/// The response owed when a hello body did not decode: a client error,
/// reported before any handler runs.
pub open spec fn spec_bad_request_response() -> HttpResponseModel {
    HttpResponseModel {
        status: 400,
        content_type: None,
        location: None,
        body: BodyModel::Text(Seq::empty()),
    }
}

/// The response owed to an unmatched path.
pub open spec fn spec_not_found_response() -> HttpResponseModel {
    HttpResponseModel {
        status: 404,
        content_type: None,
        location: None,
        body: BodyModel::Text(Seq::empty()),
    }
}

/// The response owed to the description endpoint: the document's
/// rendering, as JSON.
pub open spec fn spec_api_doc_response(doc: JsonValue) -> HttpResponseModel {
    HttpResponseModel {
        status: 200,
        content_type: Some("application/json"@),
        location: None,
        body: BodyModel::Text(emit_of(doc)),
    }
}

/// The response owed to the root path: a redirect to the explorer's
/// index asset.
pub open spec fn spec_redirect_response() -> HttpResponseModel {
    HttpResponseModel {
        status: 303,
        content_type: None,
        location: Some("/swagger/index.html"@),
        body: BodyModel::Text(Seq::empty()),
    }
}

/// The response owed for each asset-lookup outcome: the asset with its
/// own content type, a bare not-found, or the error text under 500.
pub open spec fn spec_asset_response(a: AssetLookupModel) -> HttpResponseModel {
    match a {
        AssetLookupModel::Found(bytes, content_type) => HttpResponseModel {
            status: 200,
            content_type: Some(content_type),
            location: None,
            body: BodyModel::Bytes(bytes),
        },
        AssetLookupModel::Missing => spec_not_found_response(),
        AssetLookupModel::Failed(e) => HttpResponseModel {
            status: 500,
            content_type: None,
            location: None,
            body: BodyModel::Text(e),
        },
    }
}

pub fn hello_response(input: &InputParams) -> (r: HttpResponse)
    ensures
        r@ == spec_hello_response(input@),
{
    HttpResponse {
        status: 200,
        content_type: Some(String::from_str("text/plain; charset=utf-8")),
        location: None,
        body: Body::Text(hello(input)),
    }
}

pub fn bad_request_response() -> (r: HttpResponse)
    ensures
        r@ == spec_bad_request_response(),
{
    let r = HttpResponse { status: 400, content_type: None, location: None, body: Body::Text(
        String::new(),
    ) };
    r
}

pub fn not_found_response() -> (r: HttpResponse)
    ensures
        r@ == spec_not_found_response(),
{
    let r = HttpResponse { status: 404, content_type: None, location: None, body: Body::Text(
        String::new(),
    ) };
    r
}

pub fn api_doc_response(doc: &ApiDescription) -> (r: HttpResponse)
    ensures
        r@ == spec_api_doc_response(doc.doc_spec()),
{
    HttpResponse {
        status: 200,
        content_type: Some(String::from_str("application/json")),
        location: None,
        body: Body::Text(doc.to_json()),
    }
}

pub fn root_redirect_response() -> (r: HttpResponse)
    ensures
        r@ == spec_redirect_response(),
{
    HttpResponse {
        status: 303,
        content_type: None,
        location: Some(String::from_str("/swagger/index.html")),
        body: Body::Text(String::new()),
    }
}

pub fn swagger_asset_response(lookup: AssetLookup) -> (r: HttpResponse)
    ensures
        r@ == spec_asset_response(lookup@),
{
    match lookup {
        AssetLookup::Found(f) => HttpResponse {
            status: 200,
            content_type: Some(f.content_type),
            location: None,
            body: Body::Bytes(f.bytes),
        },
        AssetLookup::Missing => not_found_response(),
        AssetLookup::Failed(e) => HttpResponse {
            status: 500,
            content_type: None,
            location: None,
            body: Body::Text(e),
        },
    }
}

/// What the bundled explorer holds for a sub-path: the asset and its
/// content type, nothing, or an error. A name, not a definition: the
/// bundle's asset table is the outside crate's own.
pub uninterp spec fn bundle_lookup(tail: Seq<char>) -> AssetLookupModel;

/// Relies on utoipa_swagger_ui::serve: it resolves a sub-path against
/// a fixed embedded asset table, so for every file but the
/// configuration-dependent initializer script the outcome is a
/// function of the sub-path alone, here named `bundle_lookup`.
#[verifier::external_body]
fn serve_from_bundle(tail: &str, config: &Arc<Config<'static>>) -> (r: AssetLookup)
    ensures
        tail@ != "swagger-initializer.js"@ ==> r@ == bundle_lookup(tail@),
{
    match utoipa_swagger_ui::serve(tail, (*config).clone()) {
        Ok(Some(file)) => AssetLookup::Found(AssetFile {
            bytes: file.bytes.to_vec(),
            content_type: file.content_type,
        }),
        Ok(None) => AssetLookup::Missing,
        Err(error) => AssetLookup::Failed(error.to_string()),
    }
}

/// Serves one explorer asset: looks the sub-path up in the bundled
/// explorer, then answers exactly as `spec_asset_response` owes for
/// what the bundle holds there. Equal sub-paths therefore get equal
/// answers; only the initializer script, which the explorer rewrites
/// from its configuration, is pinned no further than its shape.
pub fn serve_swagger(tail: &str, config: &Arc<Config<'static>>) -> (r: HttpResponse)
    ensures
        tail@ != "swagger-initializer.js"@ ==> r@ == spec_asset_response(bundle_lookup(tail@)),
        exists|a: AssetLookupModel| r@ == spec_asset_response(a),
{
    let lookup = serve_from_bundle(tail, config);
    let r = swagger_asset_response(lookup);
    proof {
        assert(r@ == spec_asset_response(lookup@));
    }
    r
}

/// What the service does with one request: answer it outright, or hand
/// the captured sub-path to the asset bundle, whose outcome then goes
/// through `swagger_asset_response`.
pub enum Action {
    Respond(HttpResponse),
    ServeAsset(String),
}

/// The mathematical content of an `Action`.
pub enum ActionModel {
    Respond(HttpResponseModel),
    ServeAsset(Seq<char>),
}

impl View for Action {
    type V = ActionModel;

    open spec fn view(&self) -> ActionModel {
        match self {
            Action::Respond(r) => ActionModel::Respond(r@),
            Action::ServeAsset(t) => ActionModel::ServeAsset(t@),
        }
    }
}

/// The decoded hello payload, if the body decoded.
pub open spec fn parsed_model(p: Option<InputParams>) -> Option<InputParamsModel> {
    match p {
        Some(x) => Some(x@),
        None => None,
    }
}

/// The whole service as a function of the request: what each route
/// answers, for every method, path, and body-decoding outcome.
pub open spec fn spec_handle(
    m: Method,
    path: Seq<char>,
    parsed: Option<InputParamsModel>,
    doc: JsonValue,
) -> ActionModel {
    match spec_route(m, path) {
        None => ActionModel::Respond(spec_not_found_response()),
        Some(RouteModel::Root) => ActionModel::Respond(spec_redirect_response()),
        Some(RouteModel::ApiDoc) => ActionModel::Respond(spec_api_doc_response(doc)),
        Some(RouteModel::SwaggerAsset(t)) => ActionModel::ServeAsset(t),
        Some(RouteModel::Hello) => match parsed {
            Some(p) => ActionModel::Respond(spec_hello_response(p)),
            None => ActionModel::Respond(spec_bad_request_response()),
        },
    }
}

/// Dispatches one request. `parsed` is the framework's body-decoding
/// outcome, meaningful only for the hello route.
pub fn handle(m: &Method, path: &str, parsed: Option<InputParams>, doc: &ApiDescription) -> (r:
    Action)
    ensures
        r@ == spec_handle(*m, path@, parsed_model(parsed), doc.doc_spec()),
{
    match route(m, path) {
        None => Action::Respond(not_found_response()),
        Some(Route::Root) => Action::Respond(root_redirect_response()),
        Some(Route::ApiDoc) => Action::Respond(api_doc_response(doc)),
        Some(Route::SwaggerAsset(t)) => Action::ServeAsset(t),
        Some(Route::Hello) => match parsed {
            Some(p) => Action::Respond(hello_response(&p)),
            None => Action::Respond(bad_request_response()),
        },
    }
}

/// Law: a decoded hello payload is answered 200 with exactly the
/// greeting text, whatever the name and age.
pub proof fn lemma_hello_ok(p: InputParamsModel, doc: JsonValue)
    ensures
        spec_handle(Method::Post, "/hello"@, Some(p), doc) == ActionModel::Respond(
            spec_hello_response(p),
        ),
        spec_hello_response(p).status == 200,
        spec_hello_response(p).body == BodyModel::Text(hello_message(p)),
{
}

/// Law: a hello request whose body did not decode as a name with an
/// eight-bit age is answered with a client error; no handler sees it.
/// A decoded payload carries an age within the range by its type.
pub proof fn lemma_undecoded_hello_is_client_error(doc: JsonValue)
    ensures
        (spec_handle(Method::Post, "/hello"@, None, doc) matches ActionModel::Respond(r)
            && 400 <= r.status < 500),
{
}

/// Law: the description endpoint answers 200 with the rendering of the
/// description document, whatever body came along.
pub proof fn lemma_api_doc_served(parsed: Option<InputParamsModel>, doc: JsonValue)
    ensures
        spec_handle(Method::Get, "/api-docs/openapi.json"@, parsed, doc) == ActionModel::Respond(
            spec_api_doc_response(doc),
        ),
{
    reveal_strlit("/");
    reveal_strlit("/api-docs/openapi.json");
    assert("/api-docs/openapi.json"@.len() == 22 && "/"@.len() == 1);
    assert("/api-docs/openapi.json"@ != "/"@);
    assert(spec_route(Method::Get, "/api-docs/openapi.json"@) == Some(RouteModel::ApiDoc));
}

/// Law: no route reads anything but the method, the path and the
/// decoded body, and no route but hello reads the body; repeating a
/// request cannot change the answer.
pub proof fn lemma_get_ignores_body(
    m: Method,
    path: Seq<char>,
    first: Option<InputParamsModel>,
    second: Option<InputParamsModel>,
    doc: JsonValue,
)
    requires
        m is Get,
    ensures
        spec_handle(m, path, first, doc) == spec_handle(m, path, second, doc),
{
}

/// Law: the root redirect aims at a path the route table itself
/// serves, the explorer's index asset.
pub proof fn lemma_redirect_target_routed(parsed: Option<InputParamsModel>, doc: JsonValue)
    ensures
        (spec_handle(Method::Get, "/"@, parsed, doc) matches ActionModel::Respond(r) && r.status
            == 303 && r.location == Some("/swagger/index.html"@)),
        spec_route(Method::Get, "/swagger/index.html"@) == Some(
            RouteModel::SwaggerAsset("index.html"@),
        ),
{
    reveal_strlit("/");
    reveal_strlit("/swagger/index.html");
    reveal_strlit("/api-docs/openapi.json");
    reveal_strlit("/swagger/");
    reveal_strlit("index.html");
    assert("/swagger/"@.is_prefix_of("/swagger/index.html"@)) by {
        assert("/swagger/"@ =~= "/swagger/index.html"@.subrange(0, 9));
    }
    assert("/swagger/index.html"@.skip(9) =~= "index.html"@);
}

/// Law: every path the description document lists is served by the
/// route table, by POST, as the hello route.
pub proof fn lemma_doc_consistent_with_routes(d: JsonValue)
    requires
        doc_ok(d),
    ensures
        (get(d, "paths"@) matches Some(p) && forall|i: int|
            0 <= i < obj_keys(p).len() ==> spec_route(Method::Post, obj_keys(p)[i]) == Some(
                RouteModel::Hello,
            )),
{
    let p = get(d, "paths"@)->0;
    assert(obj_keys(p) == seq!["/hello"@]);
    assert(obj_keys(p)[0] == "/hello"@);
    assert(spec_route(Method::Post, "/hello"@) == Some(RouteModel::Hello));
}

} // verus!
