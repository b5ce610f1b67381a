use vstd::prelude::*;

mod input;
mod json;
mod openapi;
mod router;
mod service;
mod text;

pub use input::{hello, hello_message, InputParams, InputParamsModel, ParsingError};
pub use json::{
    append_json, emit_entries, emit_entry, emit_items, emit_of, esc, esc_char, get,
    lemma_obj_get_at, obj_get, obj_keys, to_json_string, JsonValue,
};
pub use openapi::{
    api_doc_path, doc_ok, has_type, input_schema_ok, is_str, security_schemes_ok, ApiDescription,
};
pub use router::{route, spec_route, swagger_prefix, Method, Route, RouteModel};
pub use service::{
    api_doc_response, bad_request_response, bundle_lookup, handle, hello_response,
    lemma_api_doc_served,
    lemma_doc_consistent_with_routes, lemma_get_ignores_body, lemma_hello_ok,
    lemma_redirect_target_routed, lemma_undecoded_hello_is_client_error, not_found_response,
    parsed_model, root_redirect_response, spec_api_doc_response, spec_asset_response,
    spec_bad_request_response, spec_handle, spec_hello_response, spec_not_found_response,
    spec_redirect_response, serve_swagger, swagger_asset_response, Action, ActionModel, AssetFile,
    AssetLookup, AssetLookupModel, Body, BodyModel, HttpResponse, HttpResponseModel,
};
pub use text::{dec_of, decimal_of};
