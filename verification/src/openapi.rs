//! The API description document: a static JSON document, built once at
//! startup, that lists the service's routes, the input record's schema,
//! and the advertised (documentation-only) security schemes.

use vstd::prelude::*;
use crate::json::{emit_of, get, lemma_obj_get_at, obj_keys, to_json_string, JsonValue};

verus! {

/// Whether `v` is the JSON string `s`.
pub open spec fn is_str(v: JsonValue, s: Seq<char>) -> bool {
    match v {
        JsonValue::Str(x) => x@ == s,
        _ => false,
    }
}

/// Whether `v` is an object whose `type` member is the string `t`.
pub open spec fn has_type(v: JsonValue, t: Seq<char>) -> bool {
    match get(v, "type"@) {
        Some(x) => is_str(x, t),
        None => false,
    }
}

/// The input record's schema: an object with a string `name` and an
/// integer `age`.
pub open spec fn input_schema_ok(s: JsonValue) -> bool {
    has_type(s, "object"@) && match get(s, "properties"@) {
        Some(ps) => (match get(ps, "name"@) {
            Some(n) => has_type(n, "string"@),
            None => false,
        }) && (match get(ps, "age"@) {
            Some(a) => has_type(a, "integer"@),
            None => false,
        }),
        None => false,
    }
}

/// The password flow: its token and refresh endpoints, and its two
/// item scopes.
pub open spec fn password_flow_ok(f: JsonValue) -> bool {
    (match get(f, "tokenUrl"@) {
        Some(u) => is_str(u, "https://localhost/oauth/token"@),
        None => false,
    }) && (match get(f, "refreshUrl"@) {
        Some(u) => is_str(u, "https://localhost/refresh/token"@),
        None => false,
    }) && (match get(f, "scopes"@) {
        Some(s) => obj_keys(s) == seq!["edit:items"@, "read:items"@],
        None => false,
    })
}

/// The authorization-code flow: its authorization and token endpoints,
/// and its four scopes, `openid` included.
pub open spec fn auth_code_flow_ok(f: JsonValue) -> bool {
    (match get(f, "authorizationUrl"@) {
        Some(u) => is_str(u, "https://accounts.google.com/o/oauth2/auth"@),
        None => false,
    }) && (match get(f, "tokenUrl"@) {
        Some(u) => is_str(u, "https://oauth2.googleapis.com/token"@),
        None => false,
    }) && (match get(f, "scopes"@) {
        Some(s) => obj_keys(s) == seq![
            "https://www.googleapis.com/auth/cloud-platform"@,
            "https://www.googleapis.com/auth/userinfo.email"@,
            "https://www.googleapis.com/auth/userinfo.profile"@,
            "openid"@,
        ],
        None => false,
    })
}

/// The advertised security schemes: an API-key scheme, and an OAuth2
/// scheme whose password and authorization-code flows carry their
/// endpoint URLs and named scope sets.
pub open spec fn security_schemes_ok(ss: JsonValue) -> bool {
    (match get(ss, "my_auth"@) {
        Some(m) => has_type(m, "apiKey"@),
        None => false,
    }) && (match get(ss, "api_oauth2_flow"@) {
        Some(o) => has_type(o, "oauth2"@) && (match get(o, "flows"@) {
            Some(f) => (match get(f, "password"@) {
                Some(pw) => password_flow_ok(pw),
                None => false,
            }) && (match get(f, "authorizationCode"@) {
                Some(ac) => auth_code_flow_ok(ac),
                None => false,
            }),
            None => false,
        }),
        None => false,
    })
}

/// The shape the description document promises: the documented path set
/// is exactly the hello route, reached by POST; the components carry
/// the input record's schema and the security schemes.
pub open spec fn doc_ok(d: JsonValue) -> bool {
    (match get(d, "openapi"@) {
        Some(v) => is_str(v, "3.0.3"@),
        None => false,
    }) && (match get(d, "paths"@) {
        Some(p) => obj_keys(p) == seq!["/hello"@] && (match get(p, "/hello"@) {
            Some(item) => get(item, "post"@) is Some,
            None => false,
        }),
        None => false,
    }) && (match get(d, "components"@) {
        Some(c) => (match get(c, "schemas"@) {
            Some(s) => (match get(s, "InputParams"@) {
                Some(i) => input_schema_ok(i),
                None => false,
            }),
            None => false,
        }) && (match get(c, "securitySchemes"@) {
            Some(ss) => security_schemes_ok(ss),
            None => false,
        }),
        None => false,
    })
}

/// The immutable description document, built once at startup.
pub struct ApiDescription {
    doc: JsonValue,
}

fn jstr(s: &str) -> (r: JsonValue)
    ensures
        r matches JsonValue::Str(x) && x@ == s@,
{
    JsonValue::Str(String::from_str(s))
}

fn ent(k: &str, v: JsonValue) -> (r: (String, JsonValue))
    ensures
        r.0@ == k@,
        r.1 == v,
{
    (String::from_str(k), v)
}

fn input_params_schema() -> (r: JsonValue)
    ensures
        input_schema_ok(r),
{
    let mut name_s: Vec<(String, JsonValue)> = Vec::new();
    name_s.push(ent("type", jstr("string")));
    let name_schema = JsonValue::Obj(name_s);
    let ghost g_name = name_schema;

    let mut age_s: Vec<(String, JsonValue)> = Vec::new();
    age_s.push(ent("type", jstr("integer")));
    age_s.push(ent("minimum", JsonValue::UInt(0)));
    age_s.push(ent("maximum", JsonValue::UInt(255)));
    let age_schema = JsonValue::Obj(age_s);
    let ghost g_age = age_schema;

    let mut req: Vec<JsonValue> = Vec::new();
    req.push(jstr("name"));
    req.push(jstr("age"));

    let mut props: Vec<(String, JsonValue)> = Vec::new();
    props.push(ent("name", name_schema));
    props.push(ent("age", age_schema));
    let props_obj = JsonValue::Obj(props);
    let ghost g_props = props_obj;

    let mut s: Vec<(String, JsonValue)> = Vec::new();
    s.push(ent("type", jstr("object")));
    s.push(ent("required", JsonValue::Arr(req)));
    s.push(ent("properties", props_obj));
    let r = JsonValue::Obj(s);
    proof {
        reveal_strlit("type");
        reveal_strlit("string");
        reveal_strlit("integer");
        reveal_strlit("minimum");
        reveal_strlit("maximum");
        reveal_strlit("name");
        reveal_strlit("age");
        reveal_strlit("object");
        reveal_strlit("required");
        reveal_strlit("properties");
        let gm = g_name->Obj_0@;
        lemma_obj_get_at(gm, "type"@, 0);
        assert(has_type(g_name, "string"@));
        let ga = g_age->Obj_0@;
        lemma_obj_get_at(ga, "type"@, 0);
        assert(has_type(g_age, "integer"@));
        let gp = g_props->Obj_0@;
        assert(gp[0].0@ == "name"@);
        assert("name"@ != "age"@);
        lemma_obj_get_at(gp, "name"@, 0);
        lemma_obj_get_at(gp, "age"@, 1);
        let gs = r->Obj_0@;
        assert(gs[0].0@ == "type"@ && gs[1].0@ == "required"@);
        assert("type"@ != "properties"@ && "required"@ != "properties"@);
        lemma_obj_get_at(gs, "type"@, 0);
        lemma_obj_get_at(gs, "properties"@, 2);
        assert(input_schema_ok(r));
    }
    r
}

fn security_schemes() -> (r: JsonValue)
    ensures
        security_schemes_ok(r),
{
    let mut api_key: Vec<(String, JsonValue)> = Vec::new();
    api_key.push(ent("type", jstr("apiKey")));
    api_key.push(ent("in", jstr("header")));
    api_key.push(ent("name", jstr("api_key")));
    let api_key_obj = JsonValue::Obj(api_key);
    let ghost g_api_key = api_key_obj;

    let mut pw_scopes: Vec<(String, JsonValue)> = Vec::new();
    pw_scopes.push(ent("edit:items", jstr("edit my items")));
    pw_scopes.push(ent("read:items", jstr("read my items")));
    let pw_scopes_obj = JsonValue::Obj(pw_scopes);
    let ghost g_pw_scopes = pw_scopes_obj;

    let mut pw: Vec<(String, JsonValue)> = Vec::new();
    pw.push(ent("tokenUrl", jstr("https://localhost/oauth/token")));
    pw.push(ent("refreshUrl", jstr("https://localhost/refresh/token")));
    pw.push(ent("scopes", pw_scopes_obj));

    let mut ac_scopes: Vec<(String, JsonValue)> = Vec::new();
    ac_scopes.push(
        ent("https://www.googleapis.com/auth/cloud-platform", jstr("Cloud platform access")),
    );
    ac_scopes.push(ent("https://www.googleapis.com/auth/userinfo.email", jstr("User email access")));
    ac_scopes.push(
        ent("https://www.googleapis.com/auth/userinfo.profile", jstr("User profile access")),
    );
    ac_scopes.push(ent("openid", jstr("OpenID, required to generate an openId Jwt token")));
    let ac_scopes_obj = JsonValue::Obj(ac_scopes);
    let ghost g_ac_scopes = ac_scopes_obj;

    let mut ac: Vec<(String, JsonValue)> = Vec::new();
    ac.push(ent("authorizationUrl", jstr("https://accounts.google.com/o/oauth2/auth")));
    ac.push(ent("tokenUrl", jstr("https://oauth2.googleapis.com/token")));
    ac.push(ent("scopes", ac_scopes_obj));

    let pw_obj = JsonValue::Obj(pw);
    let ghost g_pw = pw_obj;
    let ac_obj = JsonValue::Obj(ac);
    let ghost g_ac = ac_obj;
    let mut flows: Vec<(String, JsonValue)> = Vec::new();
    flows.push(ent("password", pw_obj));
    flows.push(ent("authorizationCode", ac_obj));
    let flows_obj = JsonValue::Obj(flows);
    let ghost g_flows = flows_obj;

    let mut oauth: Vec<(String, JsonValue)> = Vec::new();
    oauth.push(ent("type", jstr("oauth2")));
    oauth.push(ent("flows", flows_obj));
    let oauth_obj = JsonValue::Obj(oauth);
    let ghost g_oauth = oauth_obj;

    let mut ss: Vec<(String, JsonValue)> = Vec::new();
    ss.push(ent("my_auth", api_key_obj));
    ss.push(ent("api_oauth2_flow", oauth_obj));
    let r = JsonValue::Obj(ss);
    proof {
        reveal_strlit("type");
        reveal_strlit("apiKey");
        reveal_strlit("oauth2");
        reveal_strlit("flows");
        reveal_strlit("password");
        reveal_strlit("authorizationCode");
        reveal_strlit("my_auth");
        reveal_strlit("api_oauth2_flow");
        reveal_strlit("tokenUrl");
        reveal_strlit("refreshUrl");
        reveal_strlit("scopes");
        reveal_strlit("authorizationUrl");
        lemma_obj_get_at(g_api_key->Obj_0@, "type"@, 0);
        assert(has_type(g_api_key, "apiKey"@));
        assert(g_pw->Obj_0@[0].0@ == "tokenUrl"@ && g_pw->Obj_0@[1].0@ == "refreshUrl"@);
        assert("tokenUrl"@ != "refreshUrl"@ && "tokenUrl"@ != "scopes"@ && "refreshUrl"@
            != "scopes"@);
        lemma_obj_get_at(g_pw->Obj_0@, "tokenUrl"@, 0);
        lemma_obj_get_at(g_pw->Obj_0@, "refreshUrl"@, 1);
        lemma_obj_get_at(g_pw->Obj_0@, "scopes"@, 2);
        assert(obj_keys(g_pw_scopes) =~= seq!["edit:items"@, "read:items"@]);
        assert(password_flow_ok(g_pw));
        assert(g_ac->Obj_0@[0].0@ == "authorizationUrl"@ && g_ac->Obj_0@[1].0@ == "tokenUrl"@);
        assert("authorizationUrl"@ != "tokenUrl"@ && "authorizationUrl"@ != "scopes"@);
        lemma_obj_get_at(g_ac->Obj_0@, "authorizationUrl"@, 0);
        lemma_obj_get_at(g_ac->Obj_0@, "tokenUrl"@, 1);
        lemma_obj_get_at(g_ac->Obj_0@, "scopes"@, 2);
        assert(obj_keys(g_ac_scopes) =~= seq![
            "https://www.googleapis.com/auth/cloud-platform"@,
            "https://www.googleapis.com/auth/userinfo.email"@,
            "https://www.googleapis.com/auth/userinfo.profile"@,
            "openid"@,
        ]);
        assert(auth_code_flow_ok(g_ac));
        assert(g_flows->Obj_0@[0].0@ == "password"@);
        assert("password"@ != "authorizationCode"@);
        assert(g_oauth->Obj_0@[0].0@ == "type"@);
        assert("type"@ != "flows"@);
        lemma_obj_get_at(g_flows->Obj_0@, "password"@, 0);
        lemma_obj_get_at(g_flows->Obj_0@, "authorizationCode"@, 1);
        lemma_obj_get_at(g_oauth->Obj_0@, "type"@, 0);
        lemma_obj_get_at(g_oauth->Obj_0@, "flows"@, 1);
        assert(has_type(g_oauth, "oauth2"@));
        assert(r->Obj_0@[0].0@ == "my_auth"@);
        assert("my_auth"@ != "api_oauth2_flow"@);
        lemma_obj_get_at(r->Obj_0@, "my_auth"@, 0);
        lemma_obj_get_at(r->Obj_0@, "api_oauth2_flow"@, 1);
        assert(security_schemes_ok(r));
    }
    r
}

fn hello_path_item() -> (r: JsonValue)
    ensures
        get(r, "post"@) is Some,
{
    let mut ref_s: Vec<(String, JsonValue)> = Vec::new();
    ref_s.push(ent("$ref", jstr("#/components/schemas/InputParams")));

    let mut app_json: Vec<(String, JsonValue)> = Vec::new();
    app_json.push(ent("schema", JsonValue::Obj(ref_s)));

    let mut content: Vec<(String, JsonValue)> = Vec::new();
    content.push(ent("application/json", JsonValue::Obj(app_json)));

    let mut body: Vec<(String, JsonValue)> = Vec::new();
    body.push(ent("description", jstr("Say hello by value")));
    body.push(ent("content", JsonValue::Obj(content)));

    let mut ok_resp: Vec<(String, JsonValue)> = Vec::new();
    ok_resp.push(ent("description", jstr("Hello response for given value")));

    let mut responses: Vec<(String, JsonValue)> = Vec::new();
    responses.push(ent("200", JsonValue::Obj(ok_resp)));
    let mut missing: Vec<(String, JsonValue)> = Vec::new();
    missing.push(ent("description", jstr("resource missing")));
    responses.push(ent("404", JsonValue::Obj(missing)));
    let mut teapot: Vec<(String, JsonValue)> = Vec::new();
    teapot.push(ent("description", jstr("happy easter")));
    responses.push(ent("418", JsonValue::Obj(teapot)));
    let mut internal: Vec<(String, JsonValue)> = Vec::new();
    internal.push(ent("description", jstr("internal server error")));
    responses.push(ent("500", JsonValue::Obj(internal)));
    let mut server_err: Vec<(String, JsonValue)> = Vec::new();
    server_err.push(ent("description", jstr("server error")));
    responses.push(ent("5XX", JsonValue::Obj(server_err)));

    let mut tags: Vec<JsonValue> = Vec::new();
    tags.push(jstr("JsonData - Hello handlers"));

    let mut post: Vec<(String, JsonValue)> = Vec::new();
    post.push(ent("tags", JsonValue::Arr(tags)));
    post.push(ent("requestBody", JsonValue::Obj(body)));
    post.push(ent("responses", JsonValue::Obj(responses)));

    let mut item: Vec<(String, JsonValue)> = Vec::new();
    item.push(ent("post", JsonValue::Obj(post)));
    let r = JsonValue::Obj(item);
    proof {
        reveal_strlit("post");
        lemma_obj_get_at(r->Obj_0@, "post"@, 0);
    }
    r
}

impl ApiDescription {
    /// The document as a JSON value.
    pub closed spec fn doc_spec(&self) -> JsonValue {
        self.doc
    }

    /// Builds the description document. It stays consistent with the
    /// route table by construction: the lemmas beside the router hold
    /// its documented path to the registered routes.
    pub fn new() -> (r: Self)
        ensures
            doc_ok(r.doc_spec()),
    {
        let mut info: Vec<(String, JsonValue)> = Vec::new();
        info.push(ent("title", jstr("hello-api")));
        info.push(ent("version", jstr("0.1.0")));

        let mut paths: Vec<(String, JsonValue)> = Vec::new();
        paths.push(ent("/hello", hello_path_item()));
        let paths_obj = JsonValue::Obj(paths);
        let ghost g_paths = paths_obj;

        let mut schemas: Vec<(String, JsonValue)> = Vec::new();
        schemas.push(ent("InputParams", input_params_schema()));
        let schemas_obj = JsonValue::Obj(schemas);
        let ghost g_schemas = schemas_obj;

        let mut components: Vec<(String, JsonValue)> = Vec::new();
        components.push(ent("schemas", schemas_obj));
        components.push(ent("securitySchemes", security_schemes()));
        let components_obj = JsonValue::Obj(components);
        let ghost g_components = components_obj;

        let mut security: Vec<JsonValue> = Vec::new();
        security.push(JsonValue::Obj(Vec::new()));
        let mut my_auth_scopes: Vec<JsonValue> = Vec::new();
        my_auth_scopes.push(jstr("read:items"));
        my_auth_scopes.push(jstr("edit:items"));
        let mut my_auth_req: Vec<(String, JsonValue)> = Vec::new();
        my_auth_req.push(ent("my_auth", JsonValue::Arr(my_auth_scopes)));
        security.push(JsonValue::Obj(my_auth_req));
        let mut oauth_scopes: Vec<JsonValue> = Vec::new();
        oauth_scopes.push(jstr("edit:items"));
        oauth_scopes.push(jstr("read:items"));
        let mut oauth_req: Vec<(String, JsonValue)> = Vec::new();
        oauth_req.push(ent("api_oauth2_flow", JsonValue::Arr(oauth_scopes)));
        security.push(JsonValue::Obj(oauth_req));

        let mut top: Vec<(String, JsonValue)> = Vec::new();
        top.push(ent("openapi", jstr("3.0.3")));
        top.push(ent("info", JsonValue::Obj(info)));
        top.push(ent("paths", paths_obj));
        top.push(ent("components", components_obj));
        top.push(ent("security", JsonValue::Arr(security)));
        let doc = JsonValue::Obj(top);
        proof {
            reveal_strlit("openapi");
            reveal_strlit("3.0.3");
            reveal_strlit("info");
            reveal_strlit("paths");
            reveal_strlit("/hello");
            reveal_strlit("components");
            reveal_strlit("security");
            reveal_strlit("schemas");
            reveal_strlit("securitySchemes");
            reveal_strlit("InputParams");
            assert("openapi"@.len() == 7);
            assert("paths"@.len() == 5);
            assert("openapi"@ != "paths"@);
            assert(doc->Obj_0@[0].0@ == "openapi"@);
            assert(doc->Obj_0@[1].0@ == "info"@);
            lemma_obj_get_at(doc->Obj_0@, "openapi"@, 0);
            lemma_obj_get_at(doc->Obj_0@, "paths"@, 2);
            assert(doc->Obj_0@[2].0@ == "paths"@);
            assert("components"@.len() == 10 && "openapi"@.len() == 7 && "info"@.len() == 4
                && "paths"@.len() == 5);
            assert("openapi"@ != "components"@ && "info"@ != "components"@ && "paths"@
                != "components"@);
            lemma_obj_get_at(doc->Obj_0@, "components"@, 3);
            lemma_obj_get_at(g_paths->Obj_0@, "/hello"@, 0);
            assert(obj_keys(g_paths) =~= seq!["/hello"@]);
            assert(g_components->Obj_0@[0].0@ == "schemas"@);
            assert("schemas"@ != "securitySchemes"@);
            lemma_obj_get_at(g_components->Obj_0@, "schemas"@, 0);
            lemma_obj_get_at(g_components->Obj_0@, "securitySchemes"@, 1);
            lemma_obj_get_at(g_schemas->Obj_0@, "InputParams"@, 0);
            assert(doc_ok(doc));
        }
        ApiDescription { doc }
    }

    /// Serializes the document; the result is pinned character for
    /// character by the rendering spec.
    pub fn to_json(&self) -> (r: String)
        ensures
            r@ == emit_of(self.doc_spec()),
    {
        to_json_string(&self.doc)
    }
}

/// The path under which the description document is published; the
/// explorer is configured with the same value.
pub fn api_doc_path() -> (r: &'static str)
    ensures
        r@ == "/api-docs/openapi.json"@,
{
    "/api-docs/openapi.json"
}

} // verus!
