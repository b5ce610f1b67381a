//! The route table: which handler answers a given method and path.

use vstd::prelude::*;

verus! {

/// The request methods the service distinguishes.
pub enum Method {
    Get,
    Post,
}

/// The handlers of the service. A matched explorer-asset path carries
/// the sub-path under the explorer mount verbatim.
pub enum Route {
    Root,
    ApiDoc,
    SwaggerAsset(String),
    Hello,
}

/// The mathematical content of a `Route`.
pub enum RouteModel {
    Root,
    ApiDoc,
    SwaggerAsset(Seq<char>),
    Hello,
}

impl View for Route {
    type V = RouteModel;

    open spec fn view(&self) -> RouteModel {
        match self {
            Route::Root => RouteModel::Root,
            Route::ApiDoc => RouteModel::ApiDoc,
            Route::SwaggerAsset(t) => RouteModel::SwaggerAsset(t@),
            Route::Hello => RouteModel::Hello,
        }
    }
}

/// The prefix under which the explorer's assets are mounted.
pub open spec fn swagger_prefix() -> Seq<char> {
    "/swagger/"@
}

/// The route table. No two arms can match the same concrete path: the
/// three fixed paths are pairwise distinct and none of them begins with
/// the asset prefix.
pub open spec fn spec_route(m: Method, path: Seq<char>) -> Option<RouteModel> {
    match m {
        Method::Get => if path == "/"@ {
            Some(RouteModel::Root)
        } else if path == "/api-docs/openapi.json"@ {
            Some(RouteModel::ApiDoc)
        } else if swagger_prefix().is_prefix_of(path) {
            Some(RouteModel::SwaggerAsset(path.skip(swagger_prefix().len() as int)))
        } else {
            None
        },
        Method::Post => if path == "/hello"@ {
            Some(RouteModel::Hello)
        } else {
            None
        },
    }
}

/// Character-wise string equality.
fn str_eq(a: &str, b: &str) -> (r: bool)
    ensures
        r == (a@ == b@),
{
    let alen = a.unicode_len();
    let blen = b.unicode_len();
    if alen != blen {
        return false;
    }
    let mut i: usize = 0;
    while i < alen
        invariant
            i <= alen,
            alen == a@.len(),
            alen == blen,
            blen == b@.len(),
            forall|j: int| 0 <= j < i ==> a@[j] == b@[j],
        decreases alen - i,
    {
        if a.get_char(i) != b.get_char(i) {
            return false;
        }
        i += 1;
    }
    proof {
        assert(a@ =~= b@);
    }
    true
}

/// Removes `p` from the front of `s` character-wise, if it stands there.
fn strip_prefix_chars(s: &str, p: &str) -> (r: Option<String>)
    ensures
        match r {
            Some(t) => p@.is_prefix_of(s@) && t@ == s@.skip(p@.len() as int),
            None => !p@.is_prefix_of(s@),
        },
{
    let plen = p.unicode_len();
    let slen = s.unicode_len();
    if slen < plen {
        return None;
    }
    let mut i: usize = 0;
    while i < plen
        invariant
            i <= plen,
            plen == p@.len(),
            slen == s@.len(),
            plen <= slen,
            forall|j: int| 0 <= j < i ==> s@[j] == p@[j],
        decreases plen - i,
    {
        if s.get_char(i) != p.get_char(i) {
            proof {
                assert(s@.subrange(0, p@.len() as int)[i as int] != p@[i as int]);
            }
            return None;
        }
        i += 1;
    }
    let tail = s.substring_char(plen, slen);
    proof {
        assert(p@ =~= s@.subrange(0, p@.len() as int));
    }
    Some(String::from_str(tail))
}

/// Dispatches a method and path to the handler that owns it.
pub fn route(m: &Method, path: &str) -> (r: Option<Route>)
    ensures
        match r {
            Some(rt) => spec_route(*m, path@) == Some(rt@),
            None => spec_route(*m, path@) is None,
        },
{
    match m {
        Method::Get => {
            if str_eq(path, "/") {
                Some(Route::Root)
            } else if str_eq(path, "/api-docs/openapi.json") {
                Some(Route::ApiDoc)
            } else if let Some(tail) = strip_prefix_chars(path, "/swagger/") {
                Some(Route::SwaggerAsset(tail))
            } else {
                None
            }
        },
        Method::Post => {
            if str_eq(path, "/hello") {
                Some(Route::Hello)
            } else {
                None
            }
        },
    }
}

} // verus!
