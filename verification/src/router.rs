//! The routing table: which handler serves a given method and path. Three
//! routes are registered — create, delete and redirect — and every other
//! method/path combination is dispatched to the not-found handler. Paths
//! are matched after trailing-slash normalization (see
//! [`crate::text::trim_trailing_slashes`]).

use vstd::prelude::*;
use vstd::string::StrSliceExecFns;
use crate::text::starts_with;
use crate::text::str_eq;
use crate::text::str_starts_with;
use crate::text::str_contains_char;

verus! {

/// The HTTP methods the routing table distinguishes. Anything beyond the
/// three it uses is `Other` and can only reach the not-found handler.
#[derive(Clone, Copy, Debug, PartialEq, Eq, Structural)]
pub enum Method {
    Get,
    Post,
    Delete,
    Other,
}

/// Where a request is dispatched: one of the three handlers, with the
/// path parameter extracted for a redirect, or the not-found handler.
#[derive(Debug)]
pub enum Route {
    /// `POST /api/urls`.
    CreateUrl,
    /// `DELETE /api/urls/delete`.
    DeleteUrl,
    /// `GET /api/urls/{id}`: carries the identifier segment.
    RedirectUrl(String),
    /// Every other method and path.
    NotFound,
}

/// The identifier segment of a redirect path: what follows `/api/urls/`.
pub open spec fn redirect_id(path: Seq<char>) -> Seq<char> {
    path.subrange("/api/urls/"@.len() as int, path.len() as int)
}

/// Whether `path` names the redirect resource: `/api/urls/` followed by a
/// single non-empty segment (no further `/`).
pub open spec fn is_redirect_path(path: Seq<char>) -> bool {
    &&& starts_with(path, "/api/urls/"@)
    &&& redirect_id(path).len() > 0
    &&& !redirect_id(path).contains('/')
}

/// Whether some registered route serves this method and path.
pub open spec fn is_registered(method: Method, path: Seq<char>) -> bool {
    ||| method == Method::Post && path == "/api/urls"@
    ||| method == Method::Delete && path == "/api/urls/delete"@
    ||| method == Method::Get && is_redirect_path(path)
}

/// Dispatches a method and an already normalized path to its route. Every
/// method/path combination outside the three registered routes yields
/// `Route::NotFound`.
pub fn route(method: Method, path: &str) -> (r: Route)
    ensures
        method == Method::Post && path@ == "/api/urls"@ ==> r is CreateUrl,
        method == Method::Delete && path@ == "/api/urls/delete"@ ==> r is DeleteUrl,
        method == Method::Get && is_redirect_path(path@) ==> (r matches Route::RedirectUrl(id)
            && id@ == redirect_id(path@)),
        !is_registered(method, path@) ==> r is NotFound,
{
    match method {
        Method::Post => {
            if str_eq(path, "/api/urls") {
                Route::CreateUrl
            } else {
                Route::NotFound
            }
        },
        Method::Delete => {
            if str_eq(path, "/api/urls/delete") {
                Route::DeleteUrl
            } else {
                Route::NotFound
            }
        },
        Method::Get => {
            let prefix = "/api/urls/";
            if str_starts_with(path, prefix) {
                let plen = prefix.unicode_len();
                let len = path.unicode_len();
                let id = path.substring_char(plen, len);
                if !id.is_empty() && !str_contains_char(id, '/') {
                    Route::RedirectUrl(id.to_owned())
                } else {
                    Route::NotFound
                }
            } else {
                Route::NotFound
            }
        },
        Method::Other => Route::NotFound,
    }
}

} // verus!
