//! Which handler answers a request, as the server's routes decide it.
//!
//! The API lives under the `/api` scope. Inside it, each endpoint is a
//! resource with one route; a request that reaches a resource with another
//! method is refused with `405 Method Not Allowed`. A request that enters one
//! of the service scopes (`/api/kernel`, `/api/files`, ...) without reaching a
//! resource falls to the server's default, a plain `404 Not Found`; one that
//! enters none of them falls to the API's own fallback handler. Everything
//! outside `/api` is served from the static files directory.
use vstd::prelude::*;

use crate::endpoint::{
    all_api_scopes, all_endpoints, api_scopes, endpoints, lemma_api_scopes_complete,
    lemma_endpoints_complete, lemma_paths_distinct, lemma_paths_within_api, ApiScope, Endpoint,
};
use crate::http::Method;
use crate::text::{chars_of, is_within, lies_within, same_chars};

verus! {

/// Where a request goes.
#[derive(Clone, Copy, Debug, PartialEq, Eq, Structural)]
pub enum Target {
    /// The endpoint's handler answers.
    Endpoint(Endpoint),
    /// The path is an endpoint's, the method is not: `405 Method Not Allowed`,
    /// naming the one method the endpoint answers.
    MethodNotAllowed(Method),
    /// Inside a service scope of the API but at no endpoint: the server's
    /// plain `404 Not Found`.
    NotFound,
    /// Inside `/api` but in no service scope: the API's fallback handler.
    ApiFallback,
    /// Outside `/api`: the static files of the web application.
    StaticFiles,
}

/// The prefix of the API scope.
pub open spec fn api_prefix() -> Seq<char> {
    "/api"@
}

/// Whether some endpoint is served at `path`.
pub open spec fn is_endpoint_path(path: Seq<char>) -> bool {
    exists|e: Endpoint| e.spec_path() == path
}

/// The endpoint served at `path`; meaningful when [`is_endpoint_path`] holds.
pub open spec fn endpoint_at(path: Seq<char>) -> Endpoint {
    choose|e: Endpoint| e.spec_path() == path
}

/// Whether `path` lies within one of the service scopes of the API.
pub open spec fn in_service_scope(path: Seq<char>) -> bool {
    exists|s: ApiScope| lies_within(path, s.spec_prefix())
}

/// Where a request with `method` for `path` goes.
pub open spec fn spec_route(method: Method, path: Seq<char>) -> Target {
    if !lies_within(path, api_prefix()) {
        Target::StaticFiles
    } else if is_endpoint_path(path) {
        if endpoint_at(path).spec_method() == method {
            Target::Endpoint(endpoint_at(path))
        } else {
            Target::MethodNotAllowed(endpoint_at(path).spec_method())
        }
    } else if in_service_scope(path) {
        Target::NotFound
    } else {
        Target::ApiFallback
    }
}

fn find_endpoint(path: &Vec<char>) -> (found: Option<Endpoint>)
    ensures
        match found {
            Some(e) => e.spec_path() == path@,
            None => !is_endpoint_path(path@),
        },
{
    let table = all_endpoints();
    let n = table.len();
    let mut i: usize = 0;
    while i < n
        invariant
            n == table@.len(),
            table@ == endpoints(),
            i <= n,
            forall|j: int| 0 <= j < i ==> #[trigger] table@[j].spec_path() != path@,
        decreases n - i,
    {
        let e = table[i];
        let candidate = chars_of(e.path());
        if same_chars(path, &candidate) {
            return Some(e);
        }
        i = i + 1;
    }
    assert forall|e: Endpoint| e.spec_path() != path@ by {
        lemma_endpoints_complete(e);
        let j = choose|j: int| 0 <= j < table@.len() && table@[j] == e;
        assert(table@[j].spec_path() != path@);
    }
    None
}

fn within_service_scope(path: &Vec<char>) -> (r: bool)
    ensures
        r == in_service_scope(path@),
{
    let scopes = all_api_scopes();
    let n = scopes.len();
    let mut i: usize = 0;
    while i < n
        invariant
            n == scopes@.len(),
            scopes@ == api_scopes(),
            i <= n,
            forall|j: int| 0 <= j < i ==> !lies_within(path@, #[trigger] scopes@[j].spec_prefix()),
        decreases n - i,
    {
        let prefix = chars_of(scopes[i].prefix());
        if is_within(path, &prefix) {
            return true;
        }
        i = i + 1;
    }
    assert forall|s: ApiScope| !lies_within(path@, s.spec_prefix()) by {
        lemma_api_scopes_complete(s);
        let j = choose|j: int| 0 <= j < scopes@.len() && scopes@[j] == s;
        assert(!lies_within(path@, scopes@[j].spec_prefix()));
    }
    false
}

/// Where a request with `method` for `path` goes.
pub fn route(method: Method, path: &str) -> (target: Target)
    ensures
        target == spec_route(method, path@),
{
    let path = chars_of(path);
    let api = chars_of("/api");
    if !is_within(&path, &api) {
        return Target::StaticFiles;
    }
    match find_endpoint(&path) {
        Some(e) => {
            proof {
                lemma_paths_distinct(endpoint_at(path@), e);
            }
            let allowed = e.method();
            if allowed == method {
                Target::Endpoint(e)
            } else {
                Target::MethodNotAllowed(allowed)
            }
        },
        None => {
            if within_service_scope(&path) {
                Target::NotFound
            } else {
                Target::ApiFallback
            }
        },
    }
}

/// Every endpoint is reached at its path with its method.
pub proof fn lemma_endpoint_reached(e: Endpoint)
    ensures
        spec_route(e.spec_method(), e.spec_path()) == Target::Endpoint(e),
{
    lemma_paths_within_api(e);
    lemma_paths_distinct(endpoint_at(e.spec_path()), e);
}

/// At an endpoint's path, every other method is refused, naming the
/// endpoint's method as the one allowed.
pub proof fn lemma_other_methods_refused(e: Endpoint, method: Method)
    requires
        method != e.spec_method(),
    ensures
        spec_route(method, e.spec_path()) == Target::MethodNotAllowed(e.spec_method()),
{
    lemma_paths_within_api(e);
    lemma_paths_distinct(endpoint_at(e.spec_path()), e);
}

/// A path outside `/api` is always served from the static files, and a path
/// inside it never is.
pub proof fn lemma_static_exactly_outside_api(method: Method, path: Seq<char>)
    ensures
        (spec_route(method, path) == Target::StaticFiles) == !lies_within(path, "/api"@),
{
}

/// Away from the endpoints' own paths the method does not matter.
pub proof fn lemma_method_matters_only_at_endpoints(m1: Method, m2: Method, path: Seq<char>)
    requires
        !is_endpoint_path(path),
    ensures
        spec_route(m1, path) == spec_route(m2, path),
{
}

/// A request is answered by an endpoint's handler only at that endpoint's
/// path and with its method.
pub proof fn lemma_endpoint_only_at_its_route(method: Method, path: Seq<char>, e: Endpoint)
    requires
        spec_route(method, path) == Target::Endpoint(e),
    ensures
        path == e.spec_path(),
        method == e.spec_method(),
{
}

/// Inside `/api` but away from every endpoint's path, a request gets the
/// server's plain `404 Not Found` exactly when it lies within one of the
/// service scopes `/api/kernel`, `/api/files`, `/api/a`, `/api/inbox` and
/// `/api/newsletter`, and the API's fallback handler otherwise; the method
/// plays no part.
pub proof fn lemma_unmatched_api_paths(method: Method, path: Seq<char>)
    requires
        lies_within(path, "/api"@),
        !is_endpoint_path(path),
    ensures
        spec_route(method, path) == if lies_within(path, "/api/kernel"@) || lies_within(
            path,
            "/api/files"@,
        ) || lies_within(path, "/api/a"@) || lies_within(path, "/api/inbox"@) || lies_within(
            path,
            "/api/newsletter"@,
        ) {
            Target::NotFound
        } else {
            Target::ApiFallback
        },
{
    let within_some = lies_within(path, "/api/kernel"@) || lies_within(path, "/api/files"@)
        || lies_within(path, "/api/a"@) || lies_within(path, "/api/inbox"@) || lies_within(
        path,
        "/api/newsletter"@,
    );
    if within_some {
        if lies_within(path, "/api/kernel"@) {
            assert(lies_within(path, ApiScope::Kernel.spec_prefix()));
        } else if lies_within(path, "/api/files"@) {
            assert(lies_within(path, ApiScope::Files.spec_prefix()));
        } else if lies_within(path, "/api/a"@) {
            assert(lies_within(path, ApiScope::Analytics.spec_prefix()));
        } else if lies_within(path, "/api/inbox"@) {
            assert(lies_within(path, ApiScope::Inbox.spec_prefix()));
        } else {
            assert(lies_within(path, ApiScope::Newsletter.spec_prefix()));
        }
    } else {
        assert forall|s: ApiScope| !lies_within(path, s.spec_prefix()) by {
            match s {
                ApiScope::Kernel => {},
                ApiScope::Files => {},
                ApiScope::Analytics => {},
                ApiScope::Inbox => {},
                ApiScope::Newsletter => {},
            }
        }
    }
}

} // verus!
