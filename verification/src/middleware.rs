//! The layers that wrap the server's handlers, and which requests pass which.
//!
//! Every request passes the application's layers, from the outside in: cache
//! headers, security headers, request id, compression, authentication and
//! cross-origin checks. Requests inside the `/api` scope then pass one more
//! layer, which marks responses as not to be cached; the static files do not.
use vstd::prelude::*;

use crate::http::Method;
use crate::routing::{api_prefix, spec_route, Target};
use crate::text::{chars_of, is_within, lies_within};

verus! {

/// A layer around the handlers.
#[derive(Clone, Copy, Debug, PartialEq, Eq, Structural)]
pub enum Middleware {
    /// Sets the caching headers of responses.
    CacheHeaders,
    /// Sets the security headers of responses.
    SecurityHeaders,
    /// Gives each request an id.
    RequestId,
    /// Compresses response bodies.
    Compress,
    /// Authenticates the caller.
    Authentication,
    /// Applies the cross-origin policy.
    Cors,
    /// Marks responses as not to be cached.
    NoCacheHeaders,
}

/// The application's layers, outermost first.
pub open spec fn app_layers() -> Seq<Middleware> {
    seq![
        Middleware::CacheHeaders,
        Middleware::SecurityHeaders,
        Middleware::RequestId,
        Middleware::Compress,
        Middleware::Authentication,
        Middleware::Cors,
    ]
}

/// The layers of the `/api` scope, outermost first.
pub open spec fn api_scope_layers() -> Seq<Middleware> {
    seq![Middleware::NoCacheHeaders]
}

/// The layers a request for `path` passes on its way to its handler,
/// outermost first.
pub open spec fn spec_middleware_stack(path: Seq<char>) -> Seq<Middleware> {
    if lies_within(path, api_prefix()) {
        app_layers() + api_scope_layers()
    } else {
        app_layers()
    }
}

/// The application's layers, outermost first.
pub fn app_middleware() -> (layers: Vec<Middleware>)
    ensures
        layers@ == app_layers(),
{
    let mut layers: Vec<Middleware> = Vec::new();
    layers.push(Middleware::CacheHeaders);
    layers.push(Middleware::SecurityHeaders);
    layers.push(Middleware::RequestId);
    layers.push(Middleware::Compress);
    layers.push(Middleware::Authentication);
    layers.push(Middleware::Cors);
    assert(layers@ =~= app_layers());
    layers
}

/// The layers of the `/api` scope, outermost first.
pub fn api_scope_middleware() -> (layers: Vec<Middleware>)
    ensures
        layers@ == api_scope_layers(),
{
    let mut layers: Vec<Middleware> = Vec::new();
    layers.push(Middleware::NoCacheHeaders);
    assert(layers@ =~= api_scope_layers());
    layers
}

/// The layers a request for `path` passes, outermost first.
pub fn middleware_stack(path: &str) -> (layers: Vec<Middleware>)
    ensures
        layers@ == spec_middleware_stack(path@),
{
    let mut layers = app_middleware();
    let api = chars_of("/api");
    if is_within(&chars_of(path), &api) {
        layers.push(Middleware::NoCacheHeaders);
        assert(layers@ =~= app_layers() + api_scope_layers());
    }
    layers
}

/// Every request passes all of the application's layers, in their order,
/// before anything else.
pub proof fn lemma_app_layers_wrap_every_request(path: Seq<char>)
    ensures
        spec_middleware_stack(path).subrange(0, app_layers().len() as int) == app_layers(),
        spec_middleware_stack(path).contains(Middleware::Authentication),
{
    assert(spec_middleware_stack(path).subrange(0, app_layers().len() as int) =~= app_layers());
    assert(spec_middleware_stack(path)[4] == Middleware::Authentication);
}

/// Responses are marked as not to be cached exactly for the requests that do
/// not go to the static files: every answer of the API, its endpoints, its
/// refusals and its fallbacks, and none of the web application's files.
pub proof fn lemma_no_cache_exactly_for_the_api(method: Method, path: Seq<char>)
    ensures
        spec_middleware_stack(path).contains(Middleware::NoCacheHeaders) == (spec_route(
            method,
            path,
        ) != Target::StaticFiles),
        spec_route(method, path) != Target::StaticFiles ==> spec_middleware_stack(path).last()
            == Middleware::NoCacheHeaders,
{
    let stack = spec_middleware_stack(path);
    if lies_within(path, api_prefix()) {
        assert(stack[6] == Middleware::NoCacheHeaders);
    } else {
        assert(stack =~= app_layers());
        assert forall|i: int| 0 <= i < stack.len() implies stack[i] != Middleware::NoCacheHeaders by {
        }
    }
}

} // verus!
