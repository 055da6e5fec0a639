use http_server::endpoint::Endpoint;
use http_server::http::Method;
use http_server::middleware::{
    api_scope_middleware, app_middleware, middleware_stack, Middleware,
};
use http_server::routing::{route, Target};

const APP: [Middleware; 6] = [
    Middleware::CacheHeaders,
    Middleware::SecurityHeaders,
    Middleware::RequestId,
    Middleware::Compress,
    Middleware::Authentication,
    Middleware::Cors,
];

#[test]
fn app_layers_in_order() {
    assert_eq!(app_middleware(), APP.to_vec());
    assert_eq!(api_scope_middleware(), vec![Middleware::NoCacheHeaders]);
}

#[test]
fn api_root_is_dispatched_through_the_no_cache_layer() {
    assert_eq!(route(Method::Get, "/api"), Target::Endpoint(Endpoint::Index));
    let mut expected = APP.to_vec();
    expected.push(Middleware::NoCacheHeaders);
    assert_eq!(middleware_stack("/api"), expected);
}

#[test]
fn every_api_answer_passes_the_no_cache_layer() {
    for path in ["/api", "/api/", "/api/unknown", "/api/kernel/commands/register", "/api/kernel/x"] {
        assert_ne!(route(Method::Post, path), Target::StaticFiles);
        assert_eq!(middleware_stack(path).last(), Some(&Middleware::NoCacheHeaders), "{}", path);
    }
}

#[test]
fn static_files_skip_the_no_cache_layer() {
    for path in ["/", "/index.html", "/apix", "/assets/app.js"] {
        assert_eq!(route(Method::Get, path), Target::StaticFiles);
        assert_eq!(middleware_stack(path), APP.to_vec(), "{}", path);
    }
}
