use http_server::endpoint::{
    all_api_scopes, all_endpoints, AnalyticsEvent, AnalyticsQuery, ApiScope, Endpoint,
    FilesQuery, InboxQuery, KernelCommand, KernelQuery, NewsletterCommand,
};
use http_server::http::Method;
use http_server::routing::{route, Target};

#[test]
fn every_endpoint_is_reached_at_its_path_and_method() {
    let table = all_endpoints();
    assert_eq!(table.len(), 79);
    for e in table {
        assert_eq!(route(e.method(), e.path()), Target::Endpoint(e), "{}", e.path());
    }
}

#[test]
fn endpoint_paths_are_distinct() {
    let table = all_endpoints();
    for (i, a) in table.iter().enumerate() {
        for b in table.iter().skip(i + 1) {
            assert_ne!(a.path(), b.path());
            assert_ne!(a, b);
        }
    }
}

#[test]
fn other_methods_are_refused_at_endpoint_paths() {
    let methods = [
        Method::Get,
        Method::Head,
        Method::Post,
        Method::Put,
        Method::Delete,
        Method::Connect,
        Method::Options,
        Method::Trace,
        Method::Patch,
        Method::Other,
    ];
    for e in all_endpoints() {
        for m in methods {
            if m != e.method() {
                assert_eq!(route(m, e.path()), Target::MethodNotAllowed(e.method()), "{} {:?}", e.path(), m);
            }
        }
    }
}

#[test]
fn api_root_answers_get_only() {
    assert_eq!(route(Method::Get, "/api"), Target::Endpoint(Endpoint::Index));
    assert_eq!(route(Method::Post, "/api"), Target::MethodNotAllowed(Method::Get));
    assert_eq!(route(Method::Head, "/api"), Target::MethodNotAllowed(Method::Get));
}

#[test]
fn commands_and_queries_answer_post() {
    assert_eq!(
        route(Method::Post, "/api/kernel/commands/register"),
        Target::Endpoint(Endpoint::KernelCommand(KernelCommand::Register))
    );
    assert_eq!(
        route(Method::Post, "/api/kernel/queries/me"),
        Target::Endpoint(Endpoint::KernelQuery(KernelQuery::Me))
    );
    assert_eq!(
        route(Method::Post, "/api/files/queries/trash"),
        Target::Endpoint(Endpoint::FilesQuery(FilesQuery::Trash))
    );
    assert_eq!(
        route(Method::Post, "/api/inbox/queries/trash"),
        Target::Endpoint(Endpoint::InboxQuery(InboxQuery::Trash))
    );
    assert_eq!(
        route(Method::Post, "/api/newsletter/commands/send_message"),
        Target::Endpoint(Endpoint::NewsletterCommand(NewsletterCommand::SendMessage))
    );
    assert_eq!(route(Method::Get, "/api/kernel/queries/me"), Target::MethodNotAllowed(Method::Post));
}

#[test]
fn analytics_short_paths() {
    assert_eq!(
        route(Method::Post, "/api/a/events/t"),
        Target::Endpoint(Endpoint::AnalyticsEvent(AnalyticsEvent::Track))
    );
    assert_eq!(
        route(Method::Post, "/api/a/events/p"),
        Target::Endpoint(Endpoint::AnalyticsEvent(AnalyticsEvent::Page))
    );
    assert_eq!(
        route(Method::Post, "/api/a/queries/a"),
        Target::Endpoint(Endpoint::AnalyticsQuery(AnalyticsQuery::Analytics))
    );
    assert_eq!(route(Method::Post, "/api/a/events/x"), Target::NotFound);
    assert_eq!(route(Method::Post, "/api/analytics"), Target::ApiFallback);
}

#[test]
fn unknown_paths_inside_a_service_scope_get_plain_not_found() {
    assert_eq!(route(Method::Post, "/api/kernel"), Target::NotFound);
    assert_eq!(route(Method::Post, "/api/kernel/"), Target::NotFound);
    assert_eq!(route(Method::Post, "/api/kernel/commands"), Target::NotFound);
    assert_eq!(route(Method::Post, "/api/kernel/commands/unknown"), Target::NotFound);
    assert_eq!(route(Method::Post, "/api/kernel/commands/register/"), Target::NotFound);
    assert_eq!(route(Method::Get, "/api/files/anything/at/all"), Target::NotFound);
    assert_eq!(route(Method::Delete, "/api/newsletter"), Target::NotFound);
}

#[test]
fn unknown_paths_elsewhere_in_the_api_get_the_fallback() {
    assert_eq!(route(Method::Get, "/api/"), Target::ApiFallback);
    assert_eq!(route(Method::Get, "/api/unknown"), Target::ApiFallback);
    assert_eq!(route(Method::Post, "/api/kernels/commands/register"), Target::ApiFallback);
    assert_eq!(route(Method::Put, "/api//kernel/commands/register"), Target::ApiFallback);
}

#[test]
fn everything_outside_the_api_is_static() {
    assert_eq!(route(Method::Get, "/"), Target::StaticFiles);
    assert_eq!(route(Method::Get, ""), Target::StaticFiles);
    assert_eq!(route(Method::Get, "/index.html"), Target::StaticFiles);
    assert_eq!(route(Method::Get, "/apix"), Target::StaticFiles);
    assert_eq!(route(Method::Post, "/ap"), Target::StaticFiles);
    assert_eq!(route(Method::Get, "/inbox/trash"), Target::StaticFiles);
    assert_eq!(route(Method::Post, "api/kernel/commands/register"), Target::StaticFiles);
}

#[test]
fn non_ascii_paths_are_handled() {
    assert_eq!(route(Method::Get, "/é"), Target::StaticFiles);
    assert_eq!(route(Method::Get, "/api/é"), Target::ApiFallback);
    assert_eq!(route(Method::Get, "/api/kernel/é"), Target::NotFound);
}

#[test]
fn scope_prefixes() {
    let prefixes: Vec<&str> = all_api_scopes().iter().map(|s| s.prefix()).collect();
    assert_eq!(
        prefixes,
        vec!["/api/kernel", "/api/files", "/api/a", "/api/inbox", "/api/newsletter"]
    );
    assert_eq!(ApiScope::Analytics.prefix(), "/api/a");
}

#[test]
fn endpoints_are_served_inside_their_scopes() {
    assert_eq!(Endpoint::Index.scope(), None);
    for e in all_endpoints() {
        if let Some(scope) = e.scope() {
            let prefix = scope.prefix();
            assert!(e.path().starts_with(prefix), "{}", e.path());
            assert_eq!(e.path().as_bytes()[prefix.len()], b'/');
        }
    }
    assert_eq!(
        Endpoint::AnalyticsEvent(AnalyticsEvent::Track).scope(),
        Some(ApiScope::Analytics)
    );
    assert_eq!(Endpoint::KernelQuery(KernelQuery::Me).scope(), Some(ApiScope::Kernel));
}
