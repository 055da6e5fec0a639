use http_server::config::{cors_policy, static_site, AllowedHeader};
use http_server::http::Method;

#[test]
fn cors_policy_values() {
    let policy = cors_policy();
    assert!(policy.allow_any_origin);
    assert_eq!(
        policy.allowed_methods,
        vec![Method::Get, Method::Post, Method::Put, Method::Delete, Method::Options]
    );
    assert_eq!(
        policy.allowed_headers,
        vec![
            AllowedHeader::Authorization,
            AllowedHeader::Accept,
            AllowedHeader::ContentType,
            AllowedHeader::Origin
        ]
    );
    assert_eq!(policy.max_age_seconds, 3600);
}

#[test]
fn static_site_values() {
    let site = static_site();
    assert_eq!(site.mount_path, "/");
    assert_eq!(site.index_file, "index.html");
    assert_eq!(site.fallback_page, "public/index.html");
    assert!(site.prefer_utf8);
}
