//! The fixed settings of the server: its cross-origin policy and how it serves
//! the web application's static files.
use vstd::prelude::*;

use crate::http::Method;

verus! {

/// A request header that cross-origin requests may carry.
#[derive(Clone, Copy, Debug, PartialEq, Eq, Structural)]
pub enum AllowedHeader {
    Authorization,
    Accept,
    ContentType,
    Origin,
}

/// The cross-origin resource sharing policy.
pub struct CorsPolicy {
    /// Requests from every origin are allowed.
    pub allow_any_origin: bool,
    /// The methods that cross-origin requests may use.
    pub allowed_methods: Vec<Method>,
    /// The headers that cross-origin requests may carry.
    pub allowed_headers: Vec<AllowedHeader>,
    /// How long, in seconds, browsers may cache a preflight answer.
    pub max_age_seconds: usize,
}

/// The methods that cross-origin requests may use.
pub open spec fn cors_methods() -> Seq<Method> {
    seq![Method::Get, Method::Post, Method::Put, Method::Delete, Method::Options]
}

/// The headers that cross-origin requests may carry.
pub open spec fn cors_headers() -> Seq<AllowedHeader> {
    seq![
        AllowedHeader::Authorization,
        AllowedHeader::Accept,
        AllowedHeader::ContentType,
        AllowedHeader::Origin,
    ]
}

/// The server's policy: any origin; `GET`, `POST`, `PUT`, `DELETE` and
/// `OPTIONS`; the authorization, accept, content type and origin headers;
/// preflight answers cached for an hour.
pub fn cors_policy() -> (policy: CorsPolicy)
    ensures
        policy.allow_any_origin,
        policy.allowed_methods@ == cors_methods(),
        policy.allowed_headers@ == cors_headers(),
        policy.max_age_seconds == 3600,
{
    let mut allowed_methods: Vec<Method> = Vec::new();
    allowed_methods.push(Method::Get);
    allowed_methods.push(Method::Post);
    allowed_methods.push(Method::Put);
    allowed_methods.push(Method::Delete);
    allowed_methods.push(Method::Options);
    let mut allowed_headers: Vec<AllowedHeader> = Vec::new();
    allowed_headers.push(AllowedHeader::Authorization);
    allowed_headers.push(AllowedHeader::Accept);
    allowed_headers.push(AllowedHeader::ContentType);
    allowed_headers.push(AllowedHeader::Origin);
    assert(allowed_methods@ =~= cors_methods());
    assert(allowed_headers@ =~= cors_headers());
    CorsPolicy { allow_any_origin: true, allowed_methods, allowed_headers, max_age_seconds: 3600 }
}

/// How the web application's files are served, below the API.
pub struct StaticSite {
    /// Where the files are mounted.
    pub mount_path: &'static str,
    /// The file served for a directory.
    pub index_file: &'static str,
    /// The page served when no file matches, so that the application's own
    /// router can take over.
    pub fallback_page: &'static str,
    /// Text files are declared as UTF-8.
    pub prefer_utf8: bool,
}

/// The files are mounted at the root, directories are served by their
/// `index.html`, and every path that matches no file gets
/// `public/index.html`.
pub fn static_site() -> (site: StaticSite)
    ensures
        site.mount_path@ == "/"@,
        site.index_file@ == "index.html"@,
        site.fallback_page@ == "public/index.html"@,
        site.prefer_utf8,
{
    StaticSite {
        mount_path: "/",
        index_file: "index.html",
        fallback_page: "public/index.html",
        prefer_utf8: true,
    }
}

} // verus!
