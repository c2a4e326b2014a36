//! Headers that the site adds to responses: cross-origin policy, the extra
//! security headers, the memorial and pronoun headers, and the redirection
//! of paths with a trailing slash.
use vstd::prelude::*;

use crate::status::Redirect;
use crate::text::{has_suffix, joined, same_text};

verus! {

/// The site's production origin.
pub const PROD_ORIGIN: &'static str = "https://average.name";

/// The cross-origin allow header.
pub const ALLOW_ORIGIN_HEADER: &'static str = "Access-Control-Allow-Origin";

/// The header that carries a memorial name.
pub const X_CLACKS_OVERHEAD: &'static str = "X-Clacks-Overhead";

/// The header that states the acceptable pronouns.
pub const X_PRONOUNS_ACCEPTABLE: &'static str = "X-Pronouns-Acceptable";

/// The site's pronouns, in English.
pub const PRONOUNS_EN: &'static str = "she/her";

/// How a route answers cross-origin requests.
#[derive(PartialEq, Eq, Structural, Clone, Copy, Debug)]
pub enum CorsPolicy {
    /// Any origin may read the response.
    AllowAll,
    /// Only the production origin may, and only when it asks.
    ProductionOrigin,
    /// No allow header at all.
    Closed,
}

/// The allow header's value under `policy` for a request from `origin`.
pub open spec fn allowed_origin(policy: CorsPolicy, origin: Option<Seq<char>>) -> Option<Seq<char>> {
    match policy {
        CorsPolicy::AllowAll => Some("*"@),
        CorsPolicy::ProductionOrigin => if origin == Some(PROD_ORIGIN@) {
            Some(PROD_ORIGIN@)
        } else {
            None
        },
        CorsPolicy::Closed => None,
    }
}

impl CorsPolicy {
    /// The allow header's value for a request from `origin`, if the header is
    /// sent at all.
    pub fn allow_origin(&self, origin: Option<&str>) -> (r: Option<&'static str>)
        ensures
            crate::webfinger::opt_view(r) == allowed_origin(*self, crate::webfinger::opt_view(origin)),
    {
        match self {
            CorsPolicy::AllowAll => Some("*"),
            CorsPolicy::ProductionOrigin => match origin {
                Some(o) => if same_text(o, PROD_ORIGIN) {
                    Some(PROD_ORIGIN)
                } else {
                    None
                },
                None => None,
            },
            CorsPolicy::Closed => None,
        }
    }
}

/// The header that allows every origin.
pub struct CorsAllowAll;

impl CorsAllowAll {
    /// The header's name and value.
    pub fn header(&self) -> (r: (&'static str, &'static str))
        ensures
            r.0@ == ALLOW_ORIGIN_HEADER@,
            r.1@ == "*"@,
    {
        (ALLOW_ORIGIN_HEADER, "*")
    }
}

/// The origin that the site's own style sheets are loaded from, for a
/// request that named `host` (without a port): the host itself over plain
/// HTTP when it is a loopback name, else the production origin.
pub open spec fn resource_origin_of(host: Option<Seq<char>>) -> Seq<char> {
    if host == Some("localhost"@) {
        "http://localhost"@
    } else if host == Some("127.0.0.1"@) {
        "http://127.0.0.1"@
    } else if host == Some("[::1]"@) {
        "http://[::1]"@
    } else {
        PROD_ORIGIN@
    }
}

/// The origin of the site's style sheets for a request that named `host`.
pub fn resource_origin(host: Option<&str>) -> (r: &'static str)
    ensures
        r@ == resource_origin_of(crate::webfinger::opt_view(host)),
{
    match host {
        Some(h) => if same_text(h, "localhost") {
            "http://localhost"
        } else if same_text(h, "127.0.0.1") {
            "http://127.0.0.1"
        } else if same_text(h, "[::1]") {
            "http://[::1]"
        } else {
            PROD_ORIGIN
        },
        None => PROD_ORIGIN,
    }
}

/// The Content-Security-Policy up to its script sources.
pub const CSP_HEAD: &'static str = "base-uri 'none'; default-src 'none'; form-action 'self'; frame-ancestors 'none'; img-src 'self' https://* data:; sandbox allow-same-origin allow-downloads allow-forms allow-scripts; style-src 'self' 'unsafe-inline'; media-src 'none'; script-src-elem ";

/// The Content-Security-Policy for style sheets served from `origin`: only
/// the feed's and the sitemap's style sheets may run as scripts.
pub open spec fn content_security_policy(origin: Seq<char>) -> Seq<char> {
    CSP_HEAD@ + origin + "/rss/styles.xsl "@ + origin
        + "/sitemap/styles.xsl; upgrade-insecure-requests"@
}

/// A header list, as character sequences.
pub open spec fn headers_view(h: Seq<(&'static str, String)>) -> Seq<(Seq<char>, Seq<char>)> {
    h.map_values(|p: (&'static str, String)| (p.0@, p.1@))
}

/// The security headers that every response carries, for a request that
/// named `host`.
pub open spec fn extra_security_headers(host: Option<Seq<char>>) -> Seq<(Seq<char>, Seq<char>)> {
    seq![
        ("Content-Security-Policy"@, content_security_policy(resource_origin_of(host))),
        ("Cross-Origin-Embedder-Policy"@, "require-corp"@),
        ("Cross-Origin-Opener-Policy"@, "same-origin"@),
        ("Cross-Origin-Resource-Policy"@, "same-origin"@),
        ("X-Download-Options"@, "noopen"@),
        ("X-Permitted-Cross-Domain-Policies"@, "none"@),
    ]
}

/// Sets the security headers that the framework's shield does not.
pub struct ExtraSecurityHeaders;

impl ExtraSecurityHeaders {
    /// The headers for a request that named `host`.
    pub fn headers(&self, host: Option<&str>) -> (r: Vec<(&'static str, String)>)
        ensures
            headers_view(r@) == extra_security_headers(crate::webfinger::opt_view(host)),
    {
        let origin = resource_origin(host);
        let mut csp = joined(CSP_HEAD, origin);
        csp.append("/rss/styles.xsl ");
        csp.append(origin);
        csp.append("/sitemap/styles.xsl; upgrade-insecure-requests");
        let r = vec![
            ("Content-Security-Policy", csp),
            ("Cross-Origin-Embedder-Policy", String::from_str("require-corp")),
            ("Cross-Origin-Opener-Policy", String::from_str("same-origin")),
            ("Cross-Origin-Resource-Policy", String::from_str("same-origin")),
            ("X-Download-Options", String::from_str("noopen")),
            ("X-Permitted-Cross-Domain-Policies", String::from_str("none")),
        ];
        assert(headers_view(r@) =~= extra_security_headers(crate::webfinger::opt_view(host)));
        r
    }
}

/// The names remembered in the memorial header.
pub open spec fn memorial_names() -> Seq<Seq<char>> {
    seq!["Terry Pratchett"@, "Nex Benedict"@]
}

/// Relies on rand's SliceRandom::choose with the thread-local generator: one
/// element of the slice, or `None` when it is empty.
#[verifier::external_body]
fn choose_name(names: &[&'static str]) -> (r: Option<&'static str>)
    ensures
        r is None <==> names@.len() == 0,
        r matches Some(n) ==> names@.contains(n),
{
    rand::seq::SliceRandom::choose(names, &mut rand::thread_rng()).copied()
}

/// A memorial name, chosen at random on each call.
pub fn random_name() -> (r: &'static str)
    ensures
        memorial_names().contains(r@),
{
    let names = vec!["Terry Pratchett", "Nex Benedict"];
    let ghost seen = names@.map_values(|s: &'static str| s@);
    assert(seen =~= memorial_names());
    match choose_name(names.as_slice()) {
        Some(n) => {
            let ghost k = choose|k: int| 0 <= k < names@.len() && names@[k] == n;
            assert(seen[k] == n@);
            n
        },
        None => names[0],
    }
}

/// Sets the memorial header on every response.
pub struct Clacks;

impl Clacks {
    /// The memorial header for `name`.
    pub fn header(&self, name: &str) -> (r: (&'static str, String))
        ensures
            r.0@ == X_CLACKS_OVERHEAD@,
            r.1@ == "GNU "@ + name@,
    {
        (X_CLACKS_OVERHEAD, joined("GNU ", name))
    }
}

/// Sets the pronoun header on every response.
pub struct PronounsAcceptable;

impl PronounsAcceptable {
    /// The pronoun header.
    pub fn header(&self) -> (r: (&'static str, String))
        ensures
            r.0@ == X_PRONOUNS_ACCEPTABLE@,
            r.1@ == "en:"@ + PRONOUNS_EN@,
    {
        (X_PRONOUNS_ACCEPTABLE, joined("en:", PRONOUNS_EN))
    }
}

/// Where a request for `path` with the raw query `query` is sent when the
/// path ends in `/` and is not the root: the same path without that `/`,
/// with the query kept.
pub open spec fn trimmed_location(path: Seq<char>, query: Option<Seq<char>>) -> Option<Seq<char>> {
    if path.len() > 1 && path.last() == '/' {
        Some(
            match query {
                Some(q) => path.drop_last() + "?"@ + q,
                None => path.drop_last(),
            },
        )
    } else {
        None
    }
}

/// Redirects requests whose path ends in `/` to the same path without it.
pub struct TrimSlash;

impl TrimSlash {
    /// The permanent redirection for a request for `path` with the raw query
    /// `query`, where the path ends in `/` and is not the root.
    pub fn redirect_for(&self, path: &str, query: Option<&str>) -> (r: Option<Redirect>)
        ensures
            match trimmed_location(path@, crate::webfinger::opt_view(query)) {
                Some(l) => r matches Some(d) && d.status == crate::status::Status::MovedPermanently
                    && d.location@ == l,
                None => r is None,
            },
    {
        proof {
            reveal_strlit("/");
        }
        let n = path.unicode_len();
        if n <= 1 || !has_suffix(path, "/") {
            return None;
        }
        assert(path@.subrange(n - 1, n as int)[0] == path@.last());
        assert(path@.last() == '/');
        let stem = path.substring_char(0, n - 1);
        assert(stem@ =~= path@.drop_last());
        let location = match query {
            Some(q) => {
                let mut l = joined(stem, "?");
                l.append(q);
                l
            },
            None => String::from_str(stem),
        };
        Some(Redirect::moved_permanently(location))
    }
}

} // verus!
