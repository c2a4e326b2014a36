//! The site's HTTP surface: which answer each request gets.
use vstd::prelude::*;

use crate::assets::{
    content_type_for, content_type_of, dir_dirs, dir_files, is_plain_path, resolve,
    resolve_asset,
};
use crate::domains::{is_trusted_domain, on_demand_tls};
use crate::headers::{
    allowed_origin, extra_security_headers, headers_view, trimmed_location, Clacks, CorsPolicy,
    ExtraSecurityHeaders, PronounsAcceptable, TrimSlash, ALLOW_ORIGIN_HEADER, PRONOUNS_EN,
    X_CLACKS_OVERHEAD, X_PRONOUNS_ACCEPTABLE,
};
use crate::status::Status;
use crate::text::same_text;
use crate::webfinger::{
    is_nodeinfo_agent, nodeinfo, opt_view, parsed_url, strs_view, webfinger, webfinger_outcome,
    UserAgent, WebFinger, WebFingerView, NODEINFO_LOCATION,
};

verus! {

/// The media type of plain text.
pub const PLAIN_TEXT: &'static str = "text/plain; charset=utf-8";

/// The media type of a WebFinger document.
pub const JRD_JSON: &'static str = "application/jrd+json; charset=UTF-8";

/// The page sent with every "not found".
pub const NOT_FOUND_PAGE: &'static str = "404.html";

/// The home page.
pub const INDEX_PAGE: &'static str = "index.html";

/// Where the avatar image is served.
pub const AVATAR_PATH: &'static str = "/images/refs/AverageHelper-avatar.png";

/// The avatar image in the asset tree.
pub const AVATAR_FILE: &'static str = "images/refs/AverageHelper-avatar.png";

/// Where the character sheet is served.
pub const FURSONA_PATH: &'static str = "/.well-known/fursona.json";

/// The character sheet in the asset tree.
pub const FURSONA_FILE: &'static str = ".well-known/fursona.json";

/// The body of a "bad request".
pub const BAD_REQUEST_TEXT: &'static str = "Bad Request";

/// Where the federated account lives.
pub const ACCOUNT_URL: &'static str = "https://gts.average.name/@avghelper";

/// The request methods that the site answers.
#[derive(PartialEq, Eq, Structural, Clone, Copy, Debug)]
pub enum Method {
    Get,
    Head,
}

/// An HTTP request, as far as the site reads it.
pub struct Request<'a> {
    pub method: Method,
    /// The percent-decoded path, starting with `/`.
    pub path: &'a str,
    /// The raw query, without its `?`.
    pub query: Option<&'a str>,
    /// The decoded query parameters, in order.
    pub params: Vec<(&'a str, &'a str)>,
    pub user_agent: Option<&'a str>,
    pub origin: Option<&'a str>,
    /// The host that the request named, without a port.
    pub host: Option<&'a str>,
}

/// The body of a response.
pub enum Body {
    Empty,
    Bytes(&'static [u8]),
    Text(&'static str),
    /// A WebFinger document, to be written as JSON.
    Document(WebFinger),
}

/// What a body holds.
pub enum BodyView {
    Empty,
    Bytes(Seq<u8>),
    Text(Seq<char>),
    Document(WebFingerView),
}

impl View for Body {
    type V = BodyView;

    open spec fn view(&self) -> BodyView {
        match self {
            Body::Empty => BodyView::Empty,
            Body::Bytes(b) => BodyView::Bytes(b@),
            Body::Text(t) => BodyView::Text(t@),
            Body::Document(d) => BodyView::Document(d@),
        }
    }
}

/// An HTTP response, before the headers that every response carries.
pub struct Response {
    pub status: Status,
    pub content_type: Option<String>,
    pub location: Option<String>,
    /// The cross-origin allow header, where one is sent.
    pub allow_origin: Option<&'static str>,
    pub body: Body,
    /// Whether the body is sent; a HEAD answer keeps everything else.
    pub send_body: bool,
}

/// What a response holds.
pub struct ResponseView {
    pub status: Status,
    pub content_type: Option<Seq<char>>,
    pub location: Option<Seq<char>>,
    pub allow_origin: Option<Seq<char>>,
    pub body: BodyView,
    pub send_body: bool,
}

/// The characters of an optional owned string.
pub open spec fn string_opt_view(o: Option<String>) -> Option<Seq<char>> {
    match o {
        Some(s) => Some(s@),
        None => None,
    }
}

impl View for Response {
    type V = ResponseView;

    open spec fn view(&self) -> ResponseView {
        ResponseView {
            status: self.status,
            content_type: string_opt_view(self.content_type),
            location: string_opt_view(self.location),
            allow_origin: opt_view(self.allow_origin),
            body: self.body@,
            send_body: self.send_body,
        }
    }
}

/// Where a legacy path is sent (302), if it is one.
pub open spec fn redirect_target(path: Seq<char>) -> Option<Seq<char>> {
    if path == "/ip"@ {
        Some("https://ip.average.name"@)
    } else if path == "/how"@ {
        Some("/ways"@)
    } else if path == "/how.html"@ {
        Some("/ways.html"@)
    } else if path == "/bookmarks"@ {
        Some("/links"@)
    } else if path == "/bookmarks.html"@ {
        Some("/links.html"@)
    } else if path == "/pronouns"@ {
        Some("/.well-known/pronouns"@)
    } else if path == "/fursona.json"@ || path == "/.well-known/fursona"@ {
        Some(FURSONA_PATH@)
    } else if path == "/@avg"@ || path == "/@avghelper"@ || path == "/@average"@ {
        Some(ACCOUNT_URL@)
    } else {
        None
    }
}

/// Where a legacy path is sent, as `redirect_target` states it.
pub fn redirect_for(path: &str) -> (r: Option<&'static str>)
    ensures
        opt_view(r) == redirect_target(path@),
{
    if same_text(path, "/ip") {
        Some("https://ip.average.name")
    } else if same_text(path, "/how") {
        Some("/ways")
    } else if same_text(path, "/how.html") {
        Some("/ways.html")
    } else if same_text(path, "/bookmarks") {
        Some("/links")
    } else if same_text(path, "/bookmarks.html") {
        Some("/links.html")
    } else if same_text(path, "/pronouns") {
        Some("/.well-known/pronouns")
    } else if same_text(path, "/fursona.json") || same_text(path, "/.well-known/fursona") {
        Some(FURSONA_PATH)
    } else if same_text(path, "/@avg") || same_text(path, "/@avghelper") || same_text(
        path,
        "/@average",
    ) {
        Some(ACCOUNT_URL)
    } else {
        None
    }
}

/// The value of the first query parameter called `name`.
pub open spec fn first_param(ps: Seq<(&str, &str)>, name: Seq<char>) -> Option<Seq<char>>
    decreases ps.len(),
{
    if ps.len() == 0 {
        None
    } else if ps[0].0@ == name {
        Some(ps[0].1@)
    } else {
        first_param(ps.drop_first(), name)
    }
}

/// The values of every query parameter called `name`, in order.
pub open spec fn param_values(ps: Seq<(&str, &str)>, name: Seq<char>) -> Seq<Seq<char>>
    decreases ps.len(),
{
    if ps.len() == 0 {
        Seq::empty()
    } else if ps.last().0@ == name {
        param_values(ps.drop_last(), name).push(ps.last().1@)
    } else {
        param_values(ps.drop_last(), name)
    }
}

/// The value of the first query parameter called `name`.
pub fn param<'a>(ps: &Vec<(&'a str, &'a str)>, name: &str) -> (r: Option<&'a str>)
    ensures
        opt_view(r) == first_param(ps@, name@),
{
    let mut i: usize = 0;
    assert(ps@.subrange(0, ps@.len() as int) =~= ps@);
    while i < ps.len()
        invariant
            i <= ps@.len(),
            first_param(ps@, name@) == first_param(ps@.subrange(i as int, ps@.len() as int), name@),
        decreases ps@.len() - i,
    {
        let ghost rest = ps@.subrange(i as int, ps@.len() as int);
        assert(rest.drop_first() =~= ps@.subrange(i + 1, ps@.len() as int));
        assert(rest[0] == ps@[i as int]);
        if same_text(ps[i].0, name) {
            return Some(ps[i].1);
        }
        i = i + 1;
    }
    None
}

/// The values of every query parameter called `name`, in order.
pub fn params_named<'a>(ps: &Vec<(&'a str, &'a str)>, name: &str) -> (r: Vec<&'a str>)
    ensures
        strs_view(r@) == param_values(ps@, name@),
{
    let mut out: Vec<&'a str> = Vec::new();
    let mut i: usize = 0;
    while i < ps.len()
        invariant
            i <= ps@.len(),
            strs_view(out@) == param_values(ps@.take(i as int), name@),
        decreases ps@.len() - i,
    {
        assert(ps@.take(i + 1).drop_last() =~= ps@.take(i as int));
        assert(ps@.take(i + 1).last() == ps@[i as int]);
        if same_text(ps[i].0, name) {
            out.push(ps[i].1);
            assert(strs_view(out@) =~= param_values(ps@.take(i as int), name@).push(ps@[i as int].1@));
        }
        i = i + 1;
    }
    assert(ps@.take(i as int) =~= ps@);
    out
}

/// The answer with the "not found" page.
pub open spec fn not_found_view(files: Map<Seq<char>, Seq<u8>>) -> ResponseView {
    ResponseView {
        status: Status::NotFound,
        content_type: Some(content_type_of(NOT_FOUND_PAGE@)),
        location: None,
        allow_origin: None,
        body: if files.contains_key(NOT_FOUND_PAGE@) {
            BodyView::Bytes(files[NOT_FOUND_PAGE@])
        } else {
            BodyView::Empty
        },
        send_body: true,
    }
}

/// An answer with a status alone.
pub open spec fn status_view(status: Status) -> ResponseView {
    ResponseView {
        status,
        content_type: None,
        location: None,
        allow_origin: None,
        body: BodyView::Empty,
        send_body: true,
    }
}

/// The answer to a malformed request.
pub open spec fn bad_request_view() -> ResponseView {
    ResponseView {
        status: Status::BadRequest,
        content_type: Some(PLAIN_TEXT@),
        location: None,
        allow_origin: None,
        body: BodyView::Text(BAD_REQUEST_TEXT@),
        send_body: true,
    }
}

/// The answer for a handler's error status.
pub open spec fn error_view(files: Map<Seq<char>, Seq<u8>>, status: Status) -> ResponseView {
    if status == Status::NotFound {
        not_found_view(files)
    } else if status == Status::BadRequest {
        bad_request_view()
    } else {
        status_view(status)
    }
}

/// A temporary redirection to `location`.
pub open spec fn redirect_view(location: Seq<char>) -> ResponseView {
    ResponseView {
        status: Status::Found,
        content_type: None,
        location: Some(location),
        allow_origin: None,
        body: BodyView::Empty,
        send_body: true,
    }
}

/// The answer with the file at `key`, or "not found" where there is none.
pub open spec fn file_view(
    files: Map<Seq<char>, Seq<u8>>,
    key: Seq<char>,
    allow: Option<Seq<char>>,
) -> ResponseView {
    if is_plain_path(key) && files.contains_key(key) {
        ResponseView {
            status: Status::Success,
            content_type: Some(content_type_of(key)),
            location: None,
            allow_origin: allow,
            body: BodyView::Bytes(files[key]),
            send_body: true,
        }
    } else {
        not_found_view(files)
    }
}

/// The path of the asset tree that a request path names: the path without
/// its leading `/`.
pub open spec fn tree_key(path: Seq<char>) -> Option<Seq<char>> {
    if path.len() > 0 && path[0] == '/' {
        Some(path.drop_first())
    } else {
        None
    }
}

/// The answer to a request for a path that is not a fixed route: the asset
/// that the path resolves to, readable by the production origin.
pub open spec fn asset_view(
    files: Map<Seq<char>, Seq<u8>>,
    dirs: Set<Seq<char>>,
    path: Seq<char>,
    origin: Option<Seq<char>>,
) -> ResponseView {
    match tree_key(path) {
        Some(key) => match resolve(files, dirs, key) {
            Some(k) => file_view(files, k, allowed_origin(CorsPolicy::ProductionOrigin, origin)),
            None => not_found_view(files),
        },
        None => not_found_view(files),
    }
}

/// Whether `path` is one of the fixed routes, which the asset tree does not
/// answer.
pub open spec fn is_fixed_route(path: Seq<char>) -> bool {
    ||| path == "/favicon.ico"@
    ||| redirect_target(path) is Some
    ||| path == "/.well-known/pronouns"@
    ||| path == AVATAR_PATH@
    ||| path == FURSONA_PATH@
    ||| path == "/.well-known/webfinger"@
    ||| path == "/.well-known/nodeinfo"@
    ||| path == "/.well-known/domains"@
    ||| path == "/"@
}

/// The answer to a request for `path` with query parameters `params`, from
/// `user_agent` and `origin`, from the route that the path names, when it has
/// no trailing slash to trim.
pub open spec fn route_view(
    files: Map<Seq<char>, Seq<u8>>,
    dirs: Set<Seq<char>>,
    path: Seq<char>,
    params: Seq<(&str, &str)>,
    user_agent: Option<Seq<char>>,
    origin: Option<Seq<char>>,
) -> ResponseView {
    if path == "/favicon.ico"@ {
        ResponseView {
            status: Status::NotFound,
            content_type: Some(PLAIN_TEXT@),
            location: None,
            allow_origin: None,
            body: BodyView::Empty,
            send_body: true,
        }
    } else if redirect_target(path) is Some {
        redirect_view(redirect_target(path)->0)
    } else if path == "/.well-known/pronouns"@ {
        ResponseView {
            status: Status::Success,
            content_type: Some(PLAIN_TEXT@),
            location: None,
            allow_origin: Some("*"@),
            body: BodyView::Text(PRONOUNS_EN@),
            send_body: true,
        }
    } else if path == AVATAR_PATH@ {
        file_view(files, AVATAR_FILE@, Some("*"@))
    } else if path == FURSONA_PATH@ {
        file_view(files, FURSONA_FILE@, Some("*"@))
    } else if path == "/.well-known/webfinger"@ {
        match first_param(params, "resource"@) {
            None => bad_request_view(),
            Some(res) => match webfinger_outcome(
                parsed_url(res),
                Some(param_values(params, "rel"@)),
            ) {
                Ok(doc) => ResponseView {
                    status: Status::Success,
                    content_type: Some(JRD_JSON@),
                    location: None,
                    allow_origin: Some("*"@),
                    body: BodyView::Document(doc),
                    send_body: true,
                },
                Err(s) => error_view(files, s),
            },
        }
    } else if path == "/.well-known/nodeinfo"@ {
        if is_nodeinfo_agent(user_agent) {
            redirect_view(NODEINFO_LOCATION@)
        } else {
            not_found_view(files)
        }
    } else if path == "/.well-known/domains"@ {
        match first_param(params, "domain"@) {
            None => status_view(Status::BadRequest),
            Some(d) => status_view(
                if is_trusted_domain(d) {
                    Status::NoContent
                } else {
                    Status::NotFound
                },
            ),
        }
    } else if path == "/"@ {
        file_view(files, INDEX_PAGE@, allowed_origin(CorsPolicy::ProductionOrigin, origin))
    } else {
        asset_view(files, dirs, path, origin)
    }
}

/// `r` with its body sent or not.
pub open spec fn with_body_sent(r: ResponseView, send: bool) -> ResponseView {
    ResponseView {
        status: r.status,
        content_type: r.content_type,
        location: r.location,
        allow_origin: r.allow_origin,
        body: r.body,
        send_body: send,
    }
}

/// The answer to `req`: a path with a trailing slash (not the root) is sent
/// permanently to the path without it; every other request is answered by
/// its route. A HEAD request gets the GET answer without its body.
pub open spec fn response_view(
    files: Map<Seq<char>, Seq<u8>>,
    dirs: Set<Seq<char>>,
    req: Request,
) -> ResponseView {
    let base = match trimmed_location(req.path@, opt_view(req.query)) {
        Some(l) => ResponseView {
            status: Status::MovedPermanently,
            content_type: None,
            location: Some(l),
            allow_origin: None,
            body: BodyView::Empty,
            send_body: true,
        },
        None => route_view(
            files,
            dirs,
            req.path@,
            req.params@,
            opt_view(req.user_agent),
            opt_view(req.origin),
        ),
    };
    with_body_sent(base, req.method == Method::Get)
}

/// An answer with no body and no headers of its own.
fn status_response(status: Status) -> (r: Response)
    ensures
        r@ == status_view(status),
{
    Response {
        status,
        content_type: None,
        location: None,
        allow_origin: None,
        body: Body::Empty,
        send_body: true,
    }
}

/// The answer with the "not found" page.
fn not_found_response(dist: &include_dir::Dir<'static>) -> (r: Response)
    ensures
        r@ == not_found_view(dir_files(*dist)),
{
    proof {
        reveal_strlit("404.html");
    }
    assert(is_plain_path(NOT_FOUND_PAGE@));
    let page = crate::assets::file_at(dist, NOT_FOUND_PAGE);
    let body = match page {
        Some(b) => Body::Bytes(b),
        None => Body::Empty,
    };
    Response {
        status: Status::NotFound,
        content_type: Some(content_type_for(NOT_FOUND_PAGE)),
        location: None,
        allow_origin: None,
        body,
        send_body: true,
    }
}

/// The answer with the file at `key`, or "not found" where there is none.
fn file_response(dist: &include_dir::Dir<'static>, key: &str, allow: Option<&'static str>) -> (r:
    Response)
    ensures
        r@ == file_view(dir_files(*dist), key@, opt_view(allow)),
{
    match crate::assets::file_at(dist, key) {
        Some(b) => Response {
            status: Status::Success,
            content_type: Some(content_type_for(key)),
            location: None,
            allow_origin: allow,
            body: Body::Bytes(b),
            send_body: true,
        },
        None => not_found_response(dist),
    }
}

/// The answer to a malformed request.
fn bad_request_response() -> (r: Response)
    ensures
        r@ == bad_request_view(),
{
    Response {
        status: Status::BadRequest,
        content_type: Some(String::from_str(PLAIN_TEXT)),
        location: None,
        allow_origin: None,
        body: Body::Text(BAD_REQUEST_TEXT),
        send_body: true,
    }
}

/// The answer for a handler's error status.
fn error_response(dist: &include_dir::Dir<'static>, status: Status) -> (r: Response)
    ensures
        r@ == error_view(dir_files(*dist), status),
{
    match status {
        Status::NotFound => not_found_response(dist),
        Status::BadRequest => bad_request_response(),
        _ => status_response(status),
    }
}

/// A temporary redirection to `location`.
fn redirect_response(location: String) -> (r: Response)
    ensures
        r@ == redirect_view(location@),
{
    Response {
        status: Status::Found,
        content_type: None,
        location: Some(location),
        allow_origin: None,
        body: Body::Empty,
        send_body: true,
    }
}

/// The answer to a request for a path that is not a fixed route.
fn asset_response(dist: &include_dir::Dir<'static>, path: &str, origin: Option<&str>) -> (r:
    Response)
    ensures
        r@ == asset_view(dir_files(*dist), dir_dirs(*dist), path@, opt_view(origin)),
{
    let n = path.unicode_len();
    if n == 0 || path.get_char(0) != '/' {
        return not_found_response(dist);
    }
    let key = path.substring_char(1, n);
    assert(key@ =~= path@.drop_first());
    match resolve_asset(dist, key) {
        Some((k, bytes)) => Response {
            status: Status::Success,
            content_type: Some(content_type_for(k.as_str())),
            location: None,
            allow_origin: CorsPolicy::ProductionOrigin.allow_origin(origin),
            body: Body::Bytes(bytes),
            send_body: true,
        },
        None => not_found_response(dist),
    }
}

/// The answer to `req` from the route it names.
fn route(dist: &include_dir::Dir<'static>, req: &Request) -> (r: Response)
    ensures
        r@ == route_view(
            dir_files(*dist),
            dir_dirs(*dist),
            req.path@,
            req.params@,
            opt_view(req.user_agent),
            opt_view(req.origin),
        ),
{
    let path = req.path;
    if same_text(path, "/favicon.ico") {
        return Response {
            status: Status::NotFound,
            content_type: Some(String::from_str(PLAIN_TEXT)),
            location: None,
            allow_origin: None,
            body: Body::Empty,
            send_body: true,
        };
    }
    if let Some(to) = redirect_for(path) {
        return redirect_response(String::from_str(to));
    }
    if same_text(path, "/.well-known/pronouns") {
        return Response {
            status: Status::Success,
            content_type: Some(String::from_str(PLAIN_TEXT)),
            location: None,
            allow_origin: Some("*"),
            body: Body::Text(PRONOUNS_EN),
            send_body: true,
        };
    }
    if same_text(path, AVATAR_PATH) {
        return file_response(dist, AVATAR_FILE, Some("*"));
    }
    if same_text(path, FURSONA_PATH) {
        return file_response(dist, FURSONA_FILE, Some("*"));
    }
    if same_text(path, "/.well-known/webfinger") {
        return match param(&req.params, "resource") {
            None => bad_request_response(),
            Some(resource) => match webfinger(resource, Some(params_named(&req.params, "rel"))) {
                Ok(doc) => Response {
                    status: Status::Success,
                    content_type: Some(String::from_str(JRD_JSON)),
                    location: None,
                    allow_origin: Some("*"),
                    body: Body::Document(doc),
                    send_body: true,
                },
                Err(s) => error_response(dist, s),
            },
        };
    }
    if same_text(path, "/.well-known/nodeinfo") {
        return match nodeinfo(UserAgent(req.user_agent)) {
            Ok(d) => redirect_response(d.location),
            Err(s) => error_response(dist, s),
        };
    }
    if same_text(path, "/.well-known/domains") {
        return match param(&req.params, "domain") {
            None => status_response(Status::BadRequest),
            Some(domain) => status_response(on_demand_tls(domain).0),
        };
    }
    if same_text(path, "/") {
        return file_response(
            dist,
            INDEX_PAGE,
            CorsPolicy::ProductionOrigin.allow_origin(req.origin),
        );
    }
    asset_response(dist, path, req.origin)
}

/// Answers `req` from the asset tree `dist` and the fixed routes.
pub fn respond(dist: &include_dir::Dir<'static>, req: &Request) -> (r: Response)
    ensures
        r@ == response_view(dir_files(*dist), dir_dirs(*dist), *req),
{
    let base = match TrimSlash.redirect_for(req.path, req.query) {
        Some(d) => Response {
            status: Status::MovedPermanently,
            content_type: None,
            location: Some(d.location),
            allow_origin: None,
            body: Body::Empty,
            send_body: true,
        },
        None => route(dist, req),
    };
    let Response { status, content_type, location, allow_origin, body, send_body: _ } = base;
    Response {
        status,
        content_type,
        location,
        allow_origin,
        body,
        send_body: req.method == Method::Get,
    }
}

/// The headers that a response's own fields give it: its media type, its
/// redirection target and its cross-origin allowance, where it has them.
pub open spec fn own_headers(r: ResponseView) -> Seq<(Seq<char>, Seq<char>)> {
    (match r.content_type {
        Some(t) => seq![("Content-Type"@, t)],
        None => Seq::empty(),
    }) + (match r.location {
        Some(l) => seq![("Location"@, l)],
        None => Seq::empty(),
    }) + (match r.allow_origin {
        Some(o) => seq![(ALLOW_ORIGIN_HEADER@, o)],
        None => Seq::empty(),
    })
}

/// The memorial and pronoun headers, for the memorial name `memorial`.
pub open spec fn courtesy_headers(memorial: Seq<char>) -> Seq<(Seq<char>, Seq<char>)> {
    seq![(X_CLACKS_OVERHEAD@, "GNU "@ + memorial), (X_PRONOUNS_ACCEPTABLE@, "en:"@ + PRONOUNS_EN@)]
}

/// Every header of a response to a request that named `host`: its own,
/// then the extra security headers, then the courtesy headers.
pub open spec fn all_headers(
    r: ResponseView,
    host: Option<Seq<char>>,
    memorial: Seq<char>,
) -> Seq<(Seq<char>, Seq<char>)> {
    own_headers(r) + extra_security_headers(host) + courtesy_headers(memorial)
}

/// The headers of `resp`, answering a request that named `host`, with
/// `memorial` as the memorial name.
pub fn response_headers(resp: &Response, host: Option<&str>, memorial: &str) -> (r: Vec<
    (&'static str, String),
>)
    ensures
        headers_view(r@) == all_headers(resp@, opt_view(host), memorial@),
{
    let mut out: Vec<(&'static str, String)> = Vec::new();
    if let Some(t) = &resp.content_type {
        out.push(("Content-Type", t.clone()));
    }
    if let Some(l) = &resp.location {
        out.push(("Location", l.clone()));
    }
    if let Some(o) = resp.allow_origin {
        out.push((ALLOW_ORIGIN_HEADER, String::from_str(o)));
    }
    assert(headers_view(out@) =~= own_headers(resp@));
    let mut extra = ExtraSecurityHeaders.headers(host);
    out.append(&mut extra);
    out.push(Clacks.header(memorial));
    out.push(PronounsAcceptable.header());
    assert(headers_view(out@) =~= all_headers(resp@, opt_view(host), memorial@));
    out
}

} // verus!
