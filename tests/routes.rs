use include_dir::{Dir, DirEntry, File};
use portfolio::routes::{respond, response_headers, Body, Method, Request, Response};
use portfolio::status::Status;

const ROBOTS: &[u8] = b"User-agent: *\nAllow: /\n";
const SITEMAP_HTML: &[u8] = b"<!doctype html><title>Sitemap</title>";
const SITEMAP_INDEX: &[u8] = b"<?xml version=\"1.0\"?><sitemapindex/>";
const SITEMAP_0: &[u8] = b"<?xml version=\"1.0\"?><urlset/>";
const FURSONA: &[u8] = b"{\"sonas\":[]}";
const INDEX: &[u8] = b"<!doctype html><title>Home</title>";
const CONTACT: &[u8] = b"<!doctype html><title>Contact</title>";
const NOT_FOUND: &[u8] = b"<!doctype html><title>Not Found</title>";
const AVATAR: &[u8] = &[0x89, b'P', b'N', b'G', 0x0d, 0x0a, 0x1a, 0x0a, 0, 0, 0, 13];
const WAYS_INDEX: &[u8] = b"<!doctype html><title>Ways</title>";
const WAYS_POST: &[u8] = b"<!doctype html><title>A way</title>";
const BLOG_INDEX: &[u8] = b"<!doctype html><title>Blog</title>";

const HTML: &str = "text/html; charset=utf-8";
const PLAIN: &str = "text/plain; charset=utf-8";
const XML: &str = "text/xml; charset=utf-8";
const JSON: &str = "application/json";
const PNG: &str = "image/png";

fn leak<T>(v: Vec<T>) -> &'static [T] {
    Box::leak(v.into_boxed_slice())
}

fn file(path: &'static str, contents: &'static [u8]) -> DirEntry<'static> {
    DirEntry::File(File::new(path, contents))
}

/// A small site laid out as the build output is.
fn dist() -> Dir<'static> {
    let well_known = Dir::new(".well-known", leak(vec![file(".well-known/fursona.json", FURSONA)]));
    let refs = Dir::new(
        "images/refs",
        leak(vec![file("images/refs/AverageHelper-avatar.png", AVATAR)]),
    );
    let images = Dir::new("images", leak(vec![DirEntry::Dir(refs)]));
    let ways = Dir::new("ways", leak(vec![file("ways/first.html", WAYS_POST)]));
    let blog = Dir::new("blog", leak(vec![file("blog/index.html", BLOG_INDEX)]));
    Dir::new(
        "",
        leak(vec![
            file("robots.txt", ROBOTS),
            file("sitemap.html", SITEMAP_HTML),
            file("sitemap-index.xml", SITEMAP_INDEX),
            file("sitemap-0.xml", SITEMAP_0),
            file("index.html", INDEX),
            file("contact.html", CONTACT),
            file("404.html", NOT_FOUND),
            file("ways.html", WAYS_INDEX),
            DirEntry::Dir(well_known),
            DirEntry::Dir(images),
            DirEntry::Dir(ways),
            DirEntry::Dir(blog),
        ]),
    )
}

fn request<'a>(method: Method, path: &'a str, params: Vec<(&'a str, &'a str)>) -> Request<'a> {
    Request {
        method,
        path,
        query: None,
        params,
        user_agent: None,
        origin: Some("https://average.name"),
        host: None,
    }
}

fn get(path: &str) -> Response {
    respond(&dist(), &request(Method::Get, path, vec![]))
}

fn get_with_origin(path: &str, origin: Option<&str>) -> Response {
    let mut req = request(Method::Get, path, vec![]);
    req.origin = origin;
    respond(&dist(), &req)
}

fn get_with_user_agent(path: &str, user_agent: &str) -> Response {
    let mut req = request(Method::Get, path, vec![]);
    req.user_agent = Some(user_agent);
    respond(&dist(), &req)
}

fn get_with_params<'a>(path: &'a str, params: Vec<(&'a str, &'a str)>) -> Response {
    respond(&dist(), &request(Method::Get, path, params))
}

fn head(path: &str) -> Response {
    respond(&dist(), &request(Method::Head, path, vec![]))
}

fn header(res: &Response, name: &str) -> Option<String> {
    response_headers(res, None, "Terry Pratchett")
        .into_iter()
        .find(|(n, _)| n.eq_ignore_ascii_case(name))
        .map(|(_, v)| v)
}

fn assert_headers(res: &Response) {
    let csp = header(res, "Content-Security-Policy").expect("Content-Security-Policy value should exist");
    assert!(csp.contains("upgrade-insecure-requests"));
    assert_eq!(header(res, "Cross-Origin-Opener-Policy").as_deref(), Some("same-origin"));
    assert_eq!(header(res, "X-Download-Options").as_deref(), Some("noopen"));
    assert!(header(res, "X-Clacks-Overhead").is_some());
    assert!(header(res, "X-Pronouns-Acceptable").is_some());
}

fn assert_cors(res: &Response, allowed_origin: &'static str) {
    assert_eq!(res.allow_origin, Some(allowed_origin));
    assert_eq!(header(res, "Access-Control-Allow-Origin").as_deref(), Some(allowed_origin));
}

fn assert_redir(res: &Response, location: &str) {
    assert_eq!(res.location.as_deref().expect("Location header should be present"), location);
    assert_eq!(header(res, "Location").as_deref(), Some(location));
}

fn assert_content_type(res: &Response, content_type: &str) {
    assert_eq!(res.content_type.as_deref(), Some(content_type));
}

fn response_bytes(res: &Response) -> Vec<u8> {
    if !res.send_body {
        return vec![];
    }
    match &res.body {
        Body::Empty => vec![],
        Body::Bytes(b) => b.to_vec(),
        Body::Text(t) => t.as_bytes().to_vec(),
        Body::Document(_) => panic!("Body should be bytes"),
    }
}

fn response_body(res: &Response) -> String {
    String::from_utf8(response_bytes(res)).expect("Body should be valid UTF-8")
}

#[test]
fn test_answers_favicon() {
    let res = get("/favicon.ico");
    assert_eq!(res.status, Status::NotFound);
    assert_headers(&res);
    assert!(response_body(&res).is_empty());
}

#[test]
fn test_answers_pronouns() {
    let res = get("/.well-known/pronouns");
    assert_eq!(res.status, Status::Success);
    assert_headers(&res);
    assert_cors(&res, "*");
    assert_eq!(response_body(&res), "she/her");
}

#[test]
fn test_webfinger_fails_without_resource_param() {
    let res = get("/.well-known/webfinger");
    assert_eq!(res.status, Status::BadRequest);
    assert_headers(&res);
}

#[test]
fn webfinger_route_answers_with_a_document() {
    let res = get_with_params("/.well-known/webfinger", vec![("resource", "acct:average.name")]);
    assert_eq!(res.status, Status::Success);
    assert_headers(&res);
    assert_cors(&res, "*");
    assert_content_type(&res, "application/jrd+json; charset=UTF-8");
    match &res.body {
        Body::Document(doc) => {
            assert_eq!(doc.subject, "acct:avghelper@fosstodon.org");
            assert_eq!(doc.links.len(), 3);
        }
        _ => panic!("Expected a WebFinger document"),
    }
    let res = get_with_params(
        "/.well-known/webfinger",
        vec![("resource", "acct:average.name"), ("rel", "self")],
    );
    match &res.body {
        Body::Document(doc) => {
            assert_eq!(doc.links.len(), 1);
            assert_eq!(doc.links[0].rel, "self");
        }
        _ => panic!("Expected a WebFinger document"),
    }
}

#[test]
fn webfinger_route_errors_use_the_error_pages() {
    let res = get_with_params("/.well-known/webfinger", vec![("resource", "")]);
    assert_eq!(res.status, Status::BadRequest);
    assert_eq!(response_body(&res), "Bad Request");
    let res = get_with_params("/.well-known/webfinger", vec![("resource", "acct:")]);
    assert_eq!(res.status, Status::BadRequest);
    let res = get_with_params("/.well-known/webfinger", vec![("resource", "https:foo.bar")]);
    assert_eq!(res.status, Status::NotFound);
    assert_eq!(response_bytes(&res), NOT_FOUND);
    let res = get_with_params("/.well-known/webfinger", vec![("resource", "acct:foo@unknown.host")]);
    assert_eq!(res.status, Status::NotFound);
    assert!(res.allow_origin.is_none());
}

#[test]
fn test_serves_nodeinfo() {
    let res = get("/.well-known/nodeinfo");
    assert_eq!(res.status, Status::NotFound);
    assert_headers(&res);

    let res2 = get_with_user_agent("/.well-known/nodeinfo", "GitHub-NodeinfoQuery");
    assert_eq!(res2.status, Status::Found);
    assert_headers(&res2);
    assert_redir(&res2, "https://fosstodon.org/.well-known/nodeinfo");
}

#[test]
fn nodeinfo_route_hides_from_other_agents() {
    let res = get_with_user_agent("/.well-known/nodeinfo", "foo");
    assert_eq!(res.status, Status::NotFound);
    assert_eq!(response_bytes(&res), NOT_FOUND);
}

#[test]
fn test_on_demand_tls_serves_400_without_domain() {
    let res = get("/.well-known/domains");
    assert_eq!(res.status, Status::BadRequest);
    assert_headers(&res);
}

#[test]
fn test_on_demand_tls_serves_404_with_unknown_domain() {
    let res = get_with_params("/.well-known/domains", vec![("domain", "example.com")]);
    assert_eq!(res.status, Status::NotFound);
    assert_headers(&res);
}

#[test]
fn test_on_demand_tls_serves_204_with_known_domain() {
    let res = get_with_params("/.well-known/domains", vec![("domain", "www.avg.name")]);
    assert_eq!(res.status, Status::NoContent);
    assert_headers(&res);
}

#[test]
fn on_demand_tls_route_answers_each_domain() {
    for (domain, status) in [
        ("avg.name", Status::NoContent),
        ("dotfiles.avg.name", Status::NoContent),
        ("example.com", Status::NotFound),
    ] {
        let res = get_with_params("/.well-known/domains", vec![("domain", domain)]);
        assert_eq!(res.status, status, "{domain}");
        assert!(response_bytes(&res).is_empty());
    }
}

#[test]
fn test_serves_static_files() {
    let file_paths = vec![
        ("/robots.txt", PLAIN, "https://average.name", ROBOTS),
        ("/sitemap.html", HTML, "https://average.name", SITEMAP_HTML),
        ("/sitemap-index.xml", XML, "https://average.name", SITEMAP_INDEX),
        ("/sitemap-0.xml", XML, "https://average.name", SITEMAP_0),
        ("/.well-known/fursona.json", JSON, "*", FURSONA),
        ("/index.html", HTML, "https://average.name", INDEX),
        ("/contact.html", HTML, "https://average.name", CONTACT),
    ];

    for (path, mime, origin, contents) in file_paths {
        let res = get(path);
        assert_eq!(res.status, Status::Success, "{path}");
        assert_headers(&res);
        assert_cors(&res, origin);
        assert_content_type(&res, mime);
        assert_eq!(response_bytes(&res), contents);
    }
}

#[test]
fn test_omits_cors_header_for_unknown_origin() {
    let file_paths = vec![
        ("/robots.txt", PLAIN, ROBOTS),
        ("/sitemap.html", HTML, SITEMAP_HTML),
        ("/sitemap-index.xml", XML, SITEMAP_INDEX),
        ("/sitemap-0.xml", XML, SITEMAP_0),
        ("/index.html", HTML, INDEX),
        ("/contact.html", HTML, CONTACT),
    ];

    for (path, mime, contents) in file_paths {
        let res = get_with_origin(path, None);
        assert_eq!(res.status, Status::Success);
        assert_headers(&res);
        assert_content_type(&res, mime);
        assert!(header(&res, "Access-Control-Allow-Origin").is_none());
        assert_eq!(response_bytes(&res), contents);
        let other = get_with_origin(path, Some("https://example.com"));
        assert!(other.allow_origin.is_none());
    }
}

#[test]
fn test_serves_static_files_without_extension() {
    let file_paths = vec![("/sitemap", SITEMAP_HTML), ("/", INDEX), ("/contact", CONTACT)];

    for (path, contents) in file_paths {
        let res = get(path);
        assert_eq!(res.status, Status::Success);
        assert_headers(&res);
        assert_content_type(&res, HTML);
        assert_eq!(response_bytes(&res), contents);
    }
}

#[test]
fn directories_resolve_to_their_sibling_then_their_index() {
    let res = get("/ways");
    assert_eq!(res.status, Status::Success);
    assert_eq!(response_bytes(&res), WAYS_INDEX);
    let res = get("/blog");
    assert_eq!(res.status, Status::Success);
    assert_eq!(response_bytes(&res), BLOG_INDEX);
    assert_content_type(&res, HTML);
    let res = get("/ways/first");
    assert_eq!(response_bytes(&res), WAYS_POST);
    let res = get("/images");
    assert_eq!(res.status, Status::NotFound);
}

#[test]
fn paths_with_a_dot_get_no_html_inferred() {
    let res = get("/sitemap.htm");
    assert_eq!(res.status, Status::NotFound);
    let res = get("/contact.v2");
    assert_eq!(res.status, Status::NotFound);
    let res = get("/ways//first");
    assert_eq!(res.status, Status::NotFound);
}

#[test]
fn test_serves_404_for_unknown_page() {
    let file_paths = vec!["/foo_bar_nothing_to_see_here", "/contact/no-thanks"];

    for path in file_paths {
        let res = get(path);
        assert_eq!(res.status, Status::NotFound);
        assert_headers(&res);
        assert_content_type(&res, HTML);
        assert_eq!(response_bytes(&res), NOT_FOUND);
    }
}

#[test]
fn test_serves_fursona_ref() {
    let path = "/images/refs/AverageHelper-avatar.png";
    let res = head(path);
    assert_eq!(res.status, Status::Success);
    assert_headers(&res);
    assert_content_type(&res, PNG);
    assert_cors(&res, "*");
    assert_eq!(response_bytes(&res).len(), 0);

    let res = get(path);
    assert_eq!(res.status, Status::Success);
    assert_headers(&res);
    assert_content_type(&res, PNG);
    assert_cors(&res, "*");
    assert_eq!(response_bytes(&res), AVATAR);
}

#[test]
fn test_serves_fursona_json() {
    let res = head("/.well-known/fursona.json");
    assert_eq!(res.status, Status::Success);
    assert_content_type(&res, JSON);
    assert_cors(&res, "*");
    assert_eq!(response_bytes(&res).len(), 0);

    let res = get("/.well-known/fursona.json");
    assert_eq!(res.status, Status::Success);
    assert_content_type(&res, JSON);
    assert_cors(&res, "*");
    assert_eq!(response_bytes(&res), FURSONA);
}

#[test]
fn head_and_get_carry_the_same_headers() {
    let path = "/images/refs/AverageHelper-avatar.png";
    let h = head(path);
    let g = get(path);
    assert_eq!(response_headers(&h, None, "Nex Benedict"), response_headers(&g, None, "Nex Benedict"));
    assert!(!h.send_body);
    assert!(g.send_body);
    match (&h.body, &g.body) {
        (Body::Bytes(a), Body::Bytes(b)) => assert_eq!(a.len(), b.len()),
        _ => panic!("Expected bytes"),
    }
}

#[test]
fn serving_twice_gives_the_same_bytes() {
    for path in ["/contact", "/robots.txt", "/nothing-here"] {
        let a = get(path);
        let b = get_with_origin(path, Some("https://example.com"));
        assert_eq!(a.status, b.status);
        assert_eq!(a.content_type, b.content_type);
        assert_eq!(response_bytes(&a), response_bytes(&b));
    }
}

#[test]
fn test_redirects() {
    let redirects = vec![
        ("/ip", "https://ip.average.name"),
        ("/how", "/ways"),
        ("/how.html", "/ways.html"),
        ("/bookmarks", "/links"),
        ("/bookmarks.html", "/links.html"),
        ("/pronouns", "/.well-known/pronouns"),
        ("/fursona.json", "/.well-known/fursona.json"),
        ("/.well-known/fursona", "/.well-known/fursona.json"),
        ("/@avg", "https://gts.average.name/@avghelper"),
        ("/@avghelper", "https://gts.average.name/@avghelper"),
        ("/@average", "https://gts.average.name/@avghelper"),
    ];

    for (from, to) in redirects {
        let res = get(from);
        assert_eq!(res.status, Status::Found);
        assert_headers(&res);
        assert_redir(&res, to);
    }
}

#[test]
fn test_fairing_does_nothing_for_valid_paths() {
    let empty = Dir::new("", &[]);
    let cases = vec!["/", "/foo", "/foo/bar", "/foo/bar/baz", "/foo/bar/42"];

    for path in cases {
        let res = respond(&empty, &request(Method::Get, path, vec![]));
        assert_eq!(res.status, Status::NotFound);
    }
}

#[test]
fn test_fairing_redirects_trailing_slashes_appropriately() {
    let empty = Dir::new("", &[]);
    let cases = vec![
        ("/foo/", "/foo"),
        ("/foo/bar/", "/foo/bar"),
        ("/foo/bar/baz/", "/foo/bar/baz"),
        ("/foo/bar/42/", "/foo/bar/42"),
    ];

    for (path, dest) in cases {
        let res = respond(&empty, &request(Method::Get, path, vec![]));
        assert_eq!(res.status, Status::MovedPermanently);
        assert_eq!(header(&res, "Location").as_deref(), Some(dest));
    }
}

#[test]
fn trailing_slash_redirect_keeps_the_query_and_wins_over_routes() {
    let mut req = request(Method::Get, "/contact/", vec![]);
    req.query = Some("a=1");
    let res = respond(&dist(), &req);
    assert_eq!(res.status, Status::MovedPermanently);
    assert_eq!(res.location.as_deref(), Some("/contact?a=1"));
    let res = get("/ip/");
    assert_eq!(res.status, Status::MovedPermanently);
    assert_eq!(res.location.as_deref(), Some("/ip"));
}

#[test]
fn every_response_carries_the_courtesy_and_security_headers() {
    let res = get("/nothing-here");
    let headers = response_headers(&res, Some("localhost"), "Nex Benedict");
    let names: Vec<&str> = headers.iter().map(|(n, _)| *n).collect();
    assert_eq!(
        names,
        vec![
            "Content-Type",
            "Content-Security-Policy",
            "Cross-Origin-Embedder-Policy",
            "Cross-Origin-Opener-Policy",
            "Cross-Origin-Resource-Policy",
            "X-Download-Options",
            "X-Permitted-Cross-Domain-Policies",
            "X-Clacks-Overhead",
            "X-Pronouns-Acceptable",
        ]
    );
    assert_eq!(headers[7].1, "GNU Nex Benedict");
    assert_eq!(headers[8].1, "en:she/her");
    assert!(headers[1].1.contains("script-src-elem http://localhost/rss/styles.xsl http://localhost/sitemap/styles.xsl;"));
}
