//! WebFinger (RFC 7033) and NodeInfo answers for the site's federated account.
use vstd::prelude::*;

use crate::status::{Redirect, Status};
use crate::text::{after_last, chars_of, find_after_last, has_prefix, has_suffix, same_text};

verus! {

/// The link relation of a profile page.
pub const PROFILE_PAGE_REL: &'static str = "http://webfinger.net/rel/profile-page";

/// The link relation of the account's ActivityPub actor.
pub const SELF_REL: &'static str = "self";

/// The link relation of the remote-follow template.
pub const SUBSCRIBE_REL: &'static str = "http://ostatus.org/schema/1.0/subscribe";

/// The media type of a profile page.
pub const HTML_TYPE: &'static str = "text/html";

/// The media type of an ActivityPub actor.
pub const ACTIVITY_JSON_TYPE: &'static str = "application/activity+json";

/// The account's profile page.
pub const PROFILE_URL: &'static str = "https://fosstodon.org/@avghelper";

/// The account's ActivityPub actor.
pub const ACTOR_URL: &'static str = "https://fosstodon.org/users/avghelper";

/// The account's remote-follow template.
pub const SUBSCRIBE_TEMPLATE: &'static str = "https://fosstodon.org/authorize_interaction?uri={uri}";

/// The account that every known resource resolves to.
pub const SUBJECT: &'static str = "acct:avghelper@fosstodon.org";

/// The only URI scheme that names an account here.
pub const ACCT_SCHEME: &'static str = "acct";

/// The site's domain, whose accounts this server answers for.
pub const SITE_DOMAIN: &'static str = "average.name";

/// The domain of the instance that hosts the account.
pub const INSTANCE_DOMAIN: &'static str = "fosstodon.org";

/// The User-Agent prefix of the bot that may read the NodeInfo pointer.
pub const NODEINFO_AGENT_PREFIX: &'static str = "GitHub-NodeinfoQuery";

/// Where the NodeInfo pointer sends that bot.
pub const NODEINFO_LOCATION: &'static str = "https://fosstodon.org/.well-known/nodeinfo";

/// A link of a WebFinger document. Absent fields are left out when it is
/// written as JSON.
#[derive(Clone, Copy, Debug)]
pub struct AvailableLink {
    pub rel: &'static str,
    pub kind: Option<&'static str>,
    pub href: Option<&'static str>,
    pub template: Option<&'static str>,
}

/// What a link holds, as character sequences.
pub struct LinkView {
    pub rel: Seq<char>,
    pub kind: Option<Seq<char>>,
    pub href: Option<Seq<char>>,
    pub template: Option<Seq<char>>,
}

/// The characters of an optional string.
pub open spec fn opt_view(o: Option<&str>) -> Option<Seq<char>> {
    match o {
        Some(s) => Some(s@),
        None => None,
    }
}

impl View for AvailableLink {
    type V = LinkView;

    open spec fn view(&self) -> LinkView {
        LinkView {
            rel: self.rel@,
            kind: opt_view(self.kind),
            href: opt_view(self.href),
            template: opt_view(self.template),
        }
    }
}

/// A profile-page link to `url`.
pub open spec fn profile_page_link(url: Seq<char>) -> LinkView {
    LinkView { rel: PROFILE_PAGE_REL@, kind: Some(HTML_TYPE@), href: Some(url), template: None }
}

/// A link to the ActivityPub actor at `url`.
pub open spec fn self_link(url: Seq<char>) -> LinkView {
    LinkView { rel: SELF_REL@, kind: Some(ACTIVITY_JSON_TYPE@), href: Some(url), template: None }
}

/// A remote-follow link with the given template.
pub open spec fn subscribe_link(template: Seq<char>) -> LinkView {
    LinkView { rel: SUBSCRIBE_REL@, kind: None, href: None, template: Some(template) }
}

impl AvailableLink {
    /// A link to the profile page at `url`.
    pub fn with_profile_page(url: &'static str) -> (r: AvailableLink)
        ensures
            r@ == profile_page_link(url@),
    {
        AvailableLink { rel: PROFILE_PAGE_REL, kind: Some(HTML_TYPE), href: Some(url), template: None }
    }

    /// A link to the ActivityPub actor at `url`.
    pub fn with_self(url: &'static str) -> (r: AvailableLink)
        ensures
            r@ == self_link(url@),
    {
        AvailableLink { rel: SELF_REL, kind: Some(ACTIVITY_JSON_TYPE), href: Some(url), template: None }
    }

    /// A remote-follow link with the given URI template.
    pub fn with_subscribe_template(template: &'static str) -> (r: AvailableLink)
        ensures
            r@ == subscribe_link(template@),
    {
        AvailableLink { rel: SUBSCRIBE_REL, kind: None, href: None, template: Some(template) }
    }
}

/// A member of a JSON object when its value is present: none when it is not.
pub open spec fn optional_member(key: Seq<char>, value: Option<Seq<char>>) -> Seq<
    (Seq<char>, Seq<char>),
> {
    match value {
        Some(v) => seq![(key, v)],
        None => Seq::empty(),
    }
}

/// The members of a link written as a JSON object, in order: its relation,
/// then its media type, target and template where it has them.
pub open spec fn link_members(l: LinkView) -> Seq<(Seq<char>, Seq<char>)> {
    seq![("rel"@, l.rel)] + optional_member("type"@, l.kind) + optional_member("href"@, l.href)
        + optional_member("template"@, l.template)
}

impl AvailableLink {
    /// The members of the link written as a JSON object; absent fields are
    /// left out rather than written as null.
    pub fn members(&self) -> (r: Vec<(&'static str, &'static str)>)
        ensures
            r@.map_values(|m: (&'static str, &'static str)| (m.0@, m.1@)) == link_members(self@),
    {
        let mut out: Vec<(&'static str, &'static str)> = vec![("rel", self.rel)];
        if let Some(kind) = self.kind {
            out.push(("type", kind));
        }
        if let Some(href) = self.href {
            out.push(("href", href));
        }
        if let Some(template) = self.template {
            out.push(("template", template));
        }
        assert(out@.map_values(|m: (&'static str, &'static str)| (m.0@, m.1@)) =~= link_members(
            self@,
        ));
        out
    }
}

/// A WebFinger (JRD) document.
#[derive(Clone, Debug)]
pub struct WebFinger {
    pub subject: &'static str,
    pub aliases: Vec<&'static str>,
    pub links: Vec<AvailableLink>,
}

/// What a WebFinger document holds, as character sequences.
pub struct WebFingerView {
    pub subject: Seq<char>,
    pub aliases: Seq<Seq<char>>,
    pub links: Seq<LinkView>,
}

/// The characters of each string.
pub open spec fn strs_view(v: Seq<&str>) -> Seq<Seq<char>> {
    v.map_values(|s: &str| s@)
}

/// The view of each link.
pub open spec fn links_view(v: Seq<AvailableLink>) -> Seq<LinkView> {
    v.map_values(|l: AvailableLink| l@)
}

impl View for WebFinger {
    type V = WebFingerView;

    open spec fn view(&self) -> WebFingerView {
        WebFingerView {
            subject: self.subject@,
            aliases: strs_view(self.aliases@),
            links: links_view(self.links@),
        }
    }
}

/// The account's links, in the order they are listed.
pub open spec fn known_links() -> Seq<LinkView> {
    seq![
        profile_page_link(PROFILE_URL@),
        self_link(ACTOR_URL@),
        subscribe_link(SUBSCRIBE_TEMPLATE@),
    ]
}

/// The other names of the account.
pub open spec fn known_aliases() -> Seq<Seq<char>> {
    seq![
        "https://average.name/@average"@,
        "https://average.name/@avg"@,
        "https://average.name/@avghelper"@,
        "https://fosstodon.org/@avghelper"@,
        "https://fosstodon.org/users/avghelper"@,
    ]
}

/// The requested link relations, if any were given.
pub open spec fn rel_view(rel: Option<Vec<&str>>) -> Option<Seq<Seq<char>>> {
    match rel {
        Some(v) => Some(strs_view(v@)),
        None => None,
    }
}

/// Whether a link is kept under the requested relations: all are kept when
/// none are requested, else only those whose relation is requested.
pub open spec fn rel_selects(rel: Option<Seq<Seq<char>>>, l: LinkView) -> bool {
    match rel {
        None => true,
        Some(rs) => rs.len() == 0 || rs.contains(l.rel),
    }
}

/// `rel_selects` as a predicate on links.
pub open spec fn selects(rel: Option<Seq<Seq<char>>>) -> spec_fn(LinkView) -> bool {
    |l: LinkView| rel_selects(rel, l)
}

/// The document served for a known account.
pub open spec fn document(rel: Option<Seq<Seq<char>>>) -> WebFingerView {
    WebFingerView {
        subject: SUBJECT@,
        aliases: known_aliases(),
        links: known_links().filter(selects(rel)),
    }
}

/// The host part of an account path: what follows its last `@`, or all of
/// it when it has none.
pub open spec fn host_of(path: Seq<char>) -> Seq<char> {
    path.subrange(after_last(path, '@'), path.len() as int)
}

/// Whether accounts on `host` are answered for.
pub open spec fn is_known_host(host: Seq<char>) -> bool {
    host == SITE_DOMAIN@ || host == INSTANCE_DOMAIN@
}

/// The parts of a parsed URL that a WebFinger lookup reads.
#[derive(Clone, Debug)]
pub struct UrlParts {
    /// The whole URL, as the parser writes it back.
    pub serialization: String,
    /// The scheme, without its `:`.
    pub scheme: String,
    /// The path.
    pub path: String,
}

/// What a parsed URL's parts hold, as character sequences.
pub struct UrlPartsView {
    pub serialization: Seq<char>,
    pub scheme: Seq<char>,
    pub path: Seq<char>,
}

impl View for UrlParts {
    type V = UrlPartsView;

    open spec fn view(&self) -> UrlPartsView {
        UrlPartsView {
            serialization: self.serialization@,
            scheme: self.scheme@,
            path: self.path@,
        }
    }
}

/// Whether the url crate parses `s` as an absolute URL.
pub uninterp spec fn url_parses(s: Seq<char>) -> bool;

/// The serialization of the URL that the url crate parses from `s`.
pub uninterp spec fn url_serialization(s: Seq<char>) -> Seq<char>;

/// The scheme of the URL that the url crate parses from `s`.
pub uninterp spec fn url_scheme(s: Seq<char>) -> Seq<char>;

/// The path of the URL that the url crate parses from `s`.
pub uninterp spec fn url_path(s: Seq<char>) -> Seq<char>;

/// The parts of the URL that the url crate parses from `s`, if it does.
pub open spec fn parsed_url(s: Seq<char>) -> Option<UrlPartsView> {
    if url_parses(s) {
        Some(
            UrlPartsView {
                serialization: url_serialization(s),
                scheme: url_scheme(s),
                path: url_path(s),
            },
        )
    } else {
        None
    }
}

/// Relies on url::Url::parse to parse `s`, and on Url::as_str, Url::scheme
/// and Url::path of the result, which depend on `s` alone.
#[verifier::external_body]
fn parse_url(s: &str) -> (r: Option<UrlParts>)
    ensures
        r is Some <==> url_parses(s@),
        r matches Some(u) ==> (u.serialization@ == url_serialization(s@) && u.scheme@
            == url_scheme(s@) && u.path@ == url_path(s@)),
{
    match url::Url::parse(s) {
        Ok(u) => Some(
            UrlParts {
                serialization: u.as_str().to_string(),
                scheme: u.scheme().to_string(),
                path: u.path().to_string(),
            },
        ),
        Err(_) => None,
    }
}

/// The answer to a WebFinger lookup of the resource whose parsed URL is
/// `uri` (`None` where it did not parse).
pub open spec fn webfinger_outcome(
    uri: Option<UrlPartsView>,
    rel: Option<Seq<Seq<char>>>,
) -> Result<WebFingerView, Status> {
    match uri {
        None => Err(Status::BadRequest),
        Some(u) => if ":"@.is_suffix_of(u.serialization) {
            Err(Status::BadRequest)
        } else if u.scheme != ACCT_SCHEME@ {
            Err(Status::NotFound)
        } else if u.path.len() == 0 {
            Err(Status::BadRequest)
        } else if !is_known_host(host_of(u.path)) {
            Err(Status::NotFound)
        } else {
            Ok(document(rel))
        },
    }
}

/// A lookup's result, as character sequences.
pub open spec fn webfinger_view(r: Result<WebFinger, Status>) -> Result<WebFingerView, Status> {
    match r {
        Ok(w) => Ok(w@),
        Err(e) => Err(e),
    }
}

/// The host part of an account path, as `host_of` states it.
fn account_host(path: &str) -> (r: &str)
    ensures
        r@ == host_of(path@),
{
    let cs = chars_of(path);
    let start = find_after_last(&cs, '@');
    path.substring_char(start, cs.len())
}

/// Whether the requested relations keep a link with relation `link_rel`.
fn rel_keeps(rel: &Option<Vec<&str>>, link_rel: &str) -> (r: bool)
    ensures
        r == rel_selects(rel_view(*rel), LinkView { rel: link_rel@, kind: None, href: None, template: None }),
{
    match rel {
        None => true,
        Some(v) => {
            if v.len() == 0 {
                return true;
            }
            let ghost rs = strs_view(v@);
            let mut i: usize = 0;
            while i < v.len()
                invariant
                    rs == strs_view(v@),
                    rel_view(*rel) == Some(rs),
                    rs.len() == v@.len(),
                    i <= v@.len(),
                    forall|j: int| 0 <= j < i ==> rs[j] != link_rel@,
                decreases v@.len() - i,
            {
                if same_text(v[i], link_rel) {
                    assert(rs[i as int] == link_rel@);
                    assert(rs.contains(link_rel@));
                    return true;
                }
                i = i + 1;
            }
            assert(!rs.contains(link_rel@));
            false
        },
    }
}

/// The links of `all` that the requested relations keep, in order.
fn select_links(all: Vec<AvailableLink>, rel: &Option<Vec<&str>>) -> (r: Vec<AvailableLink>)
    ensures
        links_view(r@) == links_view(all@).filter(selects(rel_view(*rel))),
{
    let ghost pred = selects(rel_view(*rel));
    let mut out: Vec<AvailableLink> = Vec::new();
    let mut i: usize = 0;
    while i < all.len()
        invariant
            pred == selects(rel_view(*rel)),
            i <= all@.len(),
            links_view(out@) == links_view(all@).take(i as int).filter(pred),
        decreases all@.len() - i,
    {
        let link = all[i];
        let keep = rel_keeps(rel, link.rel);
        proof {
            let lv = links_view(all@);
            assert(lv.take(i + 1) =~= lv.take(i as int).push(lv[i as int]));
            lv.take(i as int).lemma_filter_push(lv[i as int], pred);
        }
        if keep {
            out.push(link);
            assert(links_view(out@) =~= links_view(all@).take(i as int).filter(pred).push(
                all@[i as int]@,
            ));
        }
        i = i + 1;
    }
    assert(links_view(all@).take(all@.len() as int) =~= links_view(all@));
    out
}

/// Answers a WebFinger lookup whose `resource` parameter parsed to `uri`
/// (`None` where it is not a URL), keeping only the links whose relation is
/// among `rel` when any are given.
pub fn webfinger_for_url(uri: Option<UrlParts>, rel: Option<Vec<&str>>) -> (r: Result<
    WebFinger,
    Status,
>)
    ensures
        webfinger_view(r) == webfinger_outcome(
            match uri {
                Some(u) => Some(u@),
                None => None,
            },
            rel_view(rel),
        ),
{
    let u = match uri {
        None => {
            return Err(Status::BadRequest);
        },
        Some(u) => u,
    };
    // A URL that is only a scheme names nothing.
    if has_suffix(u.serialization.as_str(), ":") {
        return Err(Status::BadRequest);
    }
    if !same_text(u.scheme.as_str(), ACCT_SCHEME) {
        return Err(Status::NotFound);
    }
    if u.path.as_str().is_empty() {
        return Err(Status::BadRequest);
    }
    let host = account_host(u.path.as_str());
    if !same_text(host, SITE_DOMAIN) && !same_text(host, INSTANCE_DOMAIN) {
        return Err(Status::NotFound);
    }
    let all = vec![
        AvailableLink::with_profile_page(PROFILE_URL),
        AvailableLink::with_self(ACTOR_URL),
        AvailableLink::with_subscribe_template(SUBSCRIBE_TEMPLATE),
    ];
    assert(links_view(all@) =~= known_links());
    let links = select_links(all, &rel);
    let aliases = vec![
        "https://average.name/@average",
        "https://average.name/@avg",
        "https://average.name/@avghelper",
        "https://fosstodon.org/@avghelper",
        "https://fosstodon.org/users/avghelper",
    ];
    assert(strs_view(aliases@) =~= known_aliases());
    Ok(WebFinger { subject: SUBJECT, aliases, links })
}

/// Answers a WebFinger lookup of `resource`, keeping only the links whose
/// relation is among `rel` when any are given.
pub fn webfinger(resource: &str, rel: Option<Vec<&str>>) -> (r: Result<WebFinger, Status>)
    ensures
        webfinger_view(r) == webfinger_outcome(parsed_url(resource@), rel_view(rel)),
{
    let uri = parse_url(resource);
    webfinger_for_url(uri, rel)
}

/// The User-Agent of a request, if it sent one.
pub struct UserAgent<'r>(pub Option<&'r str>);

/// Whether a User-Agent is the bot that may read the NodeInfo pointer.
pub open spec fn is_nodeinfo_agent(ua: Option<Seq<char>>) -> bool {
    ua matches Some(s) && NODEINFO_AGENT_PREFIX@.is_prefix_of(s)
}

/// Points the NodeInfo bot at the instance's NodeInfo; hides it (404) from
/// everyone else.
pub fn nodeinfo(user_agent: UserAgent<'_>) -> (r: Result<Redirect, Status>)
    ensures
        is_nodeinfo_agent(opt_view(user_agent.0)) ==> (r matches Ok(d) && d.status == Status::Found
            && d.location@ == NODEINFO_LOCATION@),
        !is_nodeinfo_agent(opt_view(user_agent.0)) ==> r == Err::<Redirect, Status>(Status::NotFound),
{
    match user_agent.0 {
        Some(ua) => {
            if has_prefix(ua, NODEINFO_AGENT_PREFIX) {
                Ok(Redirect::found(NODEINFO_LOCATION))
            } else {
                Err(Status::NotFound)
            }
        },
        None => Err(Status::NotFound),
    }
}

} // verus!
