//! What holds of every request the site answers.
use vstd::prelude::*;

use crate::assets::{
    content_type_of, extension, file_name, html_suffix, is_plain_path, resolve,
};
use crate::headers::{extra_security_headers, trimmed_location};
use crate::routes::{
    all_headers, is_fixed_route, not_found_view, own_headers, response_view, tree_key, BodyView,
    Method, Request,
};
use crate::status::Status;
use crate::text::after_last;
use crate::webfinger::opt_view;

verus! {

/// A request for a path that ends in `/`, other than the root, is sent
/// permanently (301) to the same path without that `/`, its query kept.
pub proof fn trailing_slash_redirects(
    files: Map<Seq<char>, Seq<u8>>,
    dirs: Set<Seq<char>>,
    req: Request,
)
    requires
        req.path@.len() > 1,
        req.path@.last() == '/',
    ensures
        response_view(files, dirs, req).status == Status::MovedPermanently,
        response_view(files, dirs, req).location == Some(
            match opt_view(req.query) {
                Some(q) => req.path@.drop_last() + "?"@ + q,
                None => req.path@.drop_last(),
            },
        ),
        response_view(files, dirs, req).body == BodyView::Empty,
{
}

/// Where the part after the last `c` of `a + b` starts.
proof fn lemma_after_last_append(a: Seq<char>, b: Seq<char>, c: char)
    ensures
        after_last(a + b, c) == if after_last(b, c) > 0 {
            a.len() + after_last(b, c)
        } else {
            after_last(a, c)
        },
    decreases b.len(),
{
    if b.len() == 0 {
        assert(a + b =~= a);
    } else {
        assert((a + b).drop_last() =~= a + b.drop_last());
        assert((a + b).last() == b.last());
        lemma_after_last_append(a, b.drop_last(), c);
    }
}

/// The part after the last `c` starts within the sequence, and before its
/// end where the sequence does not end in `c`.
proof fn lemma_after_last_bounds(s: Seq<char>, c: char)
    ensures
        0 <= after_last(s, c) <= s.len(),
        s.len() > 0 && s.last() != c ==> after_last(s, c) < s.len(),
    decreases s.len(),
{
    if s.len() > 0 {
        lemma_after_last_bounds(s.drop_last(), c);
    }
}

/// A plain path with `.html` appended has the extension `html`.
proof fn lemma_html_extension(p: Seq<char>)
    requires
        is_plain_path(p),
    ensures
        extension(p + html_suffix()) == Some(seq!['h', 't', 'm', 'l']),
{
    let h = html_suffix();
    reveal_with_fuel(after_last, 6);
    assert(after_last(h, '/') == 0) by {
        assert(h.drop_last() =~= seq!['.', 'h', 't', 'm']);
        assert(h.drop_last().drop_last() =~= seq!['.', 'h', 't']);
        assert(h.drop_last().drop_last().drop_last() =~= seq!['.', 'h']);
        assert(h.drop_last().drop_last().drop_last().drop_last() =~= seq!['.']);
        assert(h.drop_last().drop_last().drop_last().drop_last().drop_last() =~= Seq::<char>::empty());
    }
    assert(after_last(h, '.') == 1) by {
        assert(h.drop_last() =~= seq!['.', 'h', 't', 'm']);
        assert(h.drop_last().drop_last() =~= seq!['.', 'h', 't']);
        assert(h.drop_last().drop_last().drop_last() =~= seq!['.', 'h']);
        assert(h.drop_last().drop_last().drop_last().drop_last() =~= seq!['.']);
    }
    lemma_after_last_append(p, h, '/');
    lemma_after_last_bounds(p, '/');
    let k = after_last(p, '/');
    let name = file_name(p + h);
    assert(name =~= p.subrange(k, p.len() as int) + h);
    lemma_after_last_append(p.subrange(k, p.len() as int), h, '.');
    assert(name.len() >= 6);
    assert(name.subrange(after_last(name, '.'), name.len() as int) =~= seq!['h', 't', 'm', 'l']);
}

/// For an asset `p` without extension (no `.` in it, not a file itself, not
/// a fixed route) beside which the tree holds `p.html`, a request for `/p`
/// is answered with exactly the bytes of `p.html`, with the media type of
/// its `html` extension.
pub proof fn extensionless_path_serves_html(
    files: Map<Seq<char>, Seq<u8>>,
    dirs: Set<Seq<char>>,
    req: Request,
    p: Seq<char>,
)
    requires
        req.path@ == seq!['/'] + p,
        is_plain_path(p),
        !p.contains('.'),
        !files.contains_key(p),
        files.contains_key(p + html_suffix()),
        !is_fixed_route(req.path@),
    ensures
        response_view(files, dirs, req).status == Status::Success,
        response_view(files, dirs, req).body == BodyView::Bytes(files[p + html_suffix()]),
        response_view(files, dirs, req).content_type == Some(content_type_of(p + html_suffix())),
        extension(p + html_suffix()) == Some(seq!['h', 't', 'm', 'l']),
{
    let path = req.path@;
    assert(path.last() == p.last());
    assert(path.drop_first() =~= p);
    crate::assets::lemma_plain_append(p, html_suffix());
    lemma_html_extension(p);
}

/// A request for a path that is no fixed route, has no trailing slash and
/// resolves to no asset is answered 404 with the "not found" page, and
/// carries every extra security header.
pub proof fn unknown_path_is_not_found(
    files: Map<Seq<char>, Seq<u8>>,
    dirs: Set<Seq<char>>,
    req: Request,
    host: Option<Seq<char>>,
    memorial: Seq<char>,
)
    requires
        !is_fixed_route(req.path@),
        trimmed_location(req.path@, opt_view(req.query)) is None,
        tree_key(req.path@) matches Some(k) ==> resolve(files, dirs, k) is None,
    ensures
        response_view(files, dirs, req).status == Status::NotFound,
        response_view(files, dirs, req).body == not_found_view(files).body,
        response_view(files, dirs, req).content_type == not_found_view(files).content_type,
        all_headers(response_view(files, dirs, req), host, memorial).subrange(
            own_headers(response_view(files, dirs, req)).len() as int,
            (own_headers(response_view(files, dirs, req)).len() + extra_security_headers(host).len()) as int,
        ) == extra_security_headers(host),
{
    let r = response_view(files, dirs, req);
    assert(all_headers(r, host, memorial).subrange(
        own_headers(r).len() as int,
        (own_headers(r).len() + extra_security_headers(host).len()) as int,
    ) =~= extra_security_headers(host));
}

/// A HEAD request is answered as the same GET request is, with the same
/// status, headers and body, except that the body is not sent.
pub proof fn head_answers_as_get(
    files: Map<Seq<char>, Seq<u8>>,
    dirs: Set<Seq<char>>,
    get: Request,
    head: Request,
    host: Option<Seq<char>>,
    memorial: Seq<char>,
)
    requires
        get.method == Method::Get,
        head.method == Method::Head,
        head.path@ == get.path@,
        opt_view(head.query) == opt_view(get.query),
        head.params@ == get.params@,
        opt_view(head.user_agent) == opt_view(get.user_agent),
        opt_view(head.origin) == opt_view(get.origin),
    ensures
        response_view(files, dirs, get).send_body,
        !response_view(files, dirs, head).send_body,
        response_view(files, dirs, head).status == response_view(files, dirs, get).status,
        response_view(files, dirs, head).body == response_view(files, dirs, get).body,
        all_headers(response_view(files, dirs, head), host, memorial) == all_headers(
            response_view(files, dirs, get),
            host,
            memorial,
        ),
{
}

/// Two requests with the same method for the same path that is no fixed
/// route get the same status, media type and bytes, whoever sends them: the
/// asset tree never changes between requests.
pub proof fn asset_answers_are_repeatable(
    files: Map<Seq<char>, Seq<u8>>,
    dirs: Set<Seq<char>>,
    a: Request,
    b: Request,
)
    requires
        a.method == b.method,
        a.path@ == b.path@,
        opt_view(a.query) == opt_view(b.query),
        !is_fixed_route(a.path@),
    ensures
        response_view(files, dirs, a).status == response_view(files, dirs, b).status,
        response_view(files, dirs, a).content_type == response_view(files, dirs, b).content_type,
        response_view(files, dirs, a).body == response_view(files, dirs, b).body,
        response_view(files, dirs, a).send_body == response_view(files, dirs, b).send_body,
{
}

} // verus!
