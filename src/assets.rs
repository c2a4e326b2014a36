//! The static asset tree and how a request path resolves in it.
use vstd::prelude::*;

use crate::text::{after_last, chars_of, find_after_last, joined};

verus! {

/// A directory tree of files embedded in the program.
#[verifier::external_type_specification]
#[verifier::external_body]
pub struct ExDir<'a>(include_dir::Dir<'a>);

/// The files of a tree, keyed by path. A path is written as its components
/// joined by `/`; it names the file that include_dir's depth-first search by
/// path finds first, where that first entry is a file.
pub uninterp spec fn dir_files(d: include_dir::Dir<'static>) -> Map<Seq<char>, Seq<u8>>;

/// The directories of a tree, keyed as in `dir_files`: the paths whose first
/// entry found is a directory.
pub uninterp spec fn dir_dirs(d: include_dir::Dir<'static>) -> Set<Seq<char>>;

/// Whether `p` is a relative path written in plain form: not empty, no `/`
/// at either end, no empty component and no `.` component. Such a path is
/// equal, as a `std::path::Path`, to exactly one string of that form.
pub open spec fn is_plain_path(p: Seq<char>) -> bool {
    &&& p.len() > 0
    &&& p[0] != '/'
    &&& p[p.len() - 1] != '/'
    &&& forall|i: int| 0 <= i < p.len() - 1 && #[trigger] p[i] == '/' ==> p[i + 1] != '/'
    &&& forall|i: int|
        0 <= i < p.len() && #[trigger] p[i] == '.' && (i == 0 || p[i - 1] == '/') ==> i + 1
            < p.len() && p[i + 1] != '/'
}

/// Relies on include_dir's Dir::get_file, and File::contents of what it finds.
#[verifier::external_body]
fn dir_file(d: &include_dir::Dir<'static>, path: &str) -> (r: Option<&'static [u8]>)
    requires
        is_plain_path(path@),
    ensures
        r is Some <==> dir_files(*d).contains_key(path@),
        r matches Some(b) ==> b@ == dir_files(*d)[path@],
{
    d.get_file(path).map(|f| f.contents())
}

/// Relies on include_dir's Dir::get_dir.
#[verifier::external_body]
fn dir_has_dir(d: &include_dir::Dir<'static>, path: &str) -> (r: bool)
    requires
        is_plain_path(path@),
    ensures
        r == dir_dirs(*d).contains(path@),
{
    d.get_dir(path).is_some()
}

/// The contents of the file at `key`, where `key` is a plain path that
/// names a file of the tree.
pub fn file_at(dist: &include_dir::Dir<'static>, key: &str) -> (r: Option<&'static [u8]>)
    ensures
        r is Some <==> is_plain_path(key@) && dir_files(*dist).contains_key(key@),
        r matches Some(b) ==> b@ == dir_files(*dist)[key@],
{
    if plain_path(key) {
        dir_file(dist, key)
    } else {
        None
    }
}

/// Whether `p` is in plain form.
pub fn plain_path(p: &str) -> (r: bool)
    ensures
        r == is_plain_path(p@),
{
    let cs = chars_of(p);
    let n = cs.len();
    if n == 0 || cs[0] == '/' || cs[n - 1] == '/' {
        return false;
    }
    let mut i: usize = 0;
    while i < n
        invariant
            cs@ == p@,
            n == cs@.len(),
            n > 0,
            i <= n,
            forall|j: int| 0 <= j < i && j < n - 1 && #[trigger] cs@[j] == '/' ==> cs@[j + 1] != '/',
            forall|j: int|
                0 <= j < i && #[trigger] cs@[j] == '.' && (j == 0 || cs@[j - 1] == '/') ==> j + 1
                    < n && cs@[j + 1] != '/',
        decreases n - i,
    {
        if cs[i] == '/' && i + 1 < n && cs[i + 1] == '/' {
            return false;
        }
        if cs[i] == '.' && (i == 0 || cs[i - 1] == '/') && (i + 1 == n || cs[i + 1] == '/') {
            return false;
        }
        i = i + 1;
    }
    true
}

/// The characters `.html`.
pub open spec fn html_suffix() -> Seq<char> {
    seq!['.', 'h', 't', 'm', 'l']
}

/// The characters `/index.html`.
pub open spec fn index_suffix() -> Seq<char> {
    seq!['/', 'i', 'n', 'd', 'e', 'x', '.', 'h', 't', 'm', 'l']
}

/// The file that the request for `key` (a request path without its leading
/// `/`) is answered with, if any:
/// - a directory is answered by its sibling `<dir>.html`, else by its
///   `<dir>/index.html`;
/// - a file is answered by itself;
/// - a name without a `.` that is neither is answered by `<name>.html`.
pub open spec fn resolve(
    files: Map<Seq<char>, Seq<u8>>,
    dirs: Set<Seq<char>>,
    key: Seq<char>,
) -> Option<Seq<char>> {
    if !is_plain_path(key) {
        None
    } else if dirs.contains(key) {
        if files.contains_key(key + html_suffix()) {
            Some(key + html_suffix())
        } else if files.contains_key(key + index_suffix()) {
            Some(key + index_suffix())
        } else {
            None
        }
    } else if files.contains_key(key) {
        Some(key)
    } else if !key.contains('.') && files.contains_key(key + html_suffix()) {
        Some(key + html_suffix())
    } else {
        None
    }
}

/// A plain path stays plain with `.html` or `/index.html` appended.
pub proof fn lemma_plain_append(p: Seq<char>, s: Seq<char>)
    requires
        is_plain_path(p),
        s == html_suffix() || s == index_suffix(),
    ensures
        is_plain_path(p + s),
{
    let q = p + s;
    assert(q[0] == p[0]);
    assert(q[q.len() - 1] == 'l');
    assert forall|i: int| 0 <= i < q.len() - 1 && #[trigger] q[i] == '/' implies q[i + 1] != '/' by {
        if i < p.len() - 1 {
            assert(q[i] == p[i] && q[i + 1] == p[i + 1]);
        } else if i == p.len() - 1 {
            assert(q[i] == p[i]);
        } else {
            assert(q[i] == s[i - p.len()]);
            assert(q[i + 1] == s[i + 1 - p.len()]);
        }
    }
    assert forall|i: int|
        0 <= i < q.len() && #[trigger] q[i] == '.' && (i == 0 || q[i - 1] == '/') implies i + 1
            < q.len() && q[i + 1] != '/' by {
        if i < p.len() {
            assert(q[i] == p[i]);
            if i > 0 {
                assert(q[i - 1] == p[i - 1]);
            }
            if i + 1 < p.len() {
                assert(q[i + 1] == p[i + 1]);
            } else {
                assert(p[p.len() - 1] == '.');
                assert(q[i + 1] == s[0]);
            }
        } else {
            assert(q[i] == s[i - p.len()]);
            assert(q[i - 1] == if i - 1 < p.len() {
                p[i - 1]
            } else {
                s[i - 1 - p.len()]
            });
            assert(q[i + 1] == s[i + 1 - p.len()]);
        }
    }
}

/// The file to answer a request for `key` with (a request path without its
/// leading `/`), and its contents, as `resolve` states it.
pub fn resolve_asset(dist: &include_dir::Dir<'static>, key: &str) -> (r: Option<
    (String, &'static [u8]),
>)
    ensures
        match r {
            Some((path, bytes)) => resolve(dir_files(*dist), dir_dirs(*dist), key@) == Some(path@)
                && is_plain_path(path@) && dir_files(*dist).contains_key(path@) && bytes@
                == dir_files(*dist)[path@],
            None => resolve(dir_files(*dist), dir_dirs(*dist), key@) is None,
        },
{
    if !plain_path(key) {
        return None;
    }
    proof {
        reveal_strlit(".html");
        reveal_strlit("/index.html");
        lemma_plain_append(key@, html_suffix());
        lemma_plain_append(key@, index_suffix());
    }
    let as_html = joined(key, ".html");
    assert(as_html@ == key@ + html_suffix());
    if dir_has_dir(dist, key) {
        if let Some(bytes) = dir_file(dist, as_html.as_str()) {
            return Some((as_html, bytes));
        }
        let inner = joined(key, "/index.html");
        assert(inner@ == key@ + index_suffix());
        if let Some(bytes) = dir_file(dist, inner.as_str()) {
            return Some((inner, bytes));
        }
        return None;
    }
    if let Some(bytes) = dir_file(dist, key) {
        return Some((String::from_str(key), bytes));
    }
    if crate::text::has_char(key, '.') {
        return None;
    }
    match dir_file(dist, as_html.as_str()) {
        Some(bytes) => Some((as_html, bytes)),
        None => None,
    }
}

/// The media type sent for files whose type is not known.
pub const OCTET_STREAM: &'static str = "application/octet-stream";

/// The file name of a path: what follows its last `/`.
pub open spec fn file_name(p: Seq<char>) -> Seq<char> {
    p.subrange(after_last(p, '/'), p.len() as int)
}

/// The extension of a path's file name, as `std::path::Path::extension`
/// gives it: what follows the name's last `.`, where that `.` is not its
/// first character; none for `..`.
pub open spec fn extension(p: Seq<char>) -> Option<Seq<char>> {
    let name = file_name(p);
    let k = after_last(name, '.');
    if k <= 1 || name == seq!['.', '.'] {
        None
    } else {
        Some(name.subrange(k, name.len() as int))
    }
}

/// The extension of the path `p`, as `extension` states it.
pub fn extension_of(p: &str) -> (r: Option<String>)
    ensures
        match r {
            Some(e) => extension(p@) == Some(e@),
            None => extension(p@) is None,
        },
{
    let cs = chars_of(p);
    let start = find_after_last(&cs, '/');
    let name = p.substring_char(start, cs.len());
    let ncs = chars_of(name);
    let k = find_after_last(&ncs, '.');
    if k <= 1 {
        return None;
    }
    if ncs.len() == 2 && ncs[0] == '.' && ncs[1] == '.' {
        assert(name@ =~= seq!['.', '.']);
        return None;
    }
    assert(name@ != seq!['.', '.']) by {
        if name@ == seq!['.', '.'] {
            assert(ncs@[0] == '.' && ncs@[1] == '.');
        }
    }
    Some(String::from_str(name.substring_char(k, ncs.len())))
}

/// The media type that rocket names for a file extension, if it knows one.
pub uninterp spec fn media_type_of(ext: Seq<char>) -> Option<Seq<char>>;

/// Relies on rocket's ContentType::from_extension, written out by its
/// Display impl; the result depends on `ext` alone.
#[verifier::external_body]
fn media_type_for_extension(ext: &str) -> (r: Option<String>)
    ensures
        r is Some <==> media_type_of(ext@) is Some,
        r matches Some(t) ==> media_type_of(ext@) == Some(t@),
{
    rocket::http::ContentType::from_extension(ext).map(|t| t.to_string())
}

/// The media type that a file at path `p` is sent with.
pub open spec fn content_type_of(p: Seq<char>) -> Seq<char> {
    match extension(p) {
        Some(e) => match media_type_of(e) {
            Some(t) => t,
            None => OCTET_STREAM@,
        },
        None => OCTET_STREAM@,
    }
}

/// The media type that a file at path `p` is sent with.
pub fn content_type_for(p: &str) -> (r: String)
    ensures
        r@ == content_type_of(p@),
{
    match extension_of(p) {
        Some(e) => match media_type_for_extension(e.as_str()) {
            Some(t) => t,
            None => String::from_str(OCTET_STREAM),
        },
        None => String::from_str(OCTET_STREAM),
    }
}

} // verus!
