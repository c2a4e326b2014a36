//! Which domains the TLS front end may fetch a certificate for on demand.
use vstd::prelude::*;

use crate::status::Status;
use crate::text::same_text;

verus! {

/// The site's primary short domain.
pub const PRIMARY_DOMAIN: &'static str = "avg.name";

/// Subdomains that get an alias under the primary domain.
pub open spec fn alias_domains() -> Seq<Seq<char>> {
    seq![
        "blog.avg.name"@,
        "dotfiles.avg.name"@,
        "flashcards.avg.name"@,
        "git.avg.name"@,
        "ip.avg.name"@,
        "ipv4.avg.name"@,
        "jsonresume.avg.name"@,
        "redir.avg.name"@,
        "status.avg.name"@,
        "www.avg.name"@,
    ]
}

/// Subdomains that serve as AT Protocol handles.
pub open spec fn at_proto_domains() -> Seq<Seq<char>> {
    seq!["avgtest.average.name"@, "avg.average.name"@]
}

/// Whether a certificate may be issued for `domain`: an exact, case-sensitive
/// match against the primary domain or one of the two lists.
pub open spec fn is_trusted_domain(domain: Seq<char>) -> bool {
    domain == PRIMARY_DOMAIN@ || alias_domains().contains(domain) || at_proto_domains().contains(
        domain,
    )
}

/// Whether `domain` is one of `list`.
fn listed(list: &Vec<&'static str>, domain: &str) -> (r: bool)
    ensures
        r == list@.map_values(|s: &'static str| s@).contains(domain@),
{
    let ghost names = list@.map_values(|s: &'static str| s@);
    let mut i: usize = 0;
    while i < list.len()
        invariant
            names == list@.map_values(|s: &'static str| s@),
            names.len() == list@.len(),
            i <= list@.len(),
            forall|j: int| 0 <= j < i ==> names[j] != domain@,
        decreases list@.len() - i,
    {
        if same_text(list[i], domain) {
            assert(names[i as int] == domain@);
            return true;
        }
        i = i + 1;
    }
    false
}

/// Answers the TLS front end's question about `domain`: 204 where a
/// certificate may be issued, 404 where not.
pub fn on_demand_tls(domain: &str) -> (r: (Status, ()))
    ensures
        r.0 == (if is_trusted_domain(domain@) {
            Status::NoContent
        } else {
            Status::NotFound
        }),
{
    let aliases = vec![
        "blog.avg.name",
        "dotfiles.avg.name",
        "flashcards.avg.name",
        "git.avg.name",
        "ip.avg.name",
        "ipv4.avg.name",
        "jsonresume.avg.name",
        "redir.avg.name",
        "status.avg.name",
        "www.avg.name",
    ];
    assert(aliases@.map_values(|s: &'static str| s@) =~= alias_domains());
    let at_proto = vec!["avgtest.average.name", "avg.average.name"];
    assert(at_proto@.map_values(|s: &'static str| s@) =~= at_proto_domains());
    if same_text(domain, PRIMARY_DOMAIN) || listed(&aliases, domain) || listed(&at_proto, domain) {
        (Status::NoContent, ())
    } else {
        (Status::NotFound, ())
    }
}

} // verus!
