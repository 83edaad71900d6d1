//! The ring of member sites, as it is read from the configured list.

use crate::uri::{host_of, parse_uri_host};
use vstd::prelude::*;
use vstd::string::*;

verus! {

/// A member of the ring: its host, and the URI it was configured with.
pub type Member = (Seq<char>, Seq<char>);

/// The member that a configured entry stands for, if it names a host.
pub open spec fn member_of(site: Seq<char>) -> Option<Member> {
    match host_of(site) {
        Ok(host) => Some((host, site)),
        Err(_) => None,
    }
}

/// The ring that a configured list stands for: the members of its entries, in
/// the order of the list, the entries without a host left out.
pub open spec fn ring_of(sites: Seq<Seq<char>>) -> Seq<Member> {
    sites.filter_map(|site: Seq<char>| member_of(site))
}

/// What holds of every ring read from a list: each member's host is not
/// empty and is the host of the member's URI.
pub open spec fn is_ring(ring: Seq<Member>) -> bool {
    forall|i: int|
        0 <= i < ring.len() ==> {
            &&& (#[trigger] ring[i]).0.len() > 0
            &&& host_of(ring[i].1) == Ok::<Seq<char>, Seq<char>>(ring[i].0)
        }
}

/// The ring of a list that ends in `site` is the ring of the list before it,
/// followed by the member of `site` where it has one.
pub proof fn lemma_ring_of_push(sites: Seq<Seq<char>>, site: Seq<char>)
    ensures
        ring_of(sites.push(site)) == match member_of(site) {
            Some(member) => ring_of(sites).push(member),
            None => ring_of(sites),
        },
{
    assert(sites.push(site).drop_last() == sites);
}

/// Every ring read from a list is well formed, and no longer than the list.
pub proof fn lemma_ring_of_is_ring(sites: Seq<Seq<char>>)
    ensures
        is_ring(ring_of(sites)),
        ring_of(sites).len() <= sites.len(),
    decreases sites.len(),
{
    if sites.len() > 0 {
        lemma_ring_of_is_ring(sites.drop_last());
        assert(sites.drop_last().push(sites.last()) == sites);
        lemma_ring_of_push(sites.drop_last(), sites.last());
    }
}

/// The ring of two lists joined is the ring of the first, followed by the
/// ring of the second.
pub proof fn lemma_ring_of_concat(first: Seq<Seq<char>>, second: Seq<Seq<char>>)
    ensures
        ring_of(first + second) == ring_of(first) + ring_of(second),
    decreases second.len(),
{
    if second.len() == 0 {
        assert(first + second == first);
        assert(ring_of(first) + ring_of(second) == ring_of(first));
    } else {
        let joined = first + second.drop_last();
        lemma_ring_of_concat(first, second.drop_last());
        assert(joined.push(second.last()) == first + second);
        assert(second.drop_last().push(second.last()) == second);
        lemma_ring_of_push(joined, second.last());
        lemma_ring_of_push(second.drop_last(), second.last());
        match member_of(second.last()) {
            Some(member) => {
                assert((ring_of(first) + ring_of(second.drop_last())).push(member) == ring_of(first)
                    + ring_of(second.drop_last()).push(member));
            },
            None => {},
        }
    }
}

/// An entry of the list that names no host is no member of the ring, and
/// the members read from the entries around it follow one another as if it
/// had not been in the list.
pub proof fn lemma_entry_without_host_is_left_out(
    before: Seq<Seq<char>>,
    entry: Seq<char>,
    after: Seq<Seq<char>>,
)
    requires
        host_of(entry) is Err,
    ensures
        ring_of(before + seq![entry] + after) == ring_of(before) + ring_of(after),
        ring_of(before + seq![entry] + after) == ring_of(before + after),
        forall|i: int|
            0 <= i < ring_of(before + seq![entry] + after).len() ==> (#[trigger] ring_of(
                before + seq![entry] + after,
            )[i]).1 != entry,
{
    let sites = before + seq![entry] + after;
    lemma_ring_of_concat(before + seq![entry], after);
    lemma_ring_of_concat(before, after);
    assert(before + seq![entry] == before.push(entry));
    lemma_ring_of_push(before, entry);
    lemma_ring_of_is_ring(sites);
}

/// Reads the ring out of the configured list: each entry with its host, in
/// the order of the list. An entry that is no URI, or names no host, is left
/// out, and the others keep their order.
pub fn parse_sites<'a>(sites: &'a [String]) -> (ring: Vec<(String, &'a str)>)
    ensures
        ring.deep_view() == ring_of(sites.deep_view()),
        is_ring(ring.deep_view()),
        ring.len() <= sites.len(),
{
    let mut ring: Vec<(String, &'a str)> = Vec::new();
    let mut i: usize = 0;
    while i < sites.len()
        invariant
            i <= sites.len(),
            ring.deep_view() == ring_of(sites.deep_view().take(i as int)),
        decreases sites.len() - i,
    {
        let site: &'a str = sites[i].as_str();
        let ghost before = ring.deep_view();
        proof {
            assert(sites.deep_view().take(i + 1) == sites.deep_view().take(i as int).push(site@));
            lemma_ring_of_push(sites.deep_view().take(i as int), site@);
        }
        match parse_uri_host(site) {
            Ok(host) => {
                ring.push((host, site));
                assert(ring.deep_view() == before.push((host@, site@)));
            },
            Err(_) => {},
        }
        i += 1;
    }
    proof {
        assert(sites.deep_view().take(sites.len() as int) == sites.deep_view());
        lemma_ring_of_is_ring(sites.deep_view());
    }
    ring
}

} // verus!
