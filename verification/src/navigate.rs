//! Going round the ring: from the referer's place to the site a step away.

use crate::messages::{NOT_IN_RING, NO_NEXT_SITE};
use crate::registry::{is_ring, parse_sites, ring_of, Member};
use crate::uri::{host_of, outcome};
use vstd::arithmetic::div_mod::{
    lemma_fundamental_div_mod_converse,
    lemma_mod_bound,
    lemma_mod_self_0,
    lemma_small_mod,
};
use vstd::prelude::*;
use vstd::string::*;

verus! {

/// Whether `i` is the place of the first member of the ring whose host is
/// `host`.
pub open spec fn is_first_match(ring: Seq<Member>, host: Seq<char>, i: int) -> bool {
    &&& 0 <= i < ring.len()
    &&& ring[i].0 == host
    &&& forall|j: int| 0 <= j < i ==> (#[trigger] ring[j]).0 != host
}

/// The place of `host` in the ring: that of the first member with this
/// host, `None` where no member has it.
pub open spec fn position(ring: Seq<Member>, host: Seq<char>) -> Option<int> {
    if exists|i: int| is_first_match(ring, host, i) {
        Some(choose|i: int| is_first_match(ring, host, i))
    } else {
        None
    }
}

/// The place from which navigation sets out, or the reason why it fails
/// before a step is taken: the referer's own failure, an empty ring, a host
/// that no member has.
pub open spec fn departure(referer: Result<Seq<char>, Seq<char>>, ring: Seq<Member>) -> Result<
    int,
    Seq<char>,
> {
    match referer {
        Err(message) => Err(message),
        Ok(host) => if ring.len() == 0 {
            Err(NO_NEXT_SITE@)
        } else {
            match position(ring, host) {
                Some(i) => Ok(i),
                None => Err(NOT_IN_RING@),
            }
        },
    }
}

/// The URI of the member on which a step ends that leads to `stepped`: the
/// ring is walked round as often as it takes, in either direction.
pub open spec fn arrival(ring: Seq<Member>, stepped: int) -> Seq<char> {
    ring[stepped % (ring.len() as int)].1
}

/// Where a visitor is sent who came from `referer`, with `step` taking the
/// place of the referer to the place to go to.
pub open spec fn navigate(
    referer: Result<Seq<char>, Seq<char>>,
    ring: Seq<Member>,
    step: spec_fn(int) -> int,
) -> Result<Seq<char>, Seq<char>> {
    match departure(referer, ring) {
        Err(message) => Err(message),
        Ok(i) => Ok(arrival(ring, step(i))),
    }
}

/// The step to the next member.
pub open spec fn next_step() -> spec_fn(int) -> int {
    |i: int| i + 1
}

/// The step to the previous member.
pub open spec fn previous_step() -> spec_fn(int) -> int {
    |i: int| i - 1
}

/// Whether the executable step function `f` computes `step`.
pub open spec fn computes<F: Fn(isize) -> isize>(f: F, step: spec_fn(int) -> int) -> bool {
    forall|i: isize, j: isize| #[trigger] call_ensures(f, (i,), j) ==> j == step(i as int)
}

/// A host has one place at most, and it has none exactly where no member of
/// the ring has this host.
pub proof fn lemma_position(ring: Seq<Member>, host: Seq<char>)
    ensures
        forall|i: int| is_first_match(ring, host, i) <==> position(ring, host) == Some(i),
        position(ring, host) is None <==> forall|i: int|
            0 <= i < ring.len() ==> (#[trigger] ring[i]).0 != host,
{
    if exists|i: int| 0 <= i < ring.len() && (#[trigger] ring[i]).0 == host {
        let some = choose|i: int| 0 <= i < ring.len() && (#[trigger] ring[i]).0 == host;
        lemma_first_match_exists(ring, host, some);
    }
}

/// Before any place at which `host` stands there is a first one.
proof fn lemma_first_match_exists(ring: Seq<Member>, host: Seq<char>, i: int)
    requires
        0 <= i < ring.len(),
        ring[i].0 == host,
    ensures
        exists|k: int| is_first_match(ring, host, k),
    decreases i,
{
    if exists|j: int| 0 <= j < i && (#[trigger] ring[j]).0 == host {
        let j = choose|j: int| 0 <= j < i && (#[trigger] ring[j]).0 == host;
        lemma_first_match_exists(ring, host, j);
    } else {
        assert(is_first_match(ring, host, i));
    }
}

/// From the last member of a ring the step to the next member leads to the
/// first one, provided that no member before the last has the last one's
/// host: the referer is looked up by its host, and the first match counts.
pub proof fn lemma_next_wraps_around(ring: Seq<Member>)
    requires
        ring.len() > 0,
        is_first_match(ring, ring.last().0, ring.len() - 1),
    ensures
        navigate(Ok(ring.last().0), ring, next_step()) == Ok::<Seq<char>, Seq<char>>(
            ring.first().1,
        ),
{
    lemma_position(ring, ring.last().0);
    lemma_mod_self_0(ring.len() as int);
}

/// From the first member of a ring the step to the previous member leads to
/// the last one.
pub proof fn lemma_previous_wraps_around(ring: Seq<Member>)
    requires
        ring.len() > 0,
    ensures
        navigate(Ok(ring.first().0), ring, previous_step()) == Ok::<Seq<char>, Seq<char>>(
            ring.last().1,
        ),
{
    assert(is_first_match(ring, ring.first().0, 0));
    lemma_position(ring, ring.first().0);
    lemma_fundamental_div_mod_converse(-1, ring.len() as int, -1, ring.len() - 1);
}

/// Of two members that follow one another in a well-formed ring, a visitor
/// who comes from the first is sent on to the second by the step to the next
/// member, provided that no earlier member has the first one's host.
pub proof fn lemma_next_is_adjacent(ring: Seq<Member>, k: int)
    requires
        is_ring(ring),
        0 <= k,
        k + 1 < ring.len(),
        is_first_match(ring, ring[k].0, k),
    ensures
        navigate(host_of(ring[k].1), ring, next_step()) == Ok::<Seq<char>, Seq<char>>(
            ring[k + 1].1,
        ),
{
    lemma_position(ring, ring[k].0);
    lemma_small_mod((k + 1) as nat, ring.len());
}

/// Against an empty ring every resolved referer fails with
/// [`NO_NEXT_SITE`], whatever the step.
pub proof fn lemma_empty_ring_fails(host: Seq<char>, ring: Seq<Member>, step: spec_fn(int) -> int)
    requires
        ring.len() == 0,
    ensures
        navigate(Ok(host), ring, step) == Err::<Seq<char>, Seq<char>>(NO_NEXT_SITE@),
{
}

/// Looks `host` up in the ring: the place of the first member with this
/// host, compared letter by letter.
pub fn find_host(ring: &Vec<(String, &str)>, host: &String) -> (found: Option<usize>)
    ensures
        position(ring.deep_view(), host@) == match found {
            Some(i) => Some(i as int),
            None => None,
        },
{
    let mut i: usize = 0;
    while i < ring.len()
        invariant
            i <= ring.len(),
            forall|j: int| 0 <= j < i ==> (#[trigger] ring.deep_view()[j]).0 != host@,
        decreases ring.len() - i,
    {
        if ring[i].0 == *host {
            proof {
                assert(is_first_match(ring.deep_view(), host@, i as int));
                lemma_position(ring.deep_view(), host@);
            }
            return Some(i);
        }
        i += 1;
    }
    proof {
        lemma_position(ring.deep_view(), host@);
    }
    None
}

/// The URI to send the visitor to, once the step function has answered
/// `stepped`: the ring is entered at `stepped` modulo its length, with a
/// remainder that is never negative. An empty ring has no such member and
/// fails with [`NO_NEXT_SITE`].
pub fn destination_at(ring: &Vec<(String, &str)>, stepped: isize) -> (r: Result<String, String>)
    requires
        ring.len() <= isize::MAX,
    ensures
        outcome(r) == if ring.len() == 0 {
            Err::<Seq<char>, Seq<char>>(NO_NEXT_SITE@)
        } else {
            Ok(arrival(ring.deep_view(), stepped as int))
        },
{
    let length = ring.len() as isize;
    proof {
        if length > 0 {
            lemma_mod_bound(stepped as int, length as int);
        }
    }
    match stepped.checked_rem_euclid(length) {
        Some(place) => Ok(ring[place as usize].1.to_owned()),
        None => Err(String::from_str(NO_NEXT_SITE)),
    }
}

/// Computes the site to send a visitor to.
///
/// A referer that was not resolved is handed back as it came. Otherwise the
/// ring is read from `sites`; an empty ring fails with [`NO_NEXT_SITE`], and
/// a host that no member has with [`NOT_IN_RING`]. From the place `i` of the
/// first member with the referer's host, the visitor goes to the member at
/// `f(i)` modulo the length of the ring.
pub fn calc_destination<F: Fn(isize) -> isize>(
    referer: Result<String, String>,
    sites: &[String],
    f: F,
) -> (r: Result<String, String>)
    requires
        sites.len() <= isize::MAX,
        forall|i: isize| 0 <= i < sites.len() ==> call_requires(f, (i,)),
    ensures
        referer is Err ==> r == referer,
        match departure(outcome(referer), ring_of(sites.deep_view())) {
            Err(message) => outcome(r) == Err::<Seq<char>, Seq<char>>(message),
            Ok(i) => exists|j: isize|
                call_ensures(f, (i as isize,), j) && outcome(r) == Ok::<Seq<char>, Seq<char>>(
                    arrival(ring_of(sites.deep_view()), j as int),
                ),
        },
        forall|step: spec_fn(int) -> int|
            computes(f, step) ==> outcome(r) == #[trigger] navigate(
                outcome(referer),
                ring_of(sites.deep_view()),
                step,
            ),
{
    let host = match referer {
        Ok(host) => host,
        Err(message) => {
            return Err(message);
        },
    };
    let ring = parse_sites(sites);
    if ring.len() == 0 {
        return Err(String::from_str(NO_NEXT_SITE));
    }
    match find_host(&ring, &host) {
        None => Err(String::from_str(NOT_IN_RING)),
        Some(i) => {
            let stepped = f(i as isize);
            destination_at(&ring, stepped)
        },
    }
}

} // verus!
