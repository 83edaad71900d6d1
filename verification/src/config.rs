//! Reading the configured list of sites out of the text that holds it.

use vstd::prelude::*;
use vstd::string::*;

verus! {

/// The pieces into which the blanks of a text cut it. Every blank ends a
/// piece and begins the next, so a text with `n` blanks has `n + 1` pieces,
/// some of them empty where blanks stand side by side or at an end.
pub open spec fn split_at_blanks(text: Seq<char>) -> Seq<Seq<char>>
    decreases text.len(),
{
    if text.len() == 0 {
        seq![Seq::<char>::empty()]
    } else {
        let before = split_at_blanks(text.drop_last());
        if text.last() == ' ' {
            before.push(Seq::<char>::empty())
        } else {
            before.drop_last().push(before.last().push(text.last()))
        }
    }
}

/// A text is cut into one piece at least.
pub proof fn lemma_split_is_not_empty(text: Seq<char>)
    ensures
        split_at_blanks(text).len() > 0,
    decreases text.len(),
{
    if text.len() > 0 {
        lemma_split_is_not_empty(text.drop_last());
    }
}

/// Reads the list of sites out of the configured value, in which one blank
/// stands between two sites. Nothing is trimmed and nothing is left out: an
/// empty piece stays in the list.
///
/// The characters are reached through `vstd`'s string functions, each of
/// which walks the text from its start.
pub fn sitelist(raw: &str) -> (sites: Vec<String>)
    ensures
        sites.deep_view() == split_at_blanks(raw@),
{
    let length = raw.unicode_len();
    let mut sites: Vec<String> = Vec::new();
    let mut start: usize = 0;
    let mut i: usize = 0;
    proof {
        assert(raw@.subrange(0, 0) == Seq::<char>::empty());
        assert(raw@.take(0) == Seq::<char>::empty());
        assert(sites.deep_view().push(Seq::<char>::empty()) == seq![Seq::<char>::empty()]);
    }
    while i < length
        invariant
            length == raw@.len(),
            start <= i <= length,
            split_at_blanks(raw@.take(i as int)) == sites.deep_view().push(
                raw@.subrange(start as int, i as int),
            ),
        decreases length - i,
    {
        let ghost pieces = sites.deep_view();
        let ghost piece = raw@.subrange(start as int, i as int);
        proof {
            assert(raw@.take(i + 1).drop_last() == raw@.take(i as int));
            assert(raw@.take(i + 1).last() == raw@[i as int]);
            assert(pieces.push(piece).drop_last() == pieces);
        }
        if raw.get_char(i) == ' ' {
            sites.push(raw.substring_char(start, i).to_owned());
            start = i + 1;
            proof {
                assert(sites.deep_view() == pieces.push(piece));
                assert(raw@.subrange(start as int, i + 1) == Seq::<char>::empty());
            }
        } else {
            assert(piece.push(raw@[i as int]) == raw@.subrange(start as int, i + 1));
        }
        i += 1;
    }
    let ghost pieces = sites.deep_view();
    let piece = raw.substring_char(start, length).to_owned();
    sites.push(piece);
    proof {
        assert(raw@.take(length as int) == raw@);
        assert(sites.deep_view() == pieces.push(raw@.subrange(start as int, length as int)));
    }
    sites
}

/// The lines that name a site: those that are not empty, in their order.
pub open spec fn named_sites(lines: Seq<Seq<char>>) -> Seq<Seq<char>> {
    lines.filter(|line: Seq<char>| line.len() > 0)
}

/// Reads the list of sites out of the lines of a configured text: every
/// line that is not empty is a site.
pub fn non_empty_lines(lines: &[String]) -> (sites: Vec<String>)
    ensures
        sites.deep_view() == named_sites(lines.deep_view()),
{
    let mut sites: Vec<String> = Vec::new();
    let mut i: usize = 0;
    while i < lines.len()
        invariant
            i <= lines.len(),
            sites.deep_view() == named_sites(lines.deep_view().take(i as int)),
        decreases lines.len() - i,
    {
        let ghost before = sites.deep_view();
        proof {
            assert(lines.deep_view().take(i + 1) == lines.deep_view().take(i as int).push(
                lines[i as int]@,
            ));
            lines.deep_view().take(i as int).lemma_filter_push(
                lines[i as int]@,
                |line: Seq<char>| line.len() > 0,
            );
        }
        if !lines[i].as_str().is_empty() {
            sites.push(lines[i].clone());
            assert(sites.deep_view() == before.push(lines[i as int]@));
        }
        i += 1;
    }
    assert(lines.deep_view().take(lines.len() as int) == lines.deep_view());
    sites
}

} // verus!
