//! The line filter: which lines of a target are kept.

use vstd::prelude::*;
use vstd::multiset::Multiset;
use crate::pattern::Pattern;

verus! {

/// Whether `line` is kept: it matches `p`, or, when `invert` holds, it does not.
pub open spec fn kept(p: Pattern, invert: bool, line: Seq<char>) -> bool {
    invert != p.spec_matches(line)
}

/// The lines kept out of `lines`, in their order.
pub open spec fn filter_lines(lines: Seq<Seq<char>>, p: Pattern, invert: bool) -> Seq<Seq<char>> {
    lines.filter(keeps(p, invert))
}

/// `kept` as a predicate on lines.
pub open spec fn keeps(p: Pattern, invert: bool) -> spec_fn(Seq<char>) -> bool {
    |l: Seq<char>| kept(p, invert, l)
}

/// Returns the lines of `lines` (each with its own terminator, if any) that
/// match `pattern`, or, when `invert_match` holds, those that do not.
pub fn find_lines(lines: &Vec<String>, pattern: &Pattern, invert_match: bool) -> (r: Vec<String>)
    ensures
        r.deep_view() == filter_lines(lines.deep_view(), *pattern, invert_match),
{
    let ghost all = lines.deep_view();
    let ghost pred = keeps(*pattern, invert_match);
    let mut result: Vec<String> = Vec::new();
    let mut i: usize = 0;
    while i < lines.len()
        invariant
            i <= lines.len(),
            all == lines.deep_view(),
            pred == keeps(*pattern, invert_match),
            result.deep_view() == all.take(i as int).filter(pred),
        decreases lines.len() - i,
    {
        let line = &lines[i];
        let found = pattern.is_match(line.as_str());
        let keep = invert_match != found;
        assert(found == pattern.spec_matches(line@));
        proof {
            let next = all.take(i as int + 1);
            assert(next.drop_last() == all.take(i as int));
            assert(next.last() == line@);
            assert(keep == pred(next.last()));
            reveal(Seq::filter);
        }
        if keep {
            let copy = line.clone();
            result.push(copy);
            assert(result.deep_view() =~= all.take(i as int).filter(pred).push(all[i as int]));
        }
        i = i + 1;
    }
    assert(all.take(lines.len() as int) == all);
    result
}

/// Inverting the match splits the lines in two: every line of `lines` stands
/// in exactly one of the two results, as often as it stands in `lines`.
pub proof fn lemma_invert_complements(lines: Seq<Seq<char>>, p: Pattern, invert: bool)
    ensures
        filter_lines(lines, p, invert).to_multiset().add(filter_lines(lines, p, !invert).to_multiset())
            == lines.to_multiset(),
        filter_lines(lines, p, invert).len() + filter_lines(lines, p, !invert).len() == lines.len(),
    decreases lines.len(),
{
    broadcast use vstd::seq_lib::group_to_multiset_ensures;
    reveal(Seq::filter);
    if lines.len() == 0 {
        assert(filter_lines(lines, p, invert).to_multiset() =~= Multiset::empty());
        assert(filter_lines(lines, p, !invert).to_multiset() =~= Multiset::empty());
        assert(lines.to_multiset() =~= Multiset::empty());
    } else {
        let rest = lines.drop_last();
        lemma_invert_complements(rest, p, invert);
        assert(lines == rest.push(lines.last()));
        assert(filter_lines(lines, p, invert).to_multiset().add(filter_lines(lines, p, !invert).to_multiset())
            =~= lines.to_multiset());
    }
}

} // verus!
