use vstd::prelude::*;

use crate::search::{has_query, has_query_folded, lower_of, search_folded_result, search_result};
use crate::text::{contains, lines_of};

verus! {

/// The empty string occurs in every line.
pub proof fn lemma_empty_occurs(line: Seq<char>, empty: Seq<char>)
    requires
        empty.len() == 0,
    ensures
        contains(line, empty),
{
    assert(line.subrange(0, 0 + empty.len() as int) =~= empty);
}

/// Keeping the lines that satisfy a predicate that holds of every line keeps them all.
proof fn lemma_filter_all(ls: Seq<Seq<char>>, p: spec_fn(Seq<char>) -> bool)
    requires
        forall|i: int| 0 <= i < ls.len() ==> #[trigger] p(ls[i]),
    ensures
        ls.filter(p) == ls,
    decreases ls.len(),
{
    reveal(Seq::filter);
    if ls.len() > 0 {
        assert forall|i: int| 0 <= i < ls.len() - 1 implies #[trigger] p(ls.drop_last()[i]) by {
            assert(ls.drop_last()[i] == ls[i]);
        }
        lemma_filter_all(ls.drop_last(), p);
        assert(p(ls[ls.len() - 1]));
        assert(ls.drop_last().push(ls.last()) =~= ls);
    }
}

/// With an empty query, `search` keeps every line.
pub proof fn lemma_empty_query_keeps_all(contents: Seq<char>)
    ensures
        search_result(Seq::empty(), contents) == lines_of(contents),
{
    let ls = lines_of(contents);
    assert forall|i: int| 0 <= i < ls.len() implies #[trigger] has_query(Seq::empty())(ls[i]) by {
        lemma_empty_occurs(ls[i], Seq::empty());
    }
    lemma_filter_all(lines_of(contents), has_query(Seq::empty()));
}

/// With a query whose lowercase form is empty, `search_case_insensitive` keeps
/// every line.
pub proof fn lemma_folded_empty_query_keeps_all(query: Seq<char>, contents: Seq<char>)
    requires
        lower_of(query).len() == 0,
    ensures
        search_folded_result(query, contents) == lines_of(contents),
{
    let ls = lines_of(contents);
    assert forall|i: int| 0 <= i < ls.len() implies #[trigger] has_query_folded(query)(ls[i]) by {
        lemma_empty_occurs(lower_of(ls[i]), lower_of(query));
    }
    lemma_filter_all(lines_of(contents), has_query_folded(query));
}

/// `out` is made of the lines of `ls` at the positions `idx`, which rise strictly:
/// `out` keeps the order that those lines have in `ls`.
pub open spec fn picks(ls: Seq<Seq<char>>, out: Seq<Seq<char>>, idx: Seq<int>) -> bool {
    &&& idx.len() == out.len()
    &&& forall|j: int| 0 <= j < idx.len() ==> 0 <= #[trigger] idx[j] < ls.len() && out[j] == ls[idx[j]]
    &&& forall|j: int, k: int| 0 <= j < k < idx.len() ==> idx[j] < idx[k]
}

/// Filtering keeps exactly the lines at the positions where the predicate holds,
/// in their order.
proof fn lemma_filter_picks(ls: Seq<Seq<char>>, p: spec_fn(Seq<char>) -> bool) -> (idx: Seq<int>)
    ensures
        picks(ls, ls.filter(p), idx),
        forall|i: int| 0 <= i < ls.len() ==> (p(ls[i]) <==> idx.contains(i)),
    decreases ls.len(),
{
    reveal(Seq::filter);
    if ls.len() == 0 {
        Seq::empty()
    } else {
        let rest = lemma_filter_picks(ls.drop_last(), p);
        let last = ls.len() - 1;
        let idx = if p(ls.last()) { rest.push(last) } else { rest };
        assert forall|i: int| 0 <= i < ls.len() implies (p(ls[i]) <==> idx.contains(i)) by {
            if i < last {
                assert(ls.drop_last()[i] == ls[i]);
                if idx.contains(i) {
                    let j = choose|j: int| 0 <= j < idx.len() && idx[j] == i;
                    assert(rest[j] == i);
                }
                if rest.contains(i) {
                    let j = choose|j: int| 0 <= j < rest.len() && rest[j] == i;
                    assert(idx[j] == i);
                }
            } else {
                if idx.contains(i) && !p(ls.last()) {
                    let j = choose|j: int| 0 <= j < idx.len() && idx[j] == i;
                    assert(rest[j] < last);
                }
                if p(ls.last()) {
                    assert(idx[idx.len() - 1] == last);
                }
            }
        }
        idx
    }
}

/// Every line that `search` returns contains the query, every line that it
/// leaves out does not, and the lines come in their order in `contents`.
pub proof fn lemma_search_keeps_exactly_matching(query: Seq<char>, contents: Seq<char>) -> (idx:
    Seq<int>)
    ensures
        picks(lines_of(contents), search_result(query, contents), idx),
        forall|i: int|
            0 <= i < lines_of(contents).len() ==> (contains(lines_of(contents)[i], query)
                <==> idx.contains(i)),
        forall|j: int|
            0 <= j < search_result(query, contents).len() ==> contains(
                #[trigger] search_result(query, contents)[j],
                query,
            ),
{
    let idx = lemma_filter_picks(lines_of(contents), has_query(query));
    idx
}

/// `search_case_insensitive` returns the lines, and only those, whose lowercase
/// form contains the lowercase query, in their order in `contents`. Lowercased,
/// they are exactly what an exact search for the lowercase query finds among the
/// lowercased lines.
pub proof fn lemma_search_case_insensitive_keeps_folded_matches(
    query: Seq<char>,
    contents: Seq<char>,
) -> (idx: Seq<int>)
    ensures
        picks(lines_of(contents), search_folded_result(query, contents), idx),
        forall|i: int|
            0 <= i < lines_of(contents).len() ==> (contains(
                lower_of(lines_of(contents)[i]),
                lower_of(query),
            ) <==> idx.contains(i)),
        forall|j: int|
            0 <= j < search_folded_result(query, contents).len() ==> contains(
                lower_of(#[trigger] search_folded_result(query, contents)[j]),
                lower_of(query),
            ),
        search_folded_result(query, contents).map_values(|l: Seq<char>| lower_of(l)) == lines_of(
            contents,
        ).map_values(|l: Seq<char>| lower_of(l)).filter(has_query(lower_of(query))),
{
    let idx = lemma_filter_picks(lines_of(contents), has_query_folded(query));
    lemma_filter_map_lower(lines_of(contents), query);
    idx
}

/// Lowering the lines that match case-insensitively gives the lowered lines that
/// contain the lowered query.
proof fn lemma_filter_map_lower(ls: Seq<Seq<char>>, query: Seq<char>)
    ensures
        ls.filter(has_query_folded(query)).map_values(|l: Seq<char>| lower_of(l)) == ls.map_values(
            |l: Seq<char>| lower_of(l),
        ).filter(has_query(lower_of(query))),
    decreases ls.len(),
{
    reveal(Seq::filter);
    if ls.len() > 0 {
        lemma_filter_map_lower(ls.drop_last(), query);
        let lowered = ls.map_values(|l: Seq<char>| lower_of(l));
        assert(lowered.drop_last() =~= ls.drop_last().map_values(|l: Seq<char>| lower_of(l)));
        let sub = ls.drop_last().filter(has_query_folded(query));
        assert(sub.push(ls.last()).map_values(|l: Seq<char>| lower_of(l)) =~= sub.map_values(
            |l: Seq<char>| lower_of(l),
        ).push(lower_of(ls.last())));
    }
}

/// Searching again, with the same query, through the lines that a search
/// returned gives back those lines unchanged and in the same order.
pub proof fn lemma_search_again_keeps_result(query: Seq<char>, contents: Seq<char>)
    ensures
        search_result(query, contents).filter(has_query(query)) == search_result(query, contents),
        search_folded_result(query, contents).filter(has_query_folded(query))
            == search_folded_result(query, contents),
{
    let exact = search_result(query, contents);
    let folded = search_folded_result(query, contents);
    lemma_search_keeps_exactly_matching(query, contents);
    lemma_search_case_insensitive_keeps_folded_matches(query, contents);
    assert forall|i: int| 0 <= i < exact.len() implies #[trigger] has_query(query)(exact[i]) by {}
    assert forall|i: int| 0 <= i < folded.len() implies #[trigger] has_query_folded(query)(
        folded[i],
    ) by {}
    lemma_filter_all(exact, has_query(query));
    lemma_filter_all(folded, has_query_folded(query));
}

/// Both searches return their lines in the order those lines have in `contents`.
pub proof fn lemma_results_keep_line_order(query: Seq<char>, contents: Seq<char>)
    ensures
        exists|idx: Seq<int>| picks(lines_of(contents), search_result(query, contents), idx),
        exists|idx: Seq<int>| picks(lines_of(contents), search_folded_result(query, contents), idx),
{
    let exact = lemma_search_keeps_exactly_matching(query, contents);
    let folded = lemma_search_case_insensitive_keeps_folded_matches(query, contents);
}

} // verus!
