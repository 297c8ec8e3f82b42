use vstd::prelude::*;

use crate::text::{contains, contains_query, lines_of, split_lines, views_of};

verus! {

/// What `str::to_lowercase` makes of the characters `s`.
pub uninterp spec fn lower_of(s: Seq<char>) -> Seq<char>;

/// Relies on `str::to_lowercase`: its result depends on the characters of `s`
/// alone, and the empty string stays empty.
#[verifier::external_body]
fn lowercase(s: &str) -> (r: String)
    ensures
        r@ == lower_of(s@),
        s@.len() == 0 ==> r@.len() == 0,
{
    s.to_lowercase()
}

/// Holds of a line that contains `query` exactly.
pub open spec fn has_query(query: Seq<char>) -> spec_fn(Seq<char>) -> bool {
    |line: Seq<char>| contains(line, query)
}

/// Holds of a line whose lowercase form contains the lowercase form of `query`.
pub open spec fn has_query_folded(query: Seq<char>) -> spec_fn(Seq<char>) -> bool {
    |line: Seq<char>| contains(lower_of(line), lower_of(query))
}

/// The lines of `contents` that contain `query`, in order.
pub open spec fn search_result(query: Seq<char>, contents: Seq<char>) -> Seq<Seq<char>> {
    lines_of(contents).filter(has_query(query))
}

/// The lines of `contents` that contain `query` when both are lowercased, in order.
pub open spec fn search_folded_result(query: Seq<char>, contents: Seq<char>) -> Seq<Seq<char>> {
    lines_of(contents).filter(has_query_folded(query))
}

/// The lines of `contents` that contain `query`, case-sensitively, in their order
/// in `contents`.
pub fn search<'a>(query: &str, contents: &'a str) -> (r: Vec<&'a str>)
    ensures
        views_of(r@) == search_result(query@, contents@),
        query@.len() == 0 ==> views_of(r@) == lines_of(contents@),
{
    let lines = split_lines(contents);
    let mut r: Vec<&'a str> = Vec::new();
    let mut j: usize = 0;
    while j < lines.len()
        invariant
            j <= lines.len(),
            views_of(lines@) == lines_of(contents@),
            views_of(r@) == views_of(lines@).take(j as int).filter(has_query(query@)),
        decreases lines.len() - j,
    {
        let line = lines[j];
        let ghost before = r@;
        assert(views_of(lines@).take(j + 1) =~= views_of(lines@).take(j as int).push(line@));
        proof { views_of(lines@).take(j as int).lemma_filter_push(line@, has_query(query@)); }
        if contains_query(line, query) {
            r.push(line);
            assert(views_of(r@) =~= views_of(before).push(line@));
        }
        j = j + 1;
    }
    assert(views_of(lines@).take(j as int) =~= views_of(lines@));
    proof {
        if query@.len() == 0 {
            assert(query@ =~= Seq::<char>::empty());
            crate::laws::lemma_empty_query_keeps_all(contents@);
        }
    }
    r
}

/// The lines of `contents` that contain `query` when both are lowercased, in their
/// order in `contents` and with their own casing.
pub fn search_case_insensitive<'a>(query: &str, contents: &'a str) -> (r: Vec<&'a str>)
    ensures
        views_of(r@) == search_folded_result(query@, contents@),
        query@.len() == 0 ==> views_of(r@) == lines_of(contents@),
{
    let lowered = lowercase(query);
    let lines = split_lines(contents);
    let mut r: Vec<&'a str> = Vec::new();
    let mut j: usize = 0;
    while j < lines.len()
        invariant
            j <= lines.len(),
            lowered@ == lower_of(query@),
            views_of(lines@) == lines_of(contents@),
            views_of(r@) == views_of(lines@).take(j as int).filter(has_query_folded(query@)),
        decreases lines.len() - j,
    {
        let line = lines[j];
        let ghost before = r@;
        assert(views_of(lines@).take(j + 1) =~= views_of(lines@).take(j as int).push(line@));
        proof { views_of(lines@).take(j as int).lemma_filter_push(line@, has_query_folded(query@)); }
        let lowered_line = lowercase(line);
        if contains_query(lowered_line.as_str(), lowered.as_str()) {
            r.push(line);
            assert(views_of(r@) =~= views_of(before).push(line@));
        }
        j = j + 1;
    }
    assert(views_of(lines@).take(j as int) =~= views_of(lines@));
    proof {
        if query@.len() == 0 {
            crate::laws::lemma_folded_empty_query_keeps_all(query@, contents@);
        }
    }
    r
}

} // verus!
