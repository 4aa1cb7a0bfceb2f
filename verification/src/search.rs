//! Fuzzy search over pattern signatures: score each signature against the
//! query, drop non-matches, and order the rows by score.

use vstd::prelude::*;
use crate::pattern::Pattern;
use fuzzy_matcher::FuzzyMatcher;
use fuzzy_matcher::skim::SkimMatcherV2;

verus! {

/// What the skim fuzzy matcher returns for a choice text and a query: a
/// score with the matched character positions, or nothing. The result
/// depends on the two texts alone.
pub uninterp spec fn fuzzy_match_of(choice: Seq<char>, query: Seq<char>) -> Option<
    (i64, Seq<usize>),
>;

/// One row of the filtered pattern view: a pattern index, its match score,
/// and the character positions the query matched.
pub struct SearchResult {
    pub index: usize,
    pub score: i64,
    pub matched_indices: Vec<usize>,
}

/// Mathematical model of a `SearchResult`.
#[verifier::ext_equal]
pub struct SearchResultV {
    pub index: usize,
    pub score: i64,
    pub matched_indices: Seq<usize>,
}

impl View for SearchResult {
    type V = SearchResultV;

    open spec fn view(&self) -> SearchResultV {
        SearchResultV {
            index: self.index,
            score: self.score,
            matched_indices: self.matched_indices@,
        }
    }
}

/// The views of a sequence of search results.
pub open spec fn result_views(v: Seq<SearchResult>) -> Seq<SearchResultV> {
    v.map_values(|x: SearchResult| x@)
}

/// Relies on `fuzzy_matcher::skim::SkimMatcherV2::fuzzy_indices` with the
/// default configuration, whose result is a function of the two texts.
#[verifier::external_body]
fn skim_fuzzy_indices(choice: &str, query: &str) -> (r: Option<(i64, Vec<usize>)>)
    ensures
        match r {
            Some(p) => fuzzy_match_of(choice@, query@) == Some((p.0, p.1@)),
            None => fuzzy_match_of(choice@, query@) is None,
        },
{
    let matcher = SkimMatcherV2::default();
    matcher.fuzzy_indices(choice, query)
}

/// The rows the matcher keeps, in the order the indices were given: one row
/// per index whose pattern signature matches the query.
pub open spec fn fuzzy_rows_from(
    pats: Seq<crate::pattern::PatternV>,
    order: Seq<usize>,
    q: Seq<char>,
    i: int,
) -> Seq<SearchResultV>
    decreases order.len() - i,
{
    if i < 0 || i >= order.len() {
        Seq::<SearchResultV>::empty()
    } else {
        match fuzzy_match_of(pats[order[i] as int].canonical, q) {
            Some(p) => seq![
                SearchResultV { index: order[i], score: p.0, matched_indices: p.1 },
            ] + fuzzy_rows_from(pats, order, q, i + 1),
            None => fuzzy_rows_from(pats, order, q, i + 1),
        }
    }
}

/// Insert a row after every row whose score is at least as high.
pub open spec fn insert_by_score(s: Seq<SearchResultV>, x: SearchResultV) -> Seq<SearchResultV>
    decreases s.len(),
{
    if s.len() == 0 {
        seq![x]
    } else if s[0].score >= x.score {
        seq![s[0]] + insert_by_score(s.drop_first(), x)
    } else {
        seq![x] + s
    }
}

/// Stable sort by score descending: rows are taken left to right and each is
/// placed after the rows that score at least as high.
pub open spec fn sort_rows(rows: Seq<SearchResultV>) -> Seq<SearchResultV>
    decreases rows.len(),
{
    if rows.len() == 0 {
        Seq::<SearchResultV>::empty()
    } else {
        insert_by_score(sort_rows(rows.drop_last()), rows.last())
    }
}

/// A row for every index, with score zero and no matched positions: what an
/// empty query produces.
pub open spec fn all_rows(order: Seq<usize>) -> Seq<SearchResultV> {
    order.map_values(
        |i: usize| SearchResultV { index: i, score: 0, matched_indices: Seq::<usize>::empty() },
    )
}

/// Inserting at the first position whose score is lower is what
/// `insert_by_score` does.
proof fn lemma_insert_at(s: Seq<SearchResultV>, x: SearchResultV, pos: int)
    requires
        0 <= pos <= s.len(),
        forall|m: int| 0 <= m < pos ==> (#[trigger] s[m]).score >= x.score,
        pos < s.len() ==> s[pos].score < x.score,
    ensures
        insert_by_score(s, x) == s.insert(pos, x),
    decreases s.len(),
{
    if pos == 0 {
        if s.len() == 0 {
            assert(insert_by_score(s, x) =~~= s.insert(0, x));
        } else {
            assert(insert_by_score(s, x) =~~= s.insert(0, x));
        }
    } else {
        assert(s[0].score >= x.score);
        assert forall|m: int| 0 <= m < pos - 1 implies (#[trigger] s.drop_first()[m]).score
            >= x.score by {
            assert(s.drop_first()[m] == s[m + 1]);
        }
        lemma_insert_at(s.drop_first(), x, pos - 1);
        assert(insert_by_score(s, x) =~~= s.insert(pos, x));
    }
}

/// Rank the patterns named by `sorted_indices` against the query. An empty
/// query keeps every index in the given order with score zero; otherwise the
/// matching rows are ordered by score, highest first, rows of equal score
/// keeping the given order.
pub fn fuzzy_search(query: &str, patterns: &[Pattern], sorted_indices: &[usize]) -> (r: Vec<
    SearchResult,
>)
    requires
        forall|i: int|
            0 <= i < sorted_indices@.len() ==> (#[trigger] sorted_indices@[i]) < patterns@.len(),
    ensures
        result_views(r@) == (if query@.len() == 0 {
            all_rows(sorted_indices@)
        } else {
            sort_rows(
                fuzzy_rows_from(
                    crate::pattern::pattern_views(patterns@),
                    sorted_indices@,
                    query@,
                    0,
                ),
            )
        }),
{
    let ghost pats = crate::pattern::pattern_views(patterns@);
    let ghost order = sorted_indices@;
    if query.unicode_len() == 0 {
        let mut out: Vec<SearchResult> = Vec::new();
        let mut i: usize = 0;
        while i < sorted_indices.len()
            invariant
                i <= sorted_indices@.len(),
                order == sorted_indices@,
                out@.len() == i,
                result_views(out@) =~~= all_rows(order.subrange(0, i as int)),
            decreases sorted_indices@.len() - i,
        {
            let x = SearchResult { index: sorted_indices[i], score: 0, matched_indices: Vec::new() };
            proof {
                assert(x@ =~~= (SearchResultV {
                    index: order[i as int],
                    score: 0,
                    matched_indices: Seq::<usize>::empty(),
                }));
            }
            let ghost out0 = out@;
            out.push(x);
            i = i + 1;
            proof {
                let s1 = result_views(out@);
                let s2 = all_rows(order.subrange(0, i as int));
                assert(s2.len() == i);
                assert forall|m: int| 0 <= m < i implies s1[m] == s2[m] by {
                    assert(s1[m] == out@[m]@);
                    assert(s2[m] == (SearchResultV {
                        index: order.subrange(0, i as int)[m],
                        score: 0,
                        matched_indices: Seq::<usize>::empty(),
                    }));
                    assert(order.subrange(0, i as int)[m] == order[m]);
                    if m < i - 1 {
                        assert(out@[m] == out0[m]);
                        assert(out@[m]@ == result_views(out0)[m]);
                        assert(result_views(out0)[m] == all_rows(
                            order.subrange(0, i as int - 1),
                        )[m]);
                        assert(all_rows(order.subrange(0, i as int - 1))[m] =~~= s2[m]);
                    } else {
                        assert(out@[m] == x);
                        assert(out@[m]@ =~~= s2[m]);
                    }
                }
                assert(s1 =~= s2);
            }
        }
        proof {
            assert(order.subrange(0, order.len() as int) =~~= order);
        }
        return out;
    }
    // collect the matching rows in the given order
    let mut rows: Vec<SearchResult> = Vec::new();
    let mut i: usize = 0;
    while i < sorted_indices.len()
        invariant
            i <= sorted_indices@.len(),
            order == sorted_indices@,
            pats == crate::pattern::pattern_views(patterns@),
            forall|m: int| 0 <= m < order.len() ==> (#[trigger] order[m]) < patterns@.len(),
            fuzzy_rows_from(pats, order, query@, 0) == result_views(rows@)
                + fuzzy_rows_from(pats, order, query@, i as int),
        decreases sorted_indices@.len() - i,
    {
        let ghost rows0 = result_views(rows@);
        let idx = sorted_indices[i];
        match skim_fuzzy_indices(patterns[idx].canonical.as_str(), query) {
            Some(p) => {
                let (score, matched) = p;
                let ghost mv = matched@;
                rows.push(SearchResult { index: idx, score, matched_indices: matched });
                proof {
                    assert(pats[order[i as int] as int].canonical == (
                    patterns@[order[i as int] as int]).canonical@);
                    assert(result_views(rows@) =~~= rows0 + seq![
                        SearchResultV { index: idx, score: score, matched_indices: mv },
                    ]);
                    assert(fuzzy_rows_from(pats, order, query@, i as int) == seq![
                        SearchResultV { index: idx, score: score, matched_indices: mv },
                    ] + fuzzy_rows_from(pats, order, query@, i + 1));
                    assert(rows0 + (seq![
                        SearchResultV { index: idx, score: score, matched_indices: mv },
                    ] + fuzzy_rows_from(pats, order, query@, i + 1)) =~~= (rows0 + seq![
                        SearchResultV { index: idx, score: score, matched_indices: mv },
                    ]) + fuzzy_rows_from(pats, order, query@, i + 1));
                }
            },
            None => {
                proof {
                    assert(pats[order[i as int] as int].canonical == (
                    patterns@[order[i as int] as int]).canonical@);
                    assert(fuzzy_rows_from(pats, order, query@, i as int) == fuzzy_rows_from(
                        pats,
                        order,
                        query@,
                        i + 1,
                    ));
                }
            },
        }
        i = i + 1;
    }
    proof {
        assert(fuzzy_rows_from(pats, order, query@, order.len() as int) =~~= Seq::<
            SearchResultV,
        >::empty());
        assert(result_views(rows@) + Seq::<SearchResultV>::empty() =~~= rows@
            .map_values(|x: SearchResult| x@));
    }
    // place each row after the rows that score at least as high
    let ghost all = result_views(rows@);
    let ghost mut processed = Seq::<SearchResultV>::empty();
    let mut out: Vec<SearchResult> = Vec::new();
    while rows.len() > 0
        invariant
            all =~~= processed + result_views(rows@),
            result_views(out@) == sort_rows(processed),
            forall|a: int, b: int|
                0 <= a <= b < out@.len() ==> (#[trigger] out@[a]).score >= (
                #[trigger] out@[b]).score,
        decreases rows@.len(),
    {
        let ghost rowsv = result_views(rows@);
        let x = rows.remove(0);
        let ghost xv = x@;
        proof {
            assert(result_views(rows@) =~~= rowsv.drop_first());
            assert(processed.push(xv) + rowsv.drop_first() =~~= processed + rowsv);
            assert((processed.push(xv)).drop_last() =~~= processed);
            assert(sort_rows(processed.push(xv)) == insert_by_score(sort_rows(processed), xv));
        }
        let mut pos: usize = 0;
        while pos < out.len() && out[pos].score >= x.score
            invariant
                pos <= out@.len(),
                forall|m: int| 0 <= m < pos ==> (#[trigger] out@[m]).score >= x@.score,
            decreases out@.len() - pos,
        {
            pos = pos + 1;
        }
        proof {
            lemma_insert_at(result_views(out@), xv, pos as int);
            result_views(out@).insert_ensures(pos as int, xv);
            out@.insert_ensures(pos as int, x);
        }
        let ghost outv0 = out@;
        out.insert(pos, x);
        proof {
            assert(result_views(out@) =~~= result_views(outv0).insert(pos as int, xv));
            processed = processed.push(xv);
            assert forall|a: int, b: int| 0 <= a <= b < out@.len() implies (
            #[trigger] out@[a]).score >= (#[trigger] out@[b]).score by {
                let prev = outv0;
                if a == b {
                } else if b < pos {
                } else if a < pos && b == pos {
                } else if a < pos && b > pos {
                } else if a == pos && b > pos {
                    assert(prev[pos as int].score < xv.score);
                    assert(out@[b] == prev[b - 1]);
                } else {
                }
            }
        }
    }
    proof {
        assert(processed =~~= all);
    }
    out
}

} // verus!
