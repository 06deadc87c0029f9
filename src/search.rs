use vstd::prelude::*;

use crate::jira::Issue;

verus! {

/// The code point of `c` with ASCII upper-case letters lowered.
pub open spec fn ascii_lower(c: char) -> u32 {
    if 65 <= c as u32 && c as u32 <= 90 {
        (c as u32 + 32) as u32
    } else {
        c as u32
    }
}

/// Two characters that are equal when ASCII case is ignored.
pub open spec fn chars_match(a: char, b: char) -> bool {
    ascii_lower(a) == ascii_lower(b)
}

/// Whether `pattern` occurs in `text` as a subsequence, ASCII case ignored.
pub open spec fn is_fuzzy_subseq(pattern: Seq<char>, text: Seq<char>) -> bool
    decreases text.len(),
{
    if pattern.len() == 0 {
        true
    } else if text.len() == 0 {
        false
    } else if chars_match(text[0], pattern[0]) {
        is_fuzzy_subseq(pattern.drop_first(), text.drop_first())
    } else {
        is_fuzzy_subseq(pattern, text.drop_first())
    }
}

/// The clangd-style similarity score of `pattern` against `text`.
pub uninterp spec fn clangd_score(text: Seq<char>, pattern: Seq<char>) -> i64;

/// The fuzzy-match score of `pattern` against `text`: none when the pattern
/// is not a subsequence of the text.
pub open spec fn fuzzy_score(text: Seq<char>, pattern: Seq<char>) -> Option<i64> {
    if is_fuzzy_subseq(pattern, text) {
        Some(clangd_score(text, pattern))
    } else {
        None
    }
}

/// Relies on fuzzy_matcher::clangd::fuzzy_match, which ignores case: it
/// returns `None` exactly when the greedy subsequence scan of the pattern's
/// characters over the text fails, and otherwise a score that depends on the
/// two strings alone.
#[verifier::external_body]
fn fuzzy_match(text: &str, pattern: &str) -> (r: Option<i64>)
    ensures
        r == (if is_fuzzy_subseq(pattern@, text@) {
            Some(clangd_score(text@, pattern@))
        } else {
            None
        }),
{
    fuzzy_matcher::clangd::fuzzy_match(text, pattern)
}

/// Whether index `i` comes before index `j` in a ranking: higher score
/// first, and on equal scores the earlier index first.
pub open spec fn ranks_before(scores: Seq<Option<i64>>, i: int, j: int) -> bool {
    ||| scores[i].unwrap() > scores[j].unwrap()
    ||| (scores[i].unwrap() == scores[j].unwrap() && i < j)
}

/// `order` lists every index that has a score, each once, by descending
/// score, with ties in index order.
pub open spec fn is_ranking(scores: Seq<Option<i64>>, order: Seq<usize>) -> bool {
    &&& forall|k: int| 0 <= k < order.len() ==> order[k] < scores.len() && scores[order[k] as int] is Some
    &&& forall|i: int| 0 <= i < scores.len() && scores[i] is Some ==> order.contains(i as usize)
    &&& forall|a: int, b: int| 0 <= a < b < order.len() ==> ranks_before(scores, order[a] as int, order[b] as int)
}

/// The issues picked by `order`, in that order.
pub open spec fn pick(issues: Seq<Issue>, order: Seq<usize>) -> Seq<Issue> {
    order.map_values(|i: usize| issues[i as int])
}

/// The score of each issue's summary against `query`.
pub open spec fn summary_scores(issues: Seq<Issue>, query: Seq<char>) -> Seq<Option<i64>> {
    issues.map_values(|issue: Issue| fuzzy_score(issue.summary@, query))
}

/// Whether `view` is what ranking `issues` by `query` gives: with an empty
/// query all issues in input order, else the matching issues best first.
pub open spec fn is_ranked_view(issues: Seq<Issue>, query: Seq<char>, view: Seq<Issue>) -> bool {
    if query.len() == 0 {
        view == issues
    } else {
        exists|order: Seq<usize>| is_ranking(summary_scores(issues, query), order) && view == pick(issues, order)
    }
}

/// The indices of the scored entries, best score first and stable on ties.
pub fn ranking_order(scores: &Vec<Option<i64>>) -> (order: Vec<usize>)
    ensures
        is_ranking(scores@, order@),
{
    let mut order: Vec<usize> = Vec::new();
    let n = scores.len();
    let mut i: usize = 0;
    while i < n
        invariant
            n == scores@.len(),
            i <= n,
            forall|k: int| 0 <= k < order@.len() ==> order@[k] < i && scores@[order@[k] as int] is Some,
            forall|j: int| 0 <= j < i && scores@[j] is Some ==> order@.contains(j as usize),
            forall|a: int, b: int| 0 <= a < b < order@.len() ==> ranks_before(scores@, order@[a] as int, order@[b] as int),
        decreases n - i,
    {
        if let Some(s) = scores[i] {
            let mut p: usize = 0;
            while p < order.len() && scores[order[p]].unwrap() >= s
                invariant
                    p <= order@.len(),
                    forall|k: int| 0 <= k < order@.len() ==> order@[k] < i && scores@[order@[k] as int] is Some,
                    forall|q: int| 0 <= q < p ==> scores@[order@[q] as int].unwrap() >= s,
                    n == scores@.len(),
                    i < n,
                decreases order@.len() - p,
            {
                p = p + 1;
            }
            let ghost before = order@;
            proof {
                assert forall|q: int| p <= q < before.len() implies scores@[before[q] as int].unwrap() < s by {
                    if q > p {
                        assert(ranks_before(scores@, before[p as int] as int, before[q] as int));
                    }
                }
            }
            order.insert(p, i);
            proof {
                assert forall|j: int| 0 <= j <= i && scores@[j] is Some implies order@.contains(j as usize) by {
                    if j == i {
                        assert(order@[p as int] == j as usize);
                    } else {
                        let k = choose|k: int| 0 <= k < before.len() && before[k] == j as usize;
                        if k < p {
                            assert(order@[k] == j as usize);
                        } else {
                            assert(order@[k + 1] == j as usize);
                        }
                    }
                }
            }
        }
        i = i + 1;
    }
    order
}

/// The issues ranked by their scores: unscored issues left out, the rest by
/// descending score, issues of equal score in their input order.
pub fn rank_by_scores(issues: &Vec<Issue>, scores: &Vec<Option<i64>>) -> (r: Vec<Issue>)
    requires
        scores@.len() == issues@.len(),
    ensures
        exists|order: Seq<usize>| is_ranking(scores@, order) && r@ == pick(issues@, order),
{
    let order = ranking_order(scores);
    let mut r: Vec<Issue> = Vec::new();
    let mut k: usize = 0;
    while k < order.len()
        invariant
            k <= order@.len(),
            is_ranking(scores@, order@),
            scores@.len() == issues@.len(),
            r@ == pick(issues@, order@.subrange(0, k as int)),
        decreases order@.len() - k,
    {
        r.push(issues[order[k]].duplicate());
        proof {
            assert(order@.subrange(0, k + 1) == order@.subrange(0, k as int).push(order@[k as int]));
        }
        k = k + 1;
    }
    proof {
        assert(order@.subrange(0, order@.len() as int) == order@);
    }
    r
}

/// The issues whose summary fuzzy-matches `query`, best match first and
/// stable on ties; with an empty query, all issues in their input order.
pub fn rank(issues: &Vec<Issue>, query: &str) -> (r: Vec<Issue>)
    ensures
        query@.len() == 0 ==> r@ == issues@,
        query@.len() != 0 ==> exists|order: Seq<usize>|
            is_ranking(summary_scores(issues@, query@), order) && r@ == pick(issues@, order),
        is_ranked_view(issues@, query@, r@),
{
    if query.unicode_len() == 0 {
        let mut r: Vec<Issue> = Vec::new();
        let mut k: usize = 0;
        while k < issues.len()
            invariant
                k <= issues@.len(),
                r@ == issues@.subrange(0, k as int),
            decreases issues@.len() - k,
        {
            r.push(issues[k].duplicate());
            k = k + 1;
        }
        return r;
    }
    let mut scores: Vec<Option<i64>> = Vec::new();
    let mut k: usize = 0;
    while k < issues.len()
        invariant
            k <= issues@.len(),
            scores@ == summary_scores(issues@, query@).subrange(0, k as int),
        decreases issues@.len() - k,
    {
        let s = fuzzy_match(issues[k].summary.as_str(), query);
        scores.push(s);
        k = k + 1;
    }
    proof {
        assert(scores@ == summary_scores(issues@, query@));
    }
    rank_by_scores(issues, &scores)
}

/// Every issue that ranking keeps has a fuzzy-match score against the
/// query; issues without one never appear.
pub proof fn lemma_ranked_issues_match(issues: Seq<Issue>, query: Seq<char>, view: Seq<Issue>)
    requires
        is_ranked_view(issues, query, view),
    ensures
        forall|k: int| 0 <= k < view.len() ==> fuzzy_score(#[trigger] view[k].summary@, query) is Some,
{
    if query.len() != 0 {
        let order = choose|order: Seq<usize>|
            is_ranking(summary_scores(issues, query), order) && view == pick(issues, order);
        assert forall|k: int| 0 <= k < view.len() implies fuzzy_score(#[trigger] view[k].summary@, query) is Some by {
            assert(summary_scores(issues, query)[order[k] as int] is Some);
        }
    }
}

/// Ranking is stable: the kept issues come from the input by an order of
/// indices that holds every issue with a score, and in which any two issues
/// of equal score keep their input order.
pub proof fn lemma_ranking_stable(issues: Seq<Issue>, query: Seq<char>, view: Seq<Issue>)
    requires
        is_ranked_view(issues, query, view),
        issues.len() <= usize::MAX,
    ensures
        exists|order: Seq<usize>| {
            &&& view == pick(issues, order)
            &&& forall|k: int| 0 <= k < order.len() ==> order[k] < issues.len()
            &&& forall|i: int|
                0 <= i < issues.len() && fuzzy_score(#[trigger] issues[i].summary@, query) is Some
                    ==> order.contains(i as usize)
            &&& forall|a: int, b: int|
                0 <= a < b < order.len() && fuzzy_score(issues[order[a] as int].summary@, query)
                    == fuzzy_score(issues[order[b] as int].summary@, query) ==> order[a] < order[b]
        },
{
    if query.len() == 0 {
        let order = Seq::new(issues.len(), |i: int| i as usize);
        assert forall|k: int| 0 <= k < order.len() implies order[k] == k by {}
        assert forall|i: int|
            0 <= i < issues.len() && fuzzy_score(#[trigger] issues[i].summary@, query) is Some implies order.contains(
            i as usize) by {
            assert(order[i] == i as usize);
        }
        assert(pick(issues, order) =~= issues);
        assert(view == pick(issues, order));
    } else {
        let order = choose|order: Seq<usize>|
            is_ranking(summary_scores(issues, query), order) && view == pick(issues, order);
        assert forall|a: int, b: int|
            0 <= a < b < order.len() && fuzzy_score(issues[order[a] as int].summary@, query)
                == fuzzy_score(issues[order[b] as int].summary@, query) implies order[a] < order[b] by {
            assert(ranks_before(summary_scores(issues, query), order[a] as int, order[b] as int));
        }
        assert(forall|k: int| 0 <= k < order.len() ==> order[k] < issues.len());
        assert forall|i: int|
            0 <= i < issues.len() && fuzzy_score(#[trigger] issues[i].summary@, query) is Some implies order.contains(
            i as usize) by {
            assert(summary_scores(issues, query)[i] is Some);
        }
    }
}

} // verus!
