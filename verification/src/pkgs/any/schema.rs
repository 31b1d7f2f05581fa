//! The canonical record: the unified shape every source's native
//! record is mapped into, and the fuzzy-relevance ranking over it.

use vstd::prelude::*;
use fuzzy_matcher::FuzzyMatcher;
use crate::pkgs::standard::{Arch, Repo};

verus! {

/// Provenance tag: which source produced a canonical record. It is
/// set once by the mapper and routes a later detail fetch back to the
/// originating source.
#[derive(Debug, Clone, Copy, PartialEq, Eq, Structural)]
pub enum Type {
    Aur,
    Std,
}

/// The mathematical value of a canonical record: every field as a
/// plain sequence value.
#[verifier::ext_equal]
pub ghost struct DataView {
    pub name: Seq<char>,
    pub base: Seq<char>,
    pub description: Option<Seq<char>>,
    pub arch: Arch,
    pub repo: Option<Repo>,
    pub types: Type,
    pub version: Seq<char>,
    pub url: Seq<char>,
    pub author: Seq<Seq<char>>,
    pub updated: i64,
    pub install: Seq<char>,
}

impl DataView {
    /// Well-formedness: the repository family is present if and only
    /// if the record came from the standard source.
    pub open spec fn wf(&self) -> bool {
        self.repo is Some <==> self.types is Std
    }
}

/// A package record in canonical form, whatever source it came from.
/// `updated` is Unix epoch seconds; `install` is the advisory install
/// command synthesized by the mapper.
#[derive(Debug, Clone, PartialEq)]
pub struct Data {
    pub name: String,
    pub base: String,
    pub description: Option<String>,
    pub arch: Arch,
    pub repo: Option<Repo>,
    pub types: Type,
    pub version: String,
    pub url: String,
    pub author: Vec<String>,
    pub updated: i64,
    pub install: String,
}

impl View for Data {
    type V = DataView;

    open spec fn view(&self) -> DataView {
        DataView {
            name: self.name@,
            base: self.base@,
            description: self.description.deep_view(),
            arch: self.arch,
            repo: self.repo,
            types: self.types,
            version: self.version@,
            url: self.url@,
            author: self.author.deep_view(),
            updated: self.updated,
            install: self.install@,
        }
    }
}

/// The relevance score the fuzzy matcher assigns to `choice` against
/// `pattern`: `None` when they do not match at all, otherwise a score
/// where higher means a better match. It is a deterministic function
/// of the two character sequences alone.
pub uninterp spec fn fuzzy_score(choice: Seq<char>, pattern: Seq<char>) -> Option<i64>;

/// Relies on `fuzzy_matcher::skim::SkimMatcherV2::fuzzy_match` in its
/// default configuration: the score is computed from the choice and
/// pattern strings alone (its caches are per-thread scratch buffers),
/// and an empty pattern always matches with score zero.
#[verifier::external_body]
fn fuzzy_match_score(choice: &str, pattern: &str) -> (r: Option<i64>)
    ensures
        r == fuzzy_score(choice@, pattern@),
        pattern@.len() == 0 ==> r == Some(0i64),
{
    fuzzy_matcher::skim::SkimMatcherV2::default().fuzzy_match(choice, pattern)
}

/// The views of a sequence of canonical records.
pub open spec fn views_of(s: Seq<Data>) -> Seq<DataView> {
    s.map_values(|d: Data| d@)
}

/// The views of a sequence of scored records.
pub open spec fn pair_views(s: Seq<(Data, i64)>) -> Seq<(DataView, i64)> {
    s.map_values(|p: (Data, i64)| (p.0@, p.1))
}

/// The items of `items` that match `pattern`, each paired with its
/// score, in input order; non-matches are dropped, not scored zero.
pub open spec fn scored(items: Seq<DataView>, pattern: Seq<char>) -> Seq<(DataView, i64)>
    decreases items.len(),
{
    if items.len() == 0 {
        Seq::empty()
    } else {
        let rest = scored(items.drop_first(), pattern);
        match fuzzy_score(items[0].name, pattern) {
            Some(s) => seq![(items[0], s)] + rest,
            None => rest,
        }
    }
}

/// Insertion of `x` into `s` after every element whose score is at
/// least `x`'s: descending insertion that keeps earlier equal-scored
/// elements first.
pub open spec fn insert_desc(s: Seq<(DataView, i64)>, x: (DataView, i64)) -> Seq<(DataView, i64)>
    decreases s.len(),
{
    if s.len() == 0 {
        seq![x]
    } else if s[0].1 >= x.1 {
        seq![s[0]] + insert_desc(s.drop_first(), x)
    } else {
        seq![x] + s
    }
}

/// Stable descending insertion sort by score: processing the input
/// left to right, so equal scores keep their input order.
pub open spec fn sort_desc(s: Seq<(DataView, i64)>) -> Seq<(DataView, i64)>
    decreases s.len(),
{
    if s.len() == 0 {
        Seq::empty()
    } else {
        insert_desc(sort_desc(s.drop_last()), s.last())
    }
}

/// Scores never increase along the sequence.
pub open spec fn sorted_desc(s: Seq<(DataView, i64)>) -> bool {
    forall|i: int, j: int| 0 <= i < j < s.len() ==> s[i].1 >= s[j].1
}

/// What ranking `items` against `pattern` returns: the matching items
/// with their scores, stably sorted by descending score.
pub open spec fn rank_view(items: Seq<DataView>, pattern: Seq<char>) -> Seq<(DataView, i64)> {
    sort_desc(scored(items, pattern))
}

proof fn lemma_insert_desc_props(s: Seq<(DataView, i64)>, x: (DataView, i64))
    ensures
        insert_desc(s, x).len() == s.len() + 1,
        forall|y: (DataView, i64)| #[trigger]
            insert_desc(s, x).contains(y) <==> (s.contains(y) || y == x),
    decreases s.len(),
{
    if s.len() == 0 {
        let r = insert_desc(s, x);
        assert forall|y: (DataView, i64)| r.contains(y) implies (s.contains(y) || y == x) by {
            let k = choose|k: int| 0 <= k < r.len() && r[k] == y;
            assert(r[0] == x);
        }
        assert forall|y: (DataView, i64)| (s.contains(y) || y == x) implies r.contains(y) by {
            assert(r[0] == x);
        }
    } else if s[0].1 >= x.1 {
        lemma_insert_desc_props(s.drop_first(), x);
        let r = insert_desc(s, x);
        assert forall|y: (DataView, i64)| r.contains(y) implies (s.contains(y) || y == x) by {
            let k = choose|k: int| 0 <= k < r.len() && r[k] == y;
            if k == 0 {
                assert(s.contains(y)) by { assert(s[0] == y) };
            } else {
                assert(insert_desc(s.drop_first(), x).contains(y)) by {
                    assert(insert_desc(s.drop_first(), x)[k - 1] == y);
                }
                if s.drop_first().contains(y) {
                    let m = choose|m: int| 0 <= m < s.drop_first().len() && s.drop_first()[m] == y;
                    assert(s[m + 1] == y);
                }
            }
        }
        assert forall|y: (DataView, i64)| (s.contains(y) || y == x) implies r.contains(y) by {
            if y == x {
                assert(insert_desc(s.drop_first(), x).contains(y));
                let m = choose|m: int|
                    0 <= m < insert_desc(s.drop_first(), x).len()
                        && insert_desc(s.drop_first(), x)[m] == y;
                assert(r[m + 1] == y);
            } else {
                let k = choose|k: int| 0 <= k < s.len() && s[k] == y;
                if k == 0 {
                    assert(r[0] == y);
                } else {
                    assert(s.drop_first()[k - 1] == y);
                    assert(insert_desc(s.drop_first(), x).contains(y));
                    let m = choose|m: int|
                        0 <= m < insert_desc(s.drop_first(), x).len()
                            && insert_desc(s.drop_first(), x)[m] == y;
                    assert(r[m + 1] == y);
                }
            }
        }
    } else {
        let r = insert_desc(s, x);
        assert forall|y: (DataView, i64)| r.contains(y) implies (s.contains(y) || y == x) by {
            let k = choose|k: int| 0 <= k < r.len() && r[k] == y;
            if k > 0 {
                assert(s[k - 1] == y);
            }
        }
        assert forall|y: (DataView, i64)| (s.contains(y) || y == x) implies r.contains(y) by {
            if y == x {
                assert(r[0] == y);
            } else {
                let k = choose|k: int| 0 <= k < s.len() && s[k] == y;
                assert(r[k + 1] == y);
            }
        }
    }
}

proof fn lemma_insert_desc_sorted(s: Seq<(DataView, i64)>, x: (DataView, i64))
    requires
        sorted_desc(s),
    ensures
        sorted_desc(insert_desc(s, x)),
    decreases s.len(),
{
    if s.len() == 0 {
    } else if s[0].1 >= x.1 {
        assert(sorted_desc(s.drop_first()));
        lemma_insert_desc_sorted(s.drop_first(), x);
        lemma_insert_desc_props(s.drop_first(), x);
        let rest = insert_desc(s.drop_first(), x);
        let r = insert_desc(s, x);
        assert forall|i: int, j: int| 0 <= i < j < r.len() implies r[i].1 >= r[j].1 by {
            if i == 0 {
                assert(rest.contains(rest[j - 1]));
                if s.drop_first().contains(rest[j - 1]) {
                    let m = choose|m: int|
                        0 <= m < s.drop_first().len() && s.drop_first()[m] == rest[j - 1];
                    assert(s[m + 1] == rest[j - 1]);
                    assert(s[0].1 >= s[m + 1].1);
                } else {
                    assert(rest[j - 1] == x);
                }
            } else {
                assert(rest[i - 1].1 >= rest[j - 1].1);
            }
        }
    } else {
        let r = insert_desc(s, x);
        assert forall|i: int, j: int| 0 <= i < j < r.len() implies r[i].1 >= r[j].1 by {
            if i == 0 {
                if j == 1 {
                    assert(r[1] == s[0]);
                } else {
                    assert(r[j] == s[j - 1]);
                    assert(s[0].1 >= s[j - 1].1);
                }
            } else {
                assert(r[i] == s[i - 1] && r[j] == s[j - 1]);
            }
        }
    }
}

proof fn lemma_sort_desc_props(s: Seq<(DataView, i64)>)
    ensures
        sort_desc(s).len() == s.len(),
        sorted_desc(sort_desc(s)),
        forall|y: (DataView, i64)| #[trigger] sort_desc(s).contains(y) <==> s.contains(y),
    decreases s.len(),
{
    if s.len() == 0 {
    } else {
        let head = s.drop_last();
        lemma_sort_desc_props(head);
        lemma_insert_desc_sorted(sort_desc(head), s.last());
        lemma_insert_desc_props(sort_desc(head), s.last());
        assert forall|y: (DataView, i64)| s.contains(y) implies (head.contains(y) || y
            == s.last()) by {
            let k = choose|k: int| 0 <= k < s.len() && s[k] == y;
            if k < s.len() - 1 {
                assert(head[k] == y);
            }
        }
        assert forall|y: (DataView, i64)| (head.contains(y) || y == s.last()) implies s.contains(
            y,
        ) by {
            if head.contains(y) {
                let k = choose|k: int| 0 <= k < head.len() && head[k] == y;
                assert(s[k] == y);
            } else {
                assert(s[s.len() - 1] == y);
            }
        }
    }
}

proof fn lemma_insert_desc_at(s: Seq<(DataView, i64)>, x: (DataView, i64), j: int)
    requires
        0 <= j <= s.len(),
        forall|i: int| 0 <= i < j ==> s[i].1 >= x.1,
        j < s.len() ==> s[j].1 < x.1,
    ensures
        insert_desc(s, x) == s.insert(j, x),
    decreases j,
{
    if j == 0 {
        assert(insert_desc(s, x) =~= s.insert(0, x));
    } else {
        lemma_insert_desc_at(s.drop_first(), x, j - 1);
        assert(seq![s[0]] + s.drop_first().insert(j - 1, x) =~= s.insert(j, x));
    }
}

proof fn lemma_scored_unfold(items: Seq<DataView>, pattern: Seq<char>)
    requires
        items.len() > 0,
    ensures
        fuzzy_score(items[0].name, pattern) matches Some(s) ==> scored(items, pattern) == seq![
            (items[0], s),
        ] + scored(items.drop_first(), pattern),
        fuzzy_score(items[0].name, pattern) is None ==> scored(items, pattern) == scored(
            items.drop_first(),
            pattern,
        ),
{
}

proof fn lemma_scored_props(items: Seq<DataView>, pattern: Seq<char>)
    ensures
        scored(items, pattern).len() <= items.len(),
        forall|k: int|
            0 <= k < scored(items, pattern).len() ==> {
                &&& fuzzy_score(#[trigger] scored(items, pattern)[k].0.name, pattern) == Some(
                    scored(items, pattern)[k].1,
                )
                &&& items.contains(scored(items, pattern)[k].0)
            },
        scored(items, pattern).len() > 0 <==> exists|i: int|
            0 <= i < items.len() && fuzzy_score(#[trigger] items[i].name, pattern) is Some,
    decreases items.len(),
{
    if items.len() == 0 {
    } else {
        let tail = items.drop_first();
        lemma_scored_props(tail, pattern);
        let sc = scored(items, pattern);
        let rest = scored(tail, pattern);
        assert forall|y: DataView| tail.contains(y) implies items.contains(y) by {
            let k = choose|k: int| 0 <= k < tail.len() && tail[k] == y;
            assert(items[k + 1] == y);
        }
        match fuzzy_score(items[0].name, pattern) {
            Some(s) => {
                assert forall|k: int| 0 <= k < sc.len() implies {
                    &&& fuzzy_score(#[trigger] sc[k].0.name, pattern) == Some(sc[k].1)
                    &&& items.contains(sc[k].0)
                } by {
                    if k == 0 {
                        assert(sc[0] == (items[0], s));
                        assert(items.contains(items[0]));
                    } else {
                        assert(sc[k] == rest[k - 1]);
                    }
                }
            },
            None => {
                if rest.len() > 0 {
                    let i = choose|i: int|
                        0 <= i < tail.len() && fuzzy_score(#[trigger] tail[i].name, pattern)
                            is Some;
                    assert(items[i + 1] == tail[i]);
                    assert(fuzzy_score(items[i + 1].name, pattern) is Some);
                }
                if exists|i: int|
                    0 <= i < items.len() && fuzzy_score(#[trigger] items[i].name, pattern)
                        is Some {
                    let i = choose|i: int|
                        0 <= i < items.len() && fuzzy_score(#[trigger] items[i].name, pattern)
                            is Some;
                    assert(i > 0);
                    assert(tail[i - 1] == items[i]);
                    assert(fuzzy_score(tail[i - 1].name, pattern) is Some);
                    assert(rest.len() > 0);
                }
            },
        }
    }
}

/// Law: ranking always orders by non-increasing score, and the ranked
/// result is non-empty exactly when the query fuzzy-matches at least
/// one item's name.
pub proof fn lemma_rank_sorted(items: Seq<DataView>, pattern: Seq<char>)
    ensures
        sorted_desc(rank_view(items, pattern)),
        rank_view(items, pattern).len() > 0 <==> exists|i: int|
            0 <= i < items.len() && fuzzy_score(#[trigger] items[i].name, pattern) is Some,
{
    lemma_scored_props(items, pattern);
    lemma_sort_desc_props(scored(items, pattern));
}

/// Law: every ranked entry is one of the input items, paired with the
/// score of its own name; so an item whose name has no match at all
/// — `fuzzy_score` of it is `None` — is absent from the ranked result.
pub proof fn lemma_rank_excludes_nonmatches(items: Seq<DataView>, pattern: Seq<char>)
    ensures
        forall|k: int|
            0 <= k < rank_view(items, pattern).len() ==> {
                &&& fuzzy_score((#[trigger] rank_view(items, pattern)[k]).0.name, pattern) == Some(
                    rank_view(items, pattern)[k].1,
                )
                &&& items.contains(rank_view(items, pattern)[k].0)
            },
{
    lemma_scored_props(items, pattern);
    lemma_sort_desc_props(scored(items, pattern));
    let rv = rank_view(items, pattern);
    let sc = scored(items, pattern);
    assert forall|k: int| 0 <= k < rv.len() implies {
        &&& fuzzy_score((#[trigger] rv[k]).0.name, pattern) == Some(rv[k].1)
        &&& items.contains(rv[k].0)
    } by {
        assert(rv.contains(rv[k]));
        assert(sc.contains(rv[k]));
        let m = choose|m: int| 0 <= m < sc.len() && sc[m] == rv[k];
        assert(fuzzy_score(sc[m].0.name, pattern) == Some(sc[m].1));
    }
}

/// Law: ranking is deterministic — the ranked output is a function of
/// the input list and the query alone, so re-running it on the same
/// input yields the identical ordering.
pub proof fn lemma_rank_deterministic(
    items1: Seq<DataView>,
    pattern1: Seq<char>,
    items2: Seq<DataView>,
    pattern2: Seq<char>,
)
    requires
        items1 == items2,
        pattern1 == pattern2,
    ensures
        rank_view(items1, pattern1) == rank_view(items2, pattern2),
{
}

/// The slot where an item with score `score` is inserted into the
/// already-sorted `out`: right after every element scoring at least
/// `score`, so earlier equal-scored elements stay first.
fn insert_slot(out: &Vec<(Data, i64)>, score: i64) -> (j: usize)
    ensures
        j <= out@.len(),
        forall|i: int| 0 <= i < j ==> out@[i].1 >= score,
        j < out@.len() ==> out@[j as int].1 < score,
{
    let mut j: usize = 0;
    while j < out.len() && out[j].1 >= score
        invariant
            j <= out@.len(),
            forall|i: int| 0 <= i < j ==> out@[i].1 >= score,
        decreases out@.len() - j,
    {
        j = j + 1;
    }
    j
}

impl Data {
    /// Score every record's name against `query`, drop the records
    /// that do not match at all, and sort the rest by non-increasing
    /// score; records with equal scores keep their input order, so the
    /// result is a deterministic function of the input list and the
    /// query.
    pub fn fuzzy_search(data: Vec<Data>, query: &str) -> (r: Vec<(Data, i64)>)
        ensures
            pair_views(r@) == rank_view(views_of(data@), query@),
            sorted_desc(pair_views(r@)),
            r@.len() > 0 <==> exists|i: int|
                0 <= i < data@.len() && fuzzy_score(
                    #[trigger] views_of(data@)[i].name,
                    query@,
                ) is Some,
    {
        let ghost all = views_of(data@);
        let ghost q = query@;
        let mut rest = data;
        let mut picked: Vec<(Data, i64)> = Vec::new();
        proof {
            assert(pair_views(picked@) + scored(views_of(rest@), q) =~= scored(all, q));
        }
        while rest.len() > 0
            invariant
                q == query@,
                pair_views(picked@) + scored(views_of(rest@), q) == scored(all, q),
            decreases rest@.len(),
        {
            let ghost prev = views_of(rest@);
            let ghost picked_prev = pair_views(picked@);
            let x = rest.remove(0);
            proof {
                assert(prev.drop_first() =~= views_of(rest@));
                assert(prev[0] == x@);
                lemma_scored_unfold(prev, q);
            }
            let score_opt = fuzzy_match_score(&x.name, query);
            match score_opt {
                Some(s) => {
                    proof {
                        assert(fuzzy_score(prev[0].name, q) == Some(s));
                        assert(scored(prev, q) == seq![(x@, s)] + scored(views_of(rest@), q));
                    }
                    picked.push((x, s));
                    proof {
                        assert(pair_views(picked@) =~= picked_prev + seq![(x@, s)]);
                        assert((picked_prev + seq![(x@, s)]) + scored(views_of(rest@), q)
                            =~= picked_prev + (seq![(x@, s)] + scored(views_of(rest@), q)));
                    }
                },
                None => {
                    proof {
                        assert(fuzzy_score(prev[0].name, q) is None);
                        assert(scored(prev, q) == scored(views_of(rest@), q));
                    }
                },
            }
        }
        proof {
            assert(views_of(rest@).len() == 0);
            assert(pair_views(picked@) + scored(views_of(rest@), q) =~= pair_views(picked@));
        }
        let ghost sc = scored(all, q);
        let mut src = picked;
        let mut out: Vec<(Data, i64)> = Vec::new();
        proof {
            assert(pair_views(src@) =~= sc.skip(0));
            assert(sc.take(0) =~= Seq::<(DataView, i64)>::empty());
        }
        while src.len() > 0
            invariant
                src@.len() <= sc.len(),
                pair_views(src@) == sc.skip(sc.len() - src@.len()),
                pair_views(out@) == sort_desc(sc.take(sc.len() - src@.len())),
                sorted_desc(pair_views(out@)),
            decreases src@.len(),
        {
            let ghost k = sc.len() - src@.len();
            let ghost src_old = src@;
            let ghost src_prev = pair_views(src@);
            let ghost out_prev = pair_views(out@);
            let x = src.remove(0);
            let score = x.1;
            proof {
                assert forall|i: int| 0 <= i < src@.len() implies pair_views(src@)[i] == sc.skip(
                    k + 1,
                )[i] by {
                    assert(src@[i] == src_old[i + 1]);
                    assert(src_prev[i + 1] == sc.skip(k)[i + 1]);
                }
                assert(pair_views(src@) =~= sc.skip(k + 1));
                assert(sc[k] == (x.0@, score)) by {
                    assert(src_prev[0] == sc.skip(k)[0]);
                }
            }
            let j = insert_slot(&out, score);
            out.insert(j, x);
            proof {
                lemma_insert_desc_sorted(out_prev, (x.0@, score));
                lemma_insert_desc_at(out_prev, (x.0@, score), j as int);
                assert(pair_views(out@) =~= out_prev.insert(j as int, (x.0@, score)));
                assert(sc.take(k + 1).drop_last() =~= sc.take(k));
                assert(sc.take(k + 1).last() == sc[k]);
                assert(sort_desc(sc.take(k + 1)) == insert_desc(sort_desc(sc.take(k)), sc[k]));
            }
        }
        proof {
            assert(sc.take(sc.len() - src@.len()) =~= sc);
            lemma_sort_desc_props(sc);
            lemma_scored_props(all, q);
        }
        out
    }
}

} // verus!

