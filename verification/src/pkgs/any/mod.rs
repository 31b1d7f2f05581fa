//! The aggregation layer: mapping both sources into canonical form,
//! merging and ranking their results, and routing detail lookups.

use vstd::prelude::*;
use crate::error::Error;
use crate::pkgs::aur;
use crate::pkgs::aur::Aur;
use crate::pkgs::standard;
use crate::pkgs::standard::{Repo, Std};
use crate::pkgs::url_normalized;

pub mod schema;

pub use schema::Data;
pub use schema::DataView;
pub use schema::Type;
pub use schema::fuzzy_score;
pub use schema::lemma_rank_deterministic;
pub use schema::lemma_rank_excludes_nonmatches;
pub use schema::lemma_rank_sorted;
pub use schema::pair_views;
pub use schema::rank_view;
pub use schema::sorted_desc;
pub use schema::views_of;

verus! {

/// Capability of a native record: a pure, total mapping into the
/// canonical shape, tagging provenance. `canonical` is the
/// mathematical value of that mapping; `to_any` computes it.
pub trait ToAny {
    spec fn canonical(&self) -> DataView;

    fn to_any(&self) -> (r: Data)
        ensures
            r@ == self.canonical(),
    ;
}

/// The canonical views of both sources' results, standard-origin items
/// first, each source's own order preserved.
pub open spec fn merged_views(stdr: standard::Response, aurr: aur::Response) -> Seq<DataView> {
    stdr.results@.map_values(|d: standard::Data| d.canonical()) + aurr.results@.map_values(
        |d: aur::Data| d.canonical(),
    )
}

/// The ranked records with their scores dropped: scores are an
/// internal ranking artifact, not part of the public result.
pub open spec fn strip_scores(s: Seq<(DataView, i64)>) -> Seq<DataView> {
    s.map_values(|p: (DataView, i64)| p.0)
}

/// Where a detail lookup must be sent: back to the source that
/// produced the top-ranked record, with the stored repository family
/// when that source is the standard one.
#[derive(Debug, Clone, Copy, PartialEq, Eq, Structural)]
pub enum InfoRoute {
    Std(Repo),
    Aur,
}

/// Client pair for querying both sources at once.
#[derive(Debug, Clone)]
pub struct Any {
    /// Standard repository client.
    pub standard: Std,
    /// Community registry client.
    pub aur: Aur,
}

impl Any {
    /// Create both clients against their fixed default base addresses.
    pub fn new() -> (r: Result<Any, Error>)
        ensures
            r is Ok <==> (url_normalized(standard::BASE_URL@) is Some && url_normalized(
                aur::BASE_URL@,
            ) is Some),
            r is Ok ==> r->Ok_0.standard.base() == url_normalized(standard::BASE_URL@)->0
                && r->Ok_0.aur.base() == url_normalized(aur::BASE_URL@)->0,
            r is Err ==> r->Err_0 matches Error::ParseUrlError(_),
    {
        let std_client = match Std::new() {
            Ok(s) => s,
            Err(e) => {
                return Err(e);
            },
        };
        let aur_client = match Aur::new() {
            Ok(a) => a,
            Err(e) => {
                return Err(e);
            },
        };
        Ok(Any { standard: std_client, aur: aur_client })
    }

    /// Merge both sources' fetched search results into one ranked
    /// canonical list. Fail-fast: if either fetch failed, or the
    /// community envelope reports an application error, that failure is
    /// the whole result — partial results are never returned. On
    /// success every record is mapped to canonical form, ranked
    /// against `query`, and returned in descending relevance with the
    /// scores stripped.
    pub fn search(
        std_fetch: Result<standard::Response, Error>,
        aur_fetch: Result<aur::Response, Error>,
        query: &str,
    ) -> (r: Result<Vec<Data>, Error>)
        ensures
            std_fetch is Err ==> r == Err::<Vec<Data>, Error>(std_fetch->Err_0),
            std_fetch is Ok && aur_fetch is Err ==> r == Err::<Vec<Data>, Error>(
                aur_fetch->Err_0,
            ),
            std_fetch is Ok && aur_fetch is Ok && aur_fetch->Ok_0.error is Some ==> (r matches Err(
                Error::ResponseError(m),
            ) && m == aur_fetch->Ok_0.error->0),
            std_fetch is Ok && aur_fetch is Ok && aur_fetch->Ok_0.error is None ==> (r matches Ok(v)
                && views_of(v@) == strip_scores(
                rank_view(merged_views(std_fetch->Ok_0, aur_fetch->Ok_0), query@),
            ) && forall|k: int| 0 <= k < v@.len() ==> (#[trigger] views_of(v@)[k]).wf()),
    {
        let std_resp = match std_fetch {
            Ok(sr) => sr,
            Err(e) => {
                return Err(e);
            },
        };
        let aur_resp = match aur_fetch {
            Ok(ar) => ar,
            Err(e) => {
                return Err(e);
            },
        };
        let aur_resp = match Aur::accept_search(aur_resp) {
            Ok(a) => a,
            Err(e) => {
                return Err(e);
            },
        };
        let ghost mv = merged_views(std_resp, aur_resp);
        let ghost std_canon = std_resp.results@.map_values(
            |d: standard::Data| d.canonical(),
        );
        let mut merged: Vec<Data> = Vec::new();
        let std_results = std_resp.results;
        let mut i: usize = 0;
        while i < std_results.len()
            invariant
                i <= std_results@.len(),
                std_canon == std_results@.map_values(|d: standard::Data| d.canonical()),
                views_of(merged@) == std_canon.take(i as int),
            decreases std_results@.len() - i,
        {
            let ghost before = views_of(merged@);
            let item = std_results[i].to_any();
            merged.push(item);
            proof {
                assert(views_of(merged@) =~= before.push(std_results@[i as int].canonical()));
                assert(views_of(merged@) =~= std_canon.take(i as int + 1));
            }
            i = i + 1;
        }
        let ghost aur_canon = aur_resp.results@.map_values(|d: aur::Data| d.canonical());
        let aur_results = aur_resp.results;
        let mut j: usize = 0;
        proof {
            assert(std_canon.take(std_results@.len() as int) =~= std_canon);
            assert(views_of(merged@) =~= std_canon + aur_canon.take(0));
        }
        while j < aur_results.len()
            invariant
                j <= aur_results@.len(),
                aur_canon == aur_results@.map_values(|d: aur::Data| d.canonical()),
                views_of(merged@) == std_canon + aur_canon.take(j as int),
            decreases aur_results@.len() - j,
        {
            let ghost before = views_of(merged@);
            let item = aur_results[j].to_any();
            merged.push(item);
            proof {
                assert(views_of(merged@) =~= before.push(aur_results@[j as int].canonical()));
                assert(views_of(merged@) =~= std_canon + aur_canon.take(j as int + 1));
            }
            j = j + 1;
        }
        proof {
            assert(aur_canon.take(aur_results@.len() as int) =~= aur_canon);
            assert(views_of(merged@) == mv);
        }
        let ranked = Data::fuzzy_search(merged, query);
        let ghost target = strip_scores(pair_views(ranked@));
        proof {
            assert(target == strip_scores(rank_view(mv, query@)));
        }
        let mut out: Vec<Data> = Vec::new();
        let mut rest = ranked;
        proof {
            assert(strip_scores(pair_views(rest@)) =~= target);
            assert(views_of(out@) + strip_scores(pair_views(rest@)) =~= target);
        }
        while rest.len() > 0
            invariant
                views_of(out@) + strip_scores(pair_views(rest@)) == target,
            decreases rest@.len(),
        {
            let ghost rest_old = rest@;
            let ghost out_old = views_of(out@);
            let p = rest.remove(0);
            proof {
                assert(pair_views(rest@) =~= pair_views(rest_old).drop_first());
                assert(strip_scores(pair_views(rest@)) =~= strip_scores(
                    pair_views(rest_old),
                ).drop_first());
                assert(strip_scores(pair_views(rest_old))[0] == p.0@);
            }
            out.push(p.0);
            proof {
                assert(views_of(out@) =~= out_old.push(p.0@));
                assert(views_of(out@) + strip_scores(pair_views(rest@)) =~= out_old
                    + strip_scores(pair_views(rest_old)));
            }
        }
        proof {
            assert(strip_scores(pair_views(rest@)) =~= Seq::<DataView>::empty());
            assert(views_of(out@) =~= target);
            lemma_rank_excludes_nonmatches(mv, query@);
            assert forall|k: int| 0 <= k < out@.len() implies (#[trigger] views_of(
                out@,
            )[k]).wf() by {
                let rv = rank_view(mv, query@);
                assert(views_of(out@)[k] == rv[k].0);
                assert(mv.contains(rv[k].0));
                let m = choose|m: int| 0 <= m < mv.len() && mv[m] == rv[k].0;
                if m < std_canon.len() {
                    assert(mv[m] == std_canon[m]);
                } else {
                    assert(mv[m] == aur_canon[m - std_canon.len()]);
                }
            }
        }
        Ok(out)
    }

    /// Decide where the detail lookup for `query` goes: nowhere when
    /// the ranked list is empty (the lookup fails with no results),
    /// otherwise back to the top-ranked record's own source, carrying
    /// that record's stored repository family when it is
    /// standard-tagged. A standard-tagged record without a family is
    /// an invariant violation, which well-formedness rules out.
    pub fn info_route(ranked: &Vec<Data>, query: &str) -> (r: Result<InfoRoute, Error>)
        requires
            ranked@.len() > 0 ==> ranked@[0]@.wf(),
        ensures
            ranked@.len() == 0 ==> (r matches Err(Error::NoResults(m)) && m@ == query@),
            ranked@.len() > 0 && ranked@[0]@.types is Std ==> r == Ok::<InfoRoute, Error>(
                InfoRoute::Std(ranked@[0]@.repo->0),
            ),
            ranked@.len() > 0 && ranked@[0]@.types is Aur ==> r == Ok::<InfoRoute, Error>(
                InfoRoute::Aur,
            ),
    {
        if ranked.len() == 0 {
            return Err(Error::NoResults(query.to_owned()));
        }
        let top = &ranked[0];
        match top.types {
            Type::Std => match top.repo {
                Some(repo) => Ok(InfoRoute::Std(repo)),
                None => vstd::pervasive::unreached(),
            },
            Type::Aur => Ok(InfoRoute::Aur),
        }
    }
}

} // verus!
