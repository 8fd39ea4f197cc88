use vstd::prelude::*;

use crate::aggregate::{total_of, BusFactorAggregator};
use crate::catalog::{
    catalog_outcome_model, decoded_catalog_pages, lemma_catalog_views,
    lemma_decoded_catalog_prefix, required_pages_spec, CatalogPageRequest,
    RepositoryCatalogGatherer,
};
use crate::contributors::{
    gathered_model, sorted_desc, ContributorGatherer, ContributorPageRequest,
    CONTRIBUTOR_PAGE_SIZE, PROBE_PAGE_SIZE,
};
use crate::decode::decode_catalog_page;
use crate::errors::FetchError;
use crate::paged_fetcher::{
    complete_pairing, first_failure_error, has_failure, ordered_bodies, views_of_strings,
    PageFetchOutcome, PagedFetcher,
};
use crate::records::{
    views_of_catalog_pages, views_of_contributors, views_of_repos, AggregatedResult,
    AggregatedResultView, BusFactor, RepoContributorsInfo, RepoContributorsInfoView,
    RepositoriesInfo, SingleRepoInfo, SingleRepoInfoView, Threshold,
};

verus! {

/// The stage a run is in. The phase tracks the points where the run waits on
/// outside work; aggregating, filtering and reporting involve none and run as
/// one step between the fan-out and `Done`.
#[derive(Clone, Copy, Debug, PartialEq, Eq, Structural)]
pub enum Phase {
    /// Nothing started yet.
    Idle,
    /// The catalog requests are out.
    CatalogFetching,
    /// Contributor gathering runs per repository, independently.
    PerRepositoryFanOut,
    /// The report was produced; the run is over.
    Done,
    /// The catalog fetch failed; with no catalog there is nothing to report.
    Failed,
}

/// What is known about one repository of the catalog during the fan-out.
pub enum RepoOutcome {
    /// No result was recorded yet.
    Pending,
    /// Gathering failed for this repository alone; the error is recorded and
    /// no sibling is touched.
    Failed(FetchError),
    /// The full contributor list arrived, its descending order verified.
    Gathered(Vec<RepoContributorsInfo>),
}

/// The bus factor a gathered list yields, meaningful when its total commit
/// count is positive and fits the metric's word.
pub open spec fn bus_factor_of(c: Seq<RepoContributorsInfo>) -> BusFactor {
    BusFactor { dominant_commits: c[0].contributions as u64, total_commits: total_of(c) as u64 }
}

/// A gathered list enters the report exactly when its commit total is usable
/// and its ratio exceeds the threshold.
pub open spec fn row_kept(c: Seq<RepoContributorsInfo>, threshold: Threshold) -> bool {
    &&& 0 < total_of(c) <= u64::MAX
    &&& bus_factor_of(c).exceeds_spec(threshold)
}

/// The error aggregation raises for a gathered list it cannot turn into a
/// ratio.
pub open spec fn aggregate_error_of(c: Seq<RepoContributorsInfo>) -> FetchError {
    if total_of(c) == 0 {
        FetchError::InsufficientData
    } else {
        FetchError::ResponseParse
    }
}

/// The report row of one kept repository: the record with its derived fields
/// populated, paired with the full contributor list.
pub open spec fn row_of(repo: SingleRepoInfo, c: Seq<RepoContributorsInfo>) -> AggregatedResultView {
    AggregatedResultView {
        repo: SingleRepoInfoView {
            num_of_commits: total_of(c) as u64,
            bus_factor: Some(bus_factor_of(c)),
            ..repo@
        },
        contributors: c.map_values(|x: RepoContributorsInfo| x@),
    }
}

/// The views of a sequence of aggregated results.
pub open spec fn views_of_results(s: Seq<AggregatedResult>) -> Seq<AggregatedResultView> {
    s.map_values(|a: AggregatedResult| a@)
}

/// The report over the first `i` repositories of the catalog: the rows of the
/// kept repositories, in catalog order.
pub open spec fn report_upto(
    catalog: Seq<SingleRepoInfo>,
    outcomes: Seq<RepoOutcome>,
    threshold: Threshold,
    i: int,
) -> Seq<AggregatedResultView>
    decreases i,
{
    if i <= 0 {
        Seq::empty()
    } else {
        let prev = report_upto(catalog, outcomes, threshold, i - 1);
        match outcomes[i - 1] {
            RepoOutcome::Gathered(c) => if row_kept(c@, threshold) {
                prev.push(row_of(catalog[i - 1], c@))
            } else {
                prev
            },
            _ => prev,
        }
    }
}

/// The whole run's report: the kept rows of every repository, catalog order.
pub open spec fn report_spec(
    catalog: Seq<SingleRepoInfo>,
    outcomes: Seq<RepoOutcome>,
    threshold: Threshold,
) -> Seq<AggregatedResultView> {
    report_upto(catalog, outcomes, threshold, catalog.len() as int)
}

/// The aggregation failures among the first `i` repositories: for every
/// gathered list that yields no ratio, the repository's catalog position and
/// the error, in catalog order.
pub open spec fn dropped_upto(outcomes: Seq<RepoOutcome>, i: int) -> Seq<(usize, FetchError)>
    decreases i,
{
    if i <= 0 {
        Seq::empty()
    } else {
        let prev = dropped_upto(outcomes, i - 1);
        match outcomes[i - 1] {
            RepoOutcome::Gathered(c) => if 0 < total_of(c@) <= u64::MAX {
                prev
            } else {
                prev.push(((i - 1) as usize, aggregate_error_of(c@)))
            },
            _ => prev,
        }
    }
}

/// The outcome records a gathered list of `k` contributors in verified
/// descending order.
pub open spec fn outcome_gathered(o: RepoOutcome, k: int) -> bool {
    match o {
        RepoOutcome::Gathered(c) => c@.len() == k && sorted_desc(c@),
        _ => false,
    }
}

/// The outcome slot records a gathered list whose views are exactly the
/// model's payload.
pub open spec fn outcome_is_model(
    o: RepoOutcome,
    model: Option<Seq<RepoContributorsInfoView>>,
) -> bool {
    match o {
        RepoOutcome::Gathered(c) => model == Some(views_of_contributors(c@)),
        _ => false,
    }
}

/// Drives the pipeline end to end: catalog fetch, per-repository fan-out,
/// aggregation, filtering, ordered report. The orchestrator makes every
/// decision of the run; the caller only performs the planned requests and
/// hands their outcomes back as plain values.
pub struct Orchestrator {
    pub language: String,
    pub desired_count: usize,
    pub threshold: Threshold,
    pub phase: Phase,
    pub catalog: Vec<SingleRepoInfo>,
    pub outcomes: Vec<RepoOutcome>,
}

impl Orchestrator {
    /// The state is well formed: the outcome table mirrors the catalog one to
    /// one, and the threshold is a valid rational.
    pub open spec fn wf(self) -> bool {
        &&& self.threshold.wf()
        &&& self.outcomes@.len() == self.catalog@.len()
    }

    /// A fresh run: configuration in — passed by value, never read from any
    /// process-wide state — and nothing fetched yet.
    pub fn new(language: String, desired_count: usize, threshold: Threshold) -> (r: Orchestrator)
        requires
            threshold.wf(),
        ensures
            r.wf(),
            r.phase == Phase::Idle,
            r.language@ == language@,
            r.desired_count == desired_count,
            r.threshold == threshold,
            r.catalog@.len() == 0,
    {
        Orchestrator {
            language,
            desired_count,
            threshold,
            phase: Phase::Idle,
            catalog: Vec::new(),
            outcomes: Vec::new(),
        }
    }

    /// Starts the run: plans the catalog requests, one per needed page.
    pub fn start(&mut self) -> (r: Vec<CatalogPageRequest>)
        requires
            old(self).wf(),
            old(self).phase == Phase::Idle,
        ensures
            final(self).wf(),
            final(self).phase == Phase::CatalogFetching,
            final(self).language == old(self).language,
            final(self).desired_count == old(self).desired_count,
            final(self).threshold == old(self).threshold,
            final(self).catalog == old(self).catalog,
            final(self).outcomes == old(self).outcomes,
            r@.len() == required_pages_spec(old(self).desired_count as int),
            forall|i: int|
                0 <= i < r@.len() ==> {
                    &&& (#[trigger] r@[i]).page == i + 1
                    &&& r@[i].per_page == 100
                    &&& r@[i].language@ == old(self).language@
                },
    {
        self.phase = Phase::CatalogFetching;
        let gatherer = RepositoryCatalogGatherer {
            language: self.language.clone(),
            desired_count: self.desired_count,
        };
        gatherer.plan_requests()
    }

    /// Ingests the catalog page outcomes, one per planned request. Succeeds
    /// exactly when every request succeeded and every body decodes as a
    /// catalog page, and then holds exactly the assembled catalog. Any
    /// failure here is fatal to the whole run: without a catalog there is
    /// nothing to report. On success the fan-out table stands, one pending
    /// slot per repository, in catalog order.
    pub fn ingest_catalog(&mut self, results: Vec<(usize, PageFetchOutcome)>) -> (r: Result<
        usize,
        FetchError,
    >)
        requires
            old(self).wf(),
            old(self).phase == Phase::CatalogFetching,
            complete_pairing(results@, required_pages_spec(old(self).desired_count as int)),
        ensures
            final(self).wf(),
            final(self).language == old(self).language,
            final(self).desired_count == old(self).desired_count,
            final(self).threshold == old(self).threshold,
            match r {
                Ok(k) => {
                    &&& final(self).phase == Phase::PerRepositoryFanOut
                    &&& !has_failure(results@)
                    &&& final(self).catalog@.len() == k
                    &&& final(self).outcomes@.len() == k
                    &&& forall|i: int|
                        0 <= i < k as int ==> final(self).outcomes@[i] is Pending
                    &&& catalog_outcome_model(
                        ordered_bodies(
                            results@,
                            required_pages_spec(old(self).desired_count as int),
                        ),
                        old(self).desired_count as int,
                    ) == Some(views_of_repos(final(self).catalog@))
                },
                Err(e) => {
                    &&& final(self).phase == Phase::Failed
                    &&& final(self).catalog == old(self).catalog
                    &&& final(self).outcomes == old(self).outcomes
                    &&& has_failure(results@) || catalog_outcome_model(
                        ordered_bodies(
                            results@,
                            required_pages_spec(old(self).desired_count as int),
                        ),
                        old(self).desired_count as int,
                    ) is None
                    &&& (has_failure(results@) ==> e == first_failure_error(results@))
                    &&& (!has_failure(results@) ==> e == FetchError::ResponseParse)
                },
            },
    {
        let n = RepositoryCatalogGatherer::required_pages(self.desired_count);
        let ghost ob = ordered_bodies(results@, n as int);
        let bodies = match PagedFetcher::assemble(n, results) {
            Ok(b) => b,
            Err(e) => {
                self.phase = Phase::Failed;
                return Err(e);
            },
        };
        let mut pages: Vec<RepositoriesInfo> = Vec::new();
        let mut i: usize = 0;
        while i < bodies.len()
            invariant
                i <= bodies@.len(),
                *self == *old(self),
                old(self).wf(),
                !has_failure(results@),
                ob == ordered_bodies(
                    results@,
                    required_pages_spec(old(self).desired_count as int),
                ),
                views_of_strings(bodies@) == ob,
                ob.len() == bodies@.len(),
                decoded_catalog_pages(ob.take(i as int)) == Some(views_of_catalog_pages(pages@)),
            decreases bodies@.len() - i,
        {
            proof {
                assert(ob.take(i as int + 1).drop_last() =~= ob.take(i as int));
                assert(ob[i as int] == bodies@[i as int]@);
            }
            let ghost prev = pages@;
            match decode_catalog_page(bodies[i].as_str()) {
                Ok(p) => {
                    pages.push(p);
                    proof {
                        assert(views_of_catalog_pages(pages@) =~= views_of_catalog_pages(
                            prev,
                        ).push(pages@.last()@));
                    }
                },
                Err(e) => {
                    proof {
                        lemma_decoded_catalog_prefix(ob, i as int + 1);
                    }
                    self.phase = Phase::Failed;
                    return Err(e);
                },
            }
            i += 1;
        }
        proof {
            assert(ob.take(ob.len() as int) =~= ob);
        }
        let ghost gpages = pages@;
        let cat = RepositoryCatalogGatherer::assemble_catalog(self.desired_count, pages);
        proof {
            lemma_catalog_views(gpages, old(self).desired_count as int);
        }
        let k = cat.len();
        self.catalog = cat;
        let mut outs: Vec<RepoOutcome> = Vec::new();
        let mut t: usize = 0;
        while t < k
            invariant
                t <= k,
                outs@.len() == t,
                forall|j: int| 0 <= j < t ==> outs@[j] is Pending,
                old(self).wf(),
                self.language == old(self).language,
                self.desired_count == old(self).desired_count,
                self.threshold == old(self).threshold,
                self.catalog@.len() == k,
                !has_failure(results@),
                catalog_outcome_model(
                    ordered_bodies(
                        results@,
                        required_pages_spec(old(self).desired_count as int),
                    ),
                    old(self).desired_count as int,
                ) == Some(views_of_repos(self.catalog@)),
            decreases k - t,
        {
            outs.push(RepoOutcome::Pending);
            t += 1;
        }
        self.outcomes = outs;
        self.phase = Phase::PerRepositoryFanOut;
        Ok(k)
    }

    /// Plans the probe request of the repository at `index` of the catalog.
    pub fn probe_request(&self, index: usize) -> (r: ContributorPageRequest)
        requires
            self.phase == Phase::PerRepositoryFanOut,
            index < self.catalog@.len(),
        ensures
            r.owner@ == self.catalog@[index as int].owner.login@,
            r.repo@ == self.catalog@[index as int].name@,
            r.page == 1,
            r.per_page == PROBE_PAGE_SIZE,
    {
        ContributorGatherer::probe_request(&self.catalog[index])
    }

    /// Plans the production contributor requests of the repository at
    /// `index`, one per discovered page.
    pub fn contributor_page_requests(&self, index: usize, page_count: usize) -> (r: Vec<
        ContributorPageRequest,
    >)
        requires
            self.phase == Phase::PerRepositoryFanOut,
            index < self.catalog@.len(),
        ensures
            r@.len() == page_count,
            forall|i: int|
                0 <= i < r@.len() ==> {
                    &&& (#[trigger] r@[i]).page == i + 1
                    &&& r@[i].per_page == CONTRIBUTOR_PAGE_SIZE
                    &&& r@[i].owner@ == self.catalog@[index as int].owner.login@
                    &&& r@[i].repo@ == self.catalog@[index as int].name@
                },
    {
        ContributorGatherer::page_requests(&self.catalog[index], page_count)
    }

    /// Writes one repository's outcome slot, leaving every other slot alone.
    fn set_outcome(&mut self, index: usize, outcome: RepoOutcome)
        requires
            index < old(self).outcomes@.len(),
        ensures
            final(self).outcomes@ == old(self).outcomes@.update(index as int, outcome),
            final(self).language == old(self).language,
            final(self).desired_count == old(self).desired_count,
            final(self).threshold == old(self).threshold,
            final(self).phase == old(self).phase,
            final(self).catalog == old(self).catalog,
    {
        self.outcomes.push(outcome);
        let _ = self.outcomes.swap_remove(index);
        proof {
            assert(self.outcomes@ =~= old(self).outcomes@.update(index as int, outcome));
        }
    }

    /// Records that this repository's gathering failed before any page
    /// arrived — a failed probe, or malformed pagination metadata. The
    /// failure is isolated: the slot records the error, no sibling and no
    /// later stage is touched, and the run goes on.
    pub fn record_failure(&mut self, index: usize, error: FetchError)
        requires
            old(self).wf(),
            old(self).phase == Phase::PerRepositoryFanOut,
            index < old(self).catalog@.len(),
        ensures
            final(self).wf(),
            final(self).phase == old(self).phase,
            final(self).language == old(self).language,
            final(self).desired_count == old(self).desired_count,
            final(self).threshold == old(self).threshold,
            final(self).catalog == old(self).catalog,
            final(self).outcomes@ == old(self).outcomes@.update(
                index as int,
                RepoOutcome::Failed(error),
            ),
    {
        self.set_outcome(index, RepoOutcome::Failed(error));
    }

    /// Ingests one repository's fetched contributor pages: orders them,
    /// all-or-nothing for this repository alone, decodes and merges them, and
    /// records the outcome in the repository's slot. It succeeds exactly when
    /// every request succeeded, every page decodes and the merge keeps the
    /// descending order, and then the slot holds exactly the gathered list. A
    /// failure is recorded and returned for the caller's log; no sibling is
    /// touched either way.
    pub fn ingest_contributors(
        &mut self,
        index: usize,
        page_count: usize,
        results: Vec<(usize, PageFetchOutcome)>,
    ) -> (r: Result<usize, FetchError>)
        requires
            old(self).wf(),
            old(self).phase == Phase::PerRepositoryFanOut,
            index < old(self).catalog@.len(),
            complete_pairing(results@, page_count as int),
        ensures
            final(self).wf(),
            final(self).phase == old(self).phase,
            final(self).language == old(self).language,
            final(self).desired_count == old(self).desired_count,
            final(self).threshold == old(self).threshold,
            final(self).catalog == old(self).catalog,
            match r {
                Ok(k) => {
                    &&& !has_failure(results@)
                    &&& outcome_gathered(final(self).outcomes@[index as int], k as int)
                    &&& outcome_is_model(
                        final(self).outcomes@[index as int],
                        gathered_model(ordered_bodies(results@, page_count as int)),
                    )
                    &&& final(self).outcomes@ == old(self).outcomes@.update(
                        index as int,
                        final(self).outcomes@[index as int],
                    )
                },
                Err(e) => {
                    &&& final(self).outcomes@ == old(self).outcomes@.update(
                        index as int,
                        RepoOutcome::Failed(e),
                    )
                    &&& has_failure(results@) || gathered_model(
                        ordered_bodies(results@, page_count as int),
                    ) is None
                    &&& (has_failure(results@) ==> e == first_failure_error(results@))
                    &&& (!has_failure(results@) ==> e == FetchError::ResponseParse)
                },
            },
    {
        match ContributorGatherer::contributors_from_responses(page_count, results) {
            Ok(c) => {
                let k = c.len();
                self.set_outcome(index, RepoOutcome::Gathered(c));
                Ok(k)
            },
            Err(e) => {
                self.set_outcome(index, RepoOutcome::Failed(e));
                Err(e)
            },
        }
    }

    /// Is the repository at `index` recorded as failed?
    pub fn is_failed(&self, index: usize) -> (r: bool)
        requires
            index < self.outcomes@.len(),
        ensures
            r == (self.outcomes@[index as int] is Failed),
    {
        match &self.outcomes[index] {
            RepoOutcome::Failed(_) => true,
            _ => false,
        }
    }

    /// The error recorded for the repository at `index`, if it failed.
    pub fn failure_of(&self, index: usize) -> (r: Option<FetchError>)
        requires
            index < self.outcomes@.len(),
        ensures
            match self.outcomes@[index as int] {
                RepoOutcome::Failed(e) => r == Some(e),
                _ => r is None,
            },
    {
        match &self.outcomes[index] {
            RepoOutcome::Failed(e) => Some(*e),
            _ => None,
        }
    }

    /// How many repositories the catalog ranked.
    pub fn repo_count(&self) -> (r: usize)
        ensures
            r == self.catalog@.len(),
    {
        self.catalog.len()
    }

    /// The stage the run is in.
    pub fn current_phase(&self) -> (r: Phase)
        ensures
            r == self.phase,
    {
        self.phase
    }

    /// Aggregates, filters, and reports. Every gathered repository's metric
    /// is computed; a list that yields no ratio is dropped, isolated like any
    /// other per-repository failure; pending and failed slots are skipped.
    /// The kept rows exceed the threshold and keep catalog order. The second
    /// sequence lists the aggregation failures with their catalog positions,
    /// for the caller's log: no error is dropped silently.
    pub fn finish(&mut self) -> (r: (Vec<AggregatedResult>, Vec<(usize, FetchError)>))
        requires
            old(self).wf(),
            old(self).phase == Phase::PerRepositoryFanOut,
        ensures
            final(self).wf(),
            final(self).phase == Phase::Done,
            views_of_results(r.0@) == report_spec(
                old(self).catalog@,
                old(self).outcomes@,
                old(self).threshold,
            ),
            r.1@ == dropped_upto(old(self).outcomes@, old(self).catalog@.len() as int),
    {
        let mut cat = self.catalog.split_off(0);
        let mut outs = self.outcomes.split_off(0);
        let threshold = self.threshold;
        let ghost gcat = cat@;
        let ghost gouts = outs@;
        proof {
            assert(gcat =~= old(self).catalog@);
            assert(gouts =~= old(self).outcomes@);
        }
        let total_repos = cat.len();
        let mut report: Vec<AggregatedResult> = Vec::new();
        let mut dropped: Vec<(usize, FetchError)> = Vec::new();
        let mut idx: usize = 0;
        proof {
            assert(views_of_results(report@) =~= report_upto(gcat, gouts, threshold, 0));
            assert(dropped@ =~= dropped_upto(gouts, 0));
        }
        while cat.len() > 0
            invariant
                old(self).wf(),
                threshold == old(self).threshold,
                self.threshold == old(self).threshold,
                self.catalog@.len() == 0,
                self.outcomes@.len() == 0,
                outs@.len() == cat@.len(),
                cat@.len() <= gcat.len(),
                gcat.len() == total_repos,
                gouts.len() == gcat.len(),
                idx == gcat.len() - cat@.len(),
                cat@ == gcat.subrange(idx as int, gcat.len() as int),
                outs@ == gouts.subrange(idx as int, gouts.len() as int),
                views_of_results(report@) == report_upto(gcat, gouts, threshold, idx as int),
                dropped@ == dropped_upto(gouts, idx as int),
            decreases cat@.len(),
        {
            proof {
                assert(cat@[0] == gcat[idx as int]);
                assert(outs@[0] == gouts[idx as int]);
            }
            let repo = cat.remove(0);
            let outcome = outs.remove(0);
            let ghost prev_report = report@;
            let ghost prev_dropped = dropped@;
            match outcome {
                RepoOutcome::Gathered(c) => {
                    let ghost gc = c@;
                    match BusFactorAggregator::aggregate(repo, c) {
                        Ok(a) => {
                            let keep = match &a.repo.bus_factor {
                                Some(b) => b.exceeds(&threshold),
                                None => {
                                    proof {
                                        assert(false);
                                    }
                                    false
                                },
                            };
                            proof {
                                assert(keep == row_kept(gc, threshold));
                            }
                            if keep {
                                proof {
                                    assert(a@ =~= row_of(gcat[idx as int], gc));
                                }
                                report.push(a);
                                proof {
                                    assert(views_of_results(report@) =~= views_of_results(
                                        prev_report,
                                    ).push(row_of(gcat[idx as int], gc)));
                                }
                            }
                        },
                        Err(e) => {
                            dropped.push((idx, e));
                            proof {
                                assert(e == aggregate_error_of(gc));
                                assert(!row_kept(gc, threshold));
                                assert(dropped@ =~= prev_dropped.push(
                                    ((idx as int) as usize, aggregate_error_of(gc)),
                                ));
                            }
                        },
                    }
                },
                RepoOutcome::Pending => {},
                RepoOutcome::Failed(_) => {},
            }
            idx += 1;
            proof {
                assert(cat@ =~= gcat.subrange(idx as int, gcat.len() as int));
                assert(outs@ =~= gouts.subrange(idx as int, gouts.len() as int));
                assert(views_of_results(report@) == report_upto(gcat, gouts, threshold, idx as int));
                assert(dropped@ == dropped_upto(gouts, idx as int));
            }
        }
        self.phase = Phase::Done;
        (report, dropped)
    }
}

} // verus!
