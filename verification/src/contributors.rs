use vstd::prelude::*;

use crate::decode::{contributor_page_model, decode_contributor_page, json_of};
use crate::errors::FetchError;
use crate::page_link::{clamp_to_usize, max_match, PageLinkParser};
use crate::page_set::{flat_prefix, PageSet};
use crate::paged_fetcher::{
    complete_pairing, first_failure_error, has_failure, ordered_bodies, views_of_strings,
    PageFetchOutcome, PagedFetcher,
};
use crate::records::{
    views_of_contributors, RepoContributorsInfo, RepoContributorsInfoView, SingleRepoInfo,
};

verus! {

/// Page size of the probe request, which only serves to read the pagination
/// metadata of the contributor listing.
pub const PROBE_PAGE_SIZE: usize = 25;

/// Page size of the production contributor page requests.
pub const CONTRIBUTOR_PAGE_SIZE: usize = 100;

/// One planned contributor page request against one repository.
pub struct ContributorPageRequest {
    pub owner: String,
    pub repo: String,
    pub page: usize,
    pub per_page: usize,
}

/// The list is ordered by contribution count descending.
pub open spec fn sorted_desc(s: Seq<RepoContributorsInfo>) -> bool {
    forall|i: int, j: int|
        0 <= i < j < s.len() ==> (#[trigger] s[i]).contributions >= (#[trigger] s[j]).contributions
}

/// In a list whose adjacent entries never ascend, no later entry exceeds an
/// earlier one.
proof fn lemma_desc_pair(s: Seq<RepoContributorsInfo>, i: int, j: int)
    requires
        forall|k: int|
            0 < k < s.len() ==> s[k - 1].contributions >= (#[trigger] s[k]).contributions,
        0 <= i <= j < s.len(),
    ensures
        s[i].contributions >= s[j].contributions,
    decreases j - i,
{
    if i < j {
        lemma_desc_pair(s, i, j - 1);
        assert(s[j - 1].contributions >= s[j].contributions);
    }
}

/// The view-level list is ordered by contribution count descending.
pub open spec fn sorted_desc_views(s: Seq<RepoContributorsInfoView>) -> bool {
    forall|i: int, j: int|
        0 <= i < j < s.len() ==> (#[trigger] s[i]).contributions >= (#[trigger] s[j]).contributions
}

/// A list is ordered descending exactly when its views are.
pub proof fn lemma_sorted_views(s: Seq<RepoContributorsInfo>)
    ensures
        sorted_desc(s) <==> sorted_desc_views(views_of_contributors(s)),
{
    let v = views_of_contributors(s);
    assert(forall|i: int| 0 <= i < s.len() ==> (#[trigger] v[i]) == s[i]@);
    if sorted_desc(s) {
        assert forall|i: int, j: int| 0 <= i < j < v.len() implies (#[trigger] v[i]).contributions
            >= (#[trigger] v[j]).contributions by {
            assert(s[i].contributions >= s[j].contributions);
        }
    }
    if sorted_desc_views(v) {
        assert forall|i: int, j: int| 0 <= i < j < s.len() implies (
        #[trigger] s[i]).contributions >= (#[trigger] s[j]).contributions by {
            assert(v[i].contributions >= v[j].contributions);
        }
    }
}

/// The decoded pages of a sequence of page bodies, all or nothing.
pub open spec fn decoded_pages_model(bodies: Seq<Seq<char>>) -> Option<
    Seq<Seq<RepoContributorsInfoView>>,
>
    decreases bodies.len(),
{
    if bodies.len() == 0 {
        Some(Seq::empty())
    } else {
        match decoded_pages_model(bodies.drop_last()) {
            Some(pre) => match contributor_page_model(json_of(bodies.last())) {
                Some(p) => Some(pre.push(p)),
                None => None,
            },
            None => None,
        }
    }
}

/// A batch with an undecodable prefix is undecodable whole.
proof fn lemma_decoded_pages_prefix(bodies: Seq<Seq<char>>, k: int)
    requires
        0 <= k <= bodies.len(),
        decoded_pages_model(bodies.take(k)) is None,
    ensures
        decoded_pages_model(bodies) is None,
    decreases bodies.len() - k,
{
    if k == bodies.len() {
        assert(bodies.take(k) =~= bodies);
    } else {
        assert(bodies.take(k + 1).drop_last() =~= bodies.take(k));
        lemma_decoded_pages_prefix(bodies, k + 1);
    }
}

/// Pages flattened in page order, at the view level.
pub open spec fn flatten_views(pages: Seq<Seq<RepoContributorsInfoView>>) -> Seq<
    RepoContributorsInfoView,
>
    decreases pages.len(),
{
    if pages.len() == 0 {
        Seq::empty()
    } else {
        flatten_views(pages.drop_last()) + pages.last()
    }
}

/// The views of a sequence of pages of contributor records.
pub open spec fn views_of_pages(s: Seq<Vec<RepoContributorsInfo>>) -> Seq<
    Seq<RepoContributorsInfoView>,
> {
    s.map_values(|p: Vec<RepoContributorsInfo>| views_of_contributors(p@))
}

/// Viewing a flattened prefix equals flattening the viewed pages.
proof fn lemma_views_of_flat(s: Seq<Vec<RepoContributorsInfo>>, i: int)
    requires
        0 <= i <= s.len(),
    ensures
        views_of_contributors(flat_prefix(s, i)) == flatten_views(views_of_pages(s).take(i)),
    decreases i,
{
    if i == 0 {
        assert(views_of_contributors(flat_prefix(s, 0)) =~= flatten_views(
            views_of_pages(s).take(0),
        ));
    } else {
        lemma_views_of_flat(s, i - 1);
        assert(views_of_pages(s).take(i).drop_last() =~= views_of_pages(s).take(i - 1));
        assert(views_of_pages(s).take(i).last() == views_of_contributors(s[i - 1]@));
        assert(views_of_contributors(flat_prefix(s, i)) =~= views_of_contributors(
            flat_prefix(s, i - 1),
        ) + views_of_contributors(s[i - 1]@));
    }
}

/// What a batch of page bodies gathers to: every page decoded, the pages
/// flattened in page order, and the whole accepted only in verified
/// descending order.
pub open spec fn gathered_model(bodies: Seq<Seq<char>>) -> Option<Seq<RepoContributorsInfoView>> {
    match decoded_pages_model(bodies) {
        Some(pages) => {
            let flat = flatten_views(pages);
            if sorted_desc_views(flat) {
                Some(flat)
            } else {
                None
            }
        },
        None => None,
    }
}

/// The page count that one probe outcome determines, and the error a failed
/// or malformed probe raises instead.
pub open spec fn probe_count_spec(o: PageFetchOutcome, r: Result<usize, FetchError>) -> bool {
    match o {
        PageFetchOutcome::TransportFailed => r == Err::<usize, FetchError>(FetchError::Transport),
        PageFetchOutcome::Delivered(resp) => {
            if !(200 <= resp.status && resp.status <= 299) {
                r == Err::<usize, FetchError>(FetchError::UpstreamStatus { code: resp.status })
            } else {
                match resp.pagination {
                    None => r == Ok::<usize, FetchError>(1),
                    Some(h) => match r {
                        Ok(v) => max_match(h@) >= 0 && v == clamp_to_usize(max_match(h@)),
                        Err(e) => {
                            &&& e == FetchError::MalformedPaginationMetadata
                            &&& max_match(h@) == -1
                        },
                    },
                }
            }
        },
    }
}

/// Gathers one repository's full contributor list: a probe request first
/// discovers how many pages the listing spans, then every page is fetched at
/// the production page size — a full re-fetch, since probe and production use
/// different page sizes — and merged in page order.
pub struct ContributorGatherer {}

impl ContributorGatherer {
    /// The probe request: page one of the listing, at the probe page size.
    pub fn probe_request(repo: &SingleRepoInfo) -> (r: ContributorPageRequest)
        ensures
            r.owner@ == repo.owner.login@,
            r.repo@ == repo.name@,
            r.page == 1,
            r.per_page == PROBE_PAGE_SIZE,
    {
        ContributorPageRequest {
            owner: repo.owner.login.clone(),
            repo: repo.name.clone(),
            page: 1,
            per_page: PROBE_PAGE_SIZE,
        }
    }

    /// Reads the contributor page count out of the probe outcome. A response
    /// without pagination metadata means the listing has exactly one page;
    /// otherwise the greatest page number the metadata references counts.
    /// An unreachable repository fails with the transport or status error;
    /// metadata without any readable page number is malformed.
    pub fn page_count_from_probe(probe: &PageFetchOutcome) -> (r: Result<usize, FetchError>)
        ensures
            probe_count_spec(*probe, r),
    {
        match probe {
            PageFetchOutcome::TransportFailed => Err(FetchError::Transport),
            PageFetchOutcome::Delivered(resp) => {
                if resp.status < 200 || resp.status > 299 {
                    Err(FetchError::UpstreamStatus { code: resp.status })
                } else {
                    match &resp.pagination {
                        None => Ok(1),
                        Some(h) => PageLinkParser::max_page(h.as_slice()),
                    }
                }
            },
        }
    }

    /// Plans the production requests: one per page, ascending from one.
    pub fn page_requests(repo: &SingleRepoInfo, page_count: usize) -> (r: Vec<
        ContributorPageRequest,
    >)
        ensures
            r@.len() == page_count,
            forall|i: int|
                0 <= i < r@.len() ==> {
                    &&& (#[trigger] r@[i]).page == i + 1
                    &&& r@[i].per_page == CONTRIBUTOR_PAGE_SIZE
                    &&& r@[i].owner@ == repo.owner.login@
                    &&& r@[i].repo@ == repo.name@
                },
    {
        let mut out: Vec<ContributorPageRequest> = Vec::new();
        let mut q: usize = 0;
        while q < page_count
            invariant
                q <= page_count,
                out@.len() == q,
                forall|i: int|
                    0 <= i < q ==> {
                        &&& (#[trigger] out@[i]).page == i + 1
                        &&& out@[i].per_page == CONTRIBUTOR_PAGE_SIZE
                        &&& out@[i].owner@ == repo.owner.login@
                        &&& out@[i].repo@ == repo.name@
                    },
            decreases page_count - q,
        {
            out.push(
                ContributorPageRequest {
                    owner: repo.owner.login.clone(),
                    repo: repo.name.clone(),
                    page: q + 1,
                    per_page: CONTRIBUTOR_PAGE_SIZE,
                },
            );
            q += 1;
        }
        out
    }

    /// Is the list ordered by contribution count descending?
    pub fn check_sorted_desc(c: &Vec<RepoContributorsInfo>) -> (r: bool)
        ensures
            r == sorted_desc(c@),
    {
        let mut i: usize = 1;
        while i < c.len()
            invariant
                i >= 1,
                forall|k: int|
                    0 < k < i && k < c@.len() ==> c@[k - 1].contributions >= (
                    #[trigger] c@[k]).contributions,
            decreases c@.len() - i,
        {
            if c[i - 1].contributions < c[i].contributions {
                assert(!sorted_desc(c@));
                return false;
            }
            i += 1;
        }
        proof {
            assert forall|a: int, b: int| 0 <= a < b < c@.len() implies (#[trigger] c@[a]).contributions
                >= (#[trigger] c@[b]).contributions by {
                lemma_desc_pair(c@, a, b);
            }
        }
        true
    }

    /// Decodes the fetched pages and merges them in page order into the full
    /// contributor list. Succeeds exactly when every body decodes and the
    /// merged list keeps the upstream's descending contribution order — the
    /// order is verified on ingest rather than trusted, and a violation fails
    /// the payload as unexpected — and then returns exactly the decoded,
    /// page-order-flattened records.
    pub fn contributors_from_bodies(bodies: Vec<String>) -> (r: Result<
        Vec<RepoContributorsInfo>,
        FetchError,
    >)
        ensures
            match r {
                Ok(c) => {
                    &&& sorted_desc(c@)
                    &&& gathered_model(views_of_strings(bodies@)) == Some(
                        views_of_contributors(c@),
                    )
                },
                Err(e) => {
                    &&& e == FetchError::ResponseParse
                    &&& gathered_model(views_of_strings(bodies@)) is None
                },
            },
    {
        let ghost vb = views_of_strings(bodies@);
        let mut pages: Vec<Vec<RepoContributorsInfo>> = Vec::new();
        let mut i: usize = 0;
        while i < bodies.len()
            invariant
                i <= bodies@.len(),
                vb == views_of_strings(bodies@),
                vb.len() == bodies@.len(),
                decoded_pages_model(vb.take(i as int)) == Some(views_of_pages(pages@)),
            decreases bodies@.len() - i,
        {
            proof {
                assert(vb.take(i as int + 1).drop_last() =~= vb.take(i as int));
                assert(vb.take(i as int + 1).last() == bodies@[i as int]@);
            }
            let ghost prev = pages@;
            match decode_contributor_page(bodies[i].as_str()) {
                Ok(p) => {
                    pages.push(p);
                    proof {
                        assert(views_of_pages(pages@) =~= views_of_pages(prev).push(
                            views_of_contributors(pages@.last()@),
                        ));
                    }
                },
                Err(e) => {
                    proof {
                        lemma_decoded_pages_prefix(vb, i as int + 1);
                    }
                    return Err(e);
                },
            }
            i += 1;
        }
        proof {
            assert(vb.take(vb.len() as int) =~= vb);
        }
        let ghost gpages = pages@;
        let merged = PageSet { pages }.flatten();
        proof {
            lemma_views_of_flat(gpages, gpages.len() as int);
            assert(views_of_pages(gpages).take(gpages.len() as int) =~= views_of_pages(gpages));
            lemma_sorted_views(merged@);
        }
        if Self::check_sorted_desc(&merged) {
            Ok(merged)
        } else {
            Err(FetchError::ResponseParse)
        }
    }

    /// One repository's whole gathering step after the fetches completed:
    /// orders the page outcomes, all-or-nothing, then decodes and merges them
    /// into the order-verified contributor list. Succeeds exactly when every
    /// request succeeded, every page decodes and the merge is descending, and
    /// then returns exactly the gathered records.
    pub fn contributors_from_responses(
        page_count: usize,
        results: Vec<(usize, PageFetchOutcome)>,
    ) -> (r: Result<Vec<RepoContributorsInfo>, FetchError>)
        requires
            complete_pairing(results@, page_count as int),
        ensures
            match r {
                Ok(c) => {
                    &&& !has_failure(results@)
                    &&& sorted_desc(c@)
                    &&& gathered_model(ordered_bodies(results@, page_count as int)) == Some(
                        views_of_contributors(c@),
                    )
                },
                Err(e) => {
                    &&& has_failure(results@) || gathered_model(
                        ordered_bodies(results@, page_count as int),
                    ) is None
                    &&& (has_failure(results@) ==> e == first_failure_error(results@))
                    &&& (!has_failure(results@) ==> e == FetchError::ResponseParse)
                },
            },
    {
        match PagedFetcher::assemble(page_count, results) {
            Ok(bodies) => Self::contributors_from_bodies(bodies),
            Err(e) => Err(e),
        }
    }
}

} // verus!
