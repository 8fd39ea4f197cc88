use vstd::prelude::*;

use crate::errors::FetchError;

verus! {

/// One page answer as the transport hands it back: the HTTP status, the body
/// text, and the pagination metadata header when the response carried one.
#[derive(Debug)]
pub struct PageResponse {
    pub status: u16,
    pub body: String,
    pub pagination: Option<Vec<u8>>,
}

/// The outcome of one page request at the transport level.
#[derive(Debug)]
pub enum PageFetchOutcome {
    /// A response arrived, with whatever status the upstream chose.
    Delivered(PageResponse),
    /// The request could not be completed at all.
    TransportFailed,
}

/// A delivered response with a success status.
pub open spec fn outcome_ok(o: PageFetchOutcome) -> bool {
    match o {
        PageFetchOutcome::Delivered(resp) => 200 <= resp.status && resp.status <= 299,
        PageFetchOutcome::TransportFailed => false,
    }
}

/// The error that a failed outcome signals.
pub open spec fn outcome_error(o: PageFetchOutcome) -> FetchError {
    match o {
        PageFetchOutcome::Delivered(resp) => FetchError::UpstreamStatus { code: resp.status },
        PageFetchOutcome::TransportFailed => FetchError::Transport,
    }
}

/// The body text of a delivered outcome.
pub open spec fn outcome_body(o: PageFetchOutcome) -> Seq<char> {
    match o {
        PageFetchOutcome::Delivered(resp) => resp.body@,
        PageFetchOutcome::TransportFailed => Seq::empty(),
    }
}

/// Some request of the batch failed, at the transport or at the status level.
pub open spec fn has_failure(s: Seq<(usize, PageFetchOutcome)>) -> bool {
    exists|j: int| 0 <= j < s.len() && !outcome_ok((#[trigger] s[j]).1)
}

/// The error of the first failed outcome in the batch.
pub open spec fn first_failure_error(s: Seq<(usize, PageFetchOutcome)>) -> FetchError
    decreases s.len(),
{
    if s.len() == 0 {
        FetchError::Transport
    } else if !outcome_ok(s[0].1) {
        outcome_error(s[0].1)
    } else {
        first_failure_error(s.drop_first())
    }
}

/// Page number `p` is paired with some outcome of the batch.
pub open spec fn page_present(s: Seq<(usize, PageFetchOutcome)>, p: int) -> bool {
    exists|j: int| 0 <= j < s.len() && (#[trigger] s[j]).0 as int == p
}

/// The batch holds exactly one outcome per requested page and pairs every
/// page number `1..=n` with one of them, in whatever order the requests
/// happened to complete.
pub open spec fn complete_pairing(s: Seq<(usize, PageFetchOutcome)>, n: int) -> bool {
    &&& s.len() == n
    &&& forall|p: int| 1 <= p <= n ==> #[trigger] page_present(s, p)
}

/// Page `p`'s request succeeded and its response body reads `body`.
pub open spec fn delivered_body(
    s: Seq<(usize, PageFetchOutcome)>,
    p: int,
    body: Seq<char>,
) -> bool {
    exists|j: int|
        {
            &&& 0 <= j < s.len()
            &&& (#[trigger] s[j]).0 as int == p
            &&& outcome_ok(s[j].1)
            &&& outcome_body(s[j].1) == body
        }
}

/// Index of the first outcome of the batch paired with page `p`, or the
/// batch's length when none is.
pub open spec fn first_index_of(s: Seq<(usize, PageFetchOutcome)>, p: int) -> int
    decreases s.len(),
{
    if s.len() == 0 {
        0
    } else if s[0].0 as int == p {
        0
    } else {
        1 + first_index_of(s.drop_first(), p)
    }
}

/// The body of page `p`'s first outcome in the batch.
pub open spec fn body_for(s: Seq<(usize, PageFetchOutcome)>, p: int) -> Seq<char> {
    outcome_body(s[first_index_of(s, p)].1)
}

/// The page payloads of the batch, ordered by page number `1..=n`.
pub open spec fn ordered_bodies(s: Seq<(usize, PageFetchOutcome)>, n: int) -> Seq<Seq<char>> {
    Seq::new(n as nat, |i: int| body_for(s, i + 1))
}

/// The views of a sequence of page bodies.
pub open spec fn views_of_strings(s: Seq<String>) -> Seq<Seq<char>> {
    s.map_values(|b: String| b@)
}

/// When nothing before `j` is paired with page `p` and `j` is, the batch's
/// first outcome for `p` is the one at `j`.
proof fn lemma_first_index_at(s: Seq<(usize, PageFetchOutcome)>, p: int, j: int)
    requires
        0 <= j < s.len(),
        s[j].0 as int == p,
        forall|k: int| 0 <= k < j ==> (#[trigger] s[k]).0 as int != p,
    ensures
        first_index_of(s, p) == j,
    decreases j,
{
    if j > 0 {
        assert(s[0].0 as int != p);
        assert(s.drop_first()[j - 1] == s[j]);
        assert(forall|k: int| 0 <= k < j - 1 ==> (#[trigger] s.drop_first()[k]) == s[k + 1]);
        lemma_first_index_at(s.drop_first(), p, j - 1);
    }
}

/// When everything before `i` succeeded and `i` failed, the batch's first
/// failure is the one at `i`.
proof fn lemma_first_failure_at(s: Seq<(usize, PageFetchOutcome)>, i: int)
    requires
        0 <= i < s.len(),
        !outcome_ok(s[i].1),
        forall|k: int| 0 <= k < i ==> outcome_ok((#[trigger] s[k]).1),
    ensures
        first_failure_error(s) == outcome_error(s[i].1),
    decreases i,
{
    if i > 0 {
        assert(outcome_ok(s[0].1));
        assert(s.drop_first()[i - 1] == s[i]);
        assert(forall|k: int|
            0 <= k < i - 1 ==> (#[trigger] s.drop_first()[k]) == s[k + 1]);
        lemma_first_failure_at(s.drop_first(), i - 1);
    }
}

/// The engine that turns one batch of concurrently completed page requests
/// into the ordered sequence of page payloads.
pub struct PagedFetcher {}

impl PagedFetcher {
    /// Merges a batch of per-page outcomes into the page payloads ordered by
    /// page number `1..=page_count`, ascending.
    ///
    /// The merge is all-or-nothing: the first failed request, in the order the
    /// batch lists the completions, aborts the whole page set, since a partial
    /// page set is no valid basis for the truncation and merge decisions that
    /// follow. On success the payloads are ordered by page number alone,
    /// regardless of the order in which the requests completed.
    pub fn assemble(page_count: usize, results: Vec<(usize, PageFetchOutcome)>) -> (r: Result<
        Vec<String>,
        FetchError,
    >)
        requires
            complete_pairing(results@, page_count as int),
        ensures
            match r {
                Ok(bodies) => {
                    &&& !has_failure(results@)
                    &&& bodies@.len() == page_count
                    &&& views_of_strings(bodies@) == ordered_bodies(results@, page_count as int)
                    &&& forall|i: int|
                        0 <= i < page_count ==> delivered_body(
                            results@,
                            i + 1,
                            (#[trigger] bodies@[i])@,
                        )
                },
                Err(e) => has_failure(results@) && e == first_failure_error(results@),
            },
    {
        let m = results.len();
        let mut j: usize = 0;
        while j < m
            invariant
                m == results@.len(),
                j <= m,
                forall|k: int| 0 <= k < j ==> outcome_ok((#[trigger] results@[k]).1),
            decreases m - j,
        {
            match &results[j].1 {
                PageFetchOutcome::TransportFailed => {
                    proof {
                        lemma_first_failure_at(results@, j as int);
                    }
                    return Err(FetchError::Transport);
                },
                PageFetchOutcome::Delivered(resp) => {
                    if resp.status < 200 || resp.status > 299 {
                        proof {
                            lemma_first_failure_at(results@, j as int);
                        }
                        return Err(FetchError::UpstreamStatus { code: resp.status });
                    }
                },
            }
            j += 1;
        }
        let mut bodies: Vec<String> = Vec::new();
        let mut q: usize = 0;
        while q < page_count
            invariant
                m == results@.len(),
                complete_pairing(results@, page_count as int),
                forall|k: int| 0 <= k < m ==> outcome_ok((#[trigger] results@[k]).1),
                q <= page_count,
                bodies@.len() == q,
                forall|i: int|
                    0 <= i < q ==> delivered_body(results@, i + 1, (#[trigger] bodies@[i])@),
                forall|i: int| 0 <= i < q ==> (#[trigger] bodies@[i])@ == body_for(results@, i + 1),
            decreases page_count - q,
        {
            let p = q + 1;
            let mut t: usize = 0;
            let mut at: usize = m;
            while t < m
                invariant
                    m == results@.len(),
                    t <= m,
                    at <= m,
                    at == m ==> forall|k: int|
                        0 <= k < t ==> (#[trigger] results@[k]).0 as int != p as int,
                    at < m ==> results@[at as int].0 as int == p as int && forall|k: int|
                        0 <= k < at ==> (#[trigger] results@[k]).0 as int != p as int,
                decreases m - t,
            {
                if at == m && results[t].0 == p {
                    at = t;
                }
                t += 1;
            }
            if at == m {
                proof {
                    assert(page_present(results@, p as int));
                    assert(false);
                }
                return Err(FetchError::Transport);
            }
            proof {
                lemma_first_index_at(results@, p as int, at as int);
            }
            match &results[at].1 {
                PageFetchOutcome::Delivered(resp) => {
                    bodies.push(resp.body.clone());
                },
                PageFetchOutcome::TransportFailed => {
                    proof {
                        assert(outcome_ok(results@[at as int].1));
                        assert(false);
                    }
                    return Err(FetchError::Transport);
                },
            }
            assert(delivered_body(results@, p as int, bodies@[q as int]@));
            assert(bodies@[q as int]@ == body_for(results@, p as int));
            q += 1;
        }
        proof {
            assert(views_of_strings(bodies@) =~= ordered_bodies(results@, page_count as int));
        }
        Ok(bodies)
    }
}

} // verus!
