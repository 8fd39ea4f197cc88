use vstd::prelude::*;

use crate::contributors::sorted_desc;
use crate::errors::FetchError;
use crate::records::{AggregatedResult, BusFactor, RepoContributorsInfo, SingleRepoInfo};

verus! {

/// Sum of all contributors' commit counts, zero for the empty list.
pub open spec fn total_of(s: Seq<RepoContributorsInfo>) -> int
    decreases s.len(),
{
    if s.len() == 0 {
        0
    } else {
        total_of(s.drop_last()) + s.last().contributions
    }
}

/// Commit counts never sum to less than zero.
pub proof fn lemma_total_nonneg(s: Seq<RepoContributorsInfo>)
    ensures
        total_of(s) >= 0,
    decreases s.len(),
{
    if s.len() > 0 {
        lemma_total_nonneg(s.drop_last());
    }
}

/// A prefix never sums to more than the whole list.
pub proof fn lemma_total_prefix_le(s: Seq<RepoContributorsInfo>, k: int)
    requires
        0 <= k <= s.len(),
    ensures
        total_of(s.take(k)) <= total_of(s),
    decreases s.len() - k,
{
    if k == s.len() {
        assert(s.take(k) =~= s);
    } else {
        lemma_total_prefix_le(s, k + 1);
        assert(s.take(k + 1).drop_last() =~= s.take(k));
        assert(s.take(k + 1).last() == s[k]);
    }
}

/// Folds one repository's contributor list into its bus-factor metric.
pub struct BusFactorAggregator {}

impl BusFactorAggregator {
    /// Sums the commit counts, checked: `None` when the sum exceeds the word
    /// the metric is kept in.
    fn total_commits(contributors: &Vec<RepoContributorsInfo>) -> (r: Option<u64>)
        ensures
            match r {
                Some(t) => t == total_of(contributors@) && total_of(contributors@) <= u64::MAX,
                None => total_of(contributors@) > u64::MAX,
            },
    {
        let mut acc: u64 = 0;
        let mut i: usize = 0;
        while i < contributors.len()
            invariant
                i <= contributors@.len(),
                acc == total_of(contributors@.take(i as int)),
            decreases contributors@.len() - i,
        {
            proof {
                assert(contributors@.take(i as int + 1).drop_last() =~= contributors@.take(
                    i as int,
                ));
                assert(contributors@.take(i as int + 1).last() == contributors@[i as int]);
            }
            let c = contributors[i].contributions as u64;
            match acc.checked_add(c) {
                Some(x) => {
                    acc = x;
                },
                None => {
                    proof {
                        lemma_total_prefix_le(contributors@, i as int + 1);
                    }
                    return None;
                },
            }
            i += 1;
        }
        proof {
            assert(contributors@.take(contributors@.len() as int) =~= contributors@);
        }
        Some(acc)
    }

    /// Combines a repository with its contributor list: the total commit
    /// count, the dominant contributor — the first entry, whose lead the
    /// gatherer verified on ingest — and the exact bus-factor ratio, written
    /// into an owned copy of the repository record.
    ///
    /// A list without any recorded commit gives no ratio and fails with
    /// `InsufficientData` — explicitly, never by dividing by zero. A commit
    /// total beyond the metric's 64-bit word fails the payload as unexpected.
    pub fn aggregate(repo: SingleRepoInfo, contributors: Vec<RepoContributorsInfo>) -> (r: Result<
        AggregatedResult,
        FetchError,
    >)
        ensures
            match r {
                Ok(a) => {
                    &&& 0 < total_of(contributors@) <= u64::MAX
                    &&& contributors@.len() > 0
                    &&& a.repo == (SingleRepoInfo {
                        num_of_commits: total_of(contributors@) as u64,
                        bus_factor: Some(
                            BusFactor {
                                dominant_commits: contributors@[0].contributions as u64,
                                total_commits: total_of(contributors@) as u64,
                            },
                        ),
                        ..repo
                    })
                    &&& a.contributors == contributors
                },
                Err(e) => {
                    &&& (total_of(contributors@) == 0 || total_of(contributors@) > u64::MAX)
                    &&& (e == FetchError::InsufficientData <==> total_of(contributors@) == 0)
                    &&& (e == FetchError::ResponseParse <==> total_of(contributors@) > u64::MAX)
                },
            },
    {
        let total = match Self::total_commits(&contributors) {
            Some(t) => t,
            None => {
                return Err(FetchError::ResponseParse);
            },
        };
        if total == 0 {
            return Err(FetchError::InsufficientData);
        }
        proof {
            if contributors@.len() == 0 {
                assert(total_of(contributors@) == 0);
            }
        }
        let dominant = contributors[0].contributions as u64;
        let mut result_repo = repo;
        result_repo.num_of_commits = total;
        result_repo.bus_factor = Some(
            BusFactor { dominant_commits: dominant, total_commits: total },
        );
        Ok(AggregatedResult { repo: result_repo, contributors })
    }

    /// With the descending order verified on ingest, the first contributor is
    /// the dominant one: no entry of the list holds more commits.
    pub proof fn lemma_dominant_is_max(s: Seq<RepoContributorsInfo>)
        requires
            sorted_desc(s),
            s.len() > 0,
        ensures
            forall|k: int|
                0 <= k < s.len() ==> (#[trigger] s[k]).contributions <= s[0].contributions,
    {
        assert forall|k: int|
            0 <= k < s.len() implies (#[trigger] s[k]).contributions <= s[0].contributions by {
            if k > 0 {
                assert(s[0].contributions >= s[k].contributions);
            }
        }
    }
}

} // verus!
