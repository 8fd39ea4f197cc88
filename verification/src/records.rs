use vstd::prelude::*;

verus! {

/// The identifying handle of a repository owner.
#[derive(Debug)]
pub struct OwnerInfo {
    pub login: String,
}

/// Mathematical image of an [`OwnerInfo`].
#[verifier::ext_equal]
pub struct OwnerInfoView {
    pub login: Seq<char>,
}

impl View for OwnerInfo {
    type V = OwnerInfoView;

    open spec fn view(&self) -> OwnerInfoView {
        OwnerInfoView { login: self.login@ }
    }
}

impl Clone for OwnerInfo {
    fn clone(&self) -> (r: Self)
        ensures
            r@ == self@,
    {
        OwnerInfo { login: self.login.clone() }
    }
}

/// One contributor's handle and commit count for one repository.
#[derive(Debug)]
pub struct RepoContributorsInfo {
    pub login: String,
    pub contributions: u32,
}

/// Mathematical image of a [`RepoContributorsInfo`].
#[verifier::ext_equal]
pub struct RepoContributorsInfoView {
    pub login: Seq<char>,
    pub contributions: u32,
}

impl View for RepoContributorsInfo {
    type V = RepoContributorsInfoView;

    open spec fn view(&self) -> RepoContributorsInfoView {
        RepoContributorsInfoView { login: self.login@, contributions: self.contributions }
    }
}

impl Clone for RepoContributorsInfo {
    fn clone(&self) -> (r: Self)
        ensures
            r@ == self@,
    {
        RepoContributorsInfo { login: self.login.clone(), contributions: self.contributions }
    }
}

/// The share of a repository's recorded commits held by its dominant
/// contributor, kept as an exact rational number.
#[derive(Clone, Copy, Debug, PartialEq, Eq, Structural)]
pub struct BusFactor {
    /// Commits of the dominant contributor.
    pub dominant_commits: u64,
    /// Commits of all contributors together.
    pub total_commits: u64,
}

/// The dominance threshold above which a repository is reported, an exact
/// rational policy value supplied by the caller of a run.
#[derive(Clone, Copy, Debug, PartialEq, Eq, Structural)]
pub struct Threshold {
    pub num: u64,
    pub den: u64,
}

impl Threshold {
    /// A threshold is a well-formed rational when its denominator is positive.
    pub open spec fn wf(self) -> bool {
        self.den > 0
    }
}

impl BusFactor {
    /// The ratio exceeds the threshold: `dominant / total > num / den`,
    /// compared exactly by cross multiplication.
    pub open spec fn exceeds_spec(self, threshold: Threshold) -> bool {
        self.dominant_commits * threshold.den > threshold.num * self.total_commits
    }

    /// Exact comparison of the ratio against a threshold.
    pub fn exceeds(&self, threshold: &Threshold) -> (r: bool)
        ensures
            r == self.exceeds_spec(*threshold),
    {
        let d: u128 = self.dominant_commits as u128;
        let den: u128 = threshold.den as u128;
        let n: u128 = threshold.num as u128;
        let t: u128 = self.total_commits as u128;
        proof {
            assert(d * den <= u128::MAX && n * t <= u128::MAX) by (nonlinear_arith)
                requires
                    d < 0x10000000000000000,
                    den < 0x10000000000000000,
                    n < 0x10000000000000000,
                    t < 0x10000000000000000,
            ;
        }
        d * den > n * t
    }
}

/// One repository of the ranked catalog: its identity and popularity as the
/// catalog endpoint reports them, plus the two derived fields that aggregation
/// fills in once the contributor list is known.
#[derive(Debug)]
pub struct SingleRepoInfo {
    pub id: u64,
    pub name: String,
    pub full_name: String,
    pub stargazers_count: u64,
    pub commits_url: String,
    pub owner: OwnerInfo,
    pub size: u64,
    /// Sum of all contributors' commit counts; zero until aggregation ran.
    pub num_of_commits: u64,
    /// Dominant contributor's share; absent until aggregation ran.
    pub bus_factor: Option<BusFactor>,
}

/// Mathematical image of a [`SingleRepoInfo`].
#[verifier::ext_equal]
pub struct SingleRepoInfoView {
    pub id: u64,
    pub name: Seq<char>,
    pub full_name: Seq<char>,
    pub stargazers_count: u64,
    pub commits_url: Seq<char>,
    pub owner: OwnerInfoView,
    pub size: u64,
    pub num_of_commits: u64,
    pub bus_factor: Option<BusFactor>,
}

impl View for SingleRepoInfo {
    type V = SingleRepoInfoView;

    open spec fn view(&self) -> SingleRepoInfoView {
        SingleRepoInfoView {
            id: self.id,
            name: self.name@,
            full_name: self.full_name@,
            stargazers_count: self.stargazers_count,
            commits_url: self.commits_url@,
            owner: self.owner@,
            size: self.size,
            num_of_commits: self.num_of_commits,
            bus_factor: self.bus_factor,
        }
    }
}

impl Clone for SingleRepoInfo {
    fn clone(&self) -> (r: Self)
        ensures
            r@ == self@,
    {
        SingleRepoInfo {
            id: self.id,
            name: self.name.clone(),
            full_name: self.full_name.clone(),
            stargazers_count: self.stargazers_count,
            commits_url: self.commits_url.clone(),
            owner: self.owner.clone(),
            size: self.size,
            num_of_commits: self.num_of_commits,
            bus_factor: self.bus_factor,
        }
    }
}

/// One page of the repository catalog as the search endpoint reports it.
#[derive(Debug)]
pub struct RepositoriesInfo {
    pub items: Vec<SingleRepoInfo>,
    pub total_count: u64,
    pub incomplete_results: bool,
}

/// Mathematical image of a [`RepositoriesInfo`].
#[verifier::ext_equal]
pub struct RepositoriesInfoView {
    pub items: Seq<SingleRepoInfoView>,
    pub total_count: u64,
    pub incomplete_results: bool,
}

impl View for RepositoriesInfo {
    type V = RepositoriesInfoView;

    open spec fn view(&self) -> RepositoriesInfoView {
        RepositoriesInfoView {
            items: self.items@.map_values(|r: SingleRepoInfo| r@),
            total_count: self.total_count,
            incomplete_results: self.incomplete_results,
        }
    }
}

/// The views of a sequence of contributor records.
pub open spec fn views_of_contributors(s: Seq<RepoContributorsInfo>) -> Seq<
    RepoContributorsInfoView,
> {
    s.map_values(|c: RepoContributorsInfo| c@)
}

/// The views of a sequence of repository records.
pub open spec fn views_of_repos(s: Seq<SingleRepoInfo>) -> Seq<SingleRepoInfoView> {
    s.map_values(|r: SingleRepoInfo| r@)
}

/// The views of a sequence of catalog pages.
pub open spec fn views_of_catalog_pages(s: Seq<RepositoriesInfo>) -> Seq<RepositoriesInfoView> {
    s.map_values(|p: RepositoriesInfo| p@)
}

/// A repository whose derived fields are populated, paired with the full
/// contributor list that produced them. Created once per repository after
/// contributor gathering; immutable thereafter; kept or dropped whole by the
/// threshold filter.
#[derive(Debug)]
pub struct AggregatedResult {
    pub repo: SingleRepoInfo,
    pub contributors: Vec<RepoContributorsInfo>,
}

/// Mathematical image of an [`AggregatedResult`].
#[verifier::ext_equal]
pub struct AggregatedResultView {
    pub repo: SingleRepoInfoView,
    pub contributors: Seq<RepoContributorsInfoView>,
}

impl View for AggregatedResult {
    type V = AggregatedResultView;

    open spec fn view(&self) -> AggregatedResultView {
        AggregatedResultView {
            repo: self.repo@,
            contributors: self.contributors@.map_values(|c: RepoContributorsInfo| c@),
        }
    }
}

} // verus!
