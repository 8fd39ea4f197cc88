use bus_factor::aggregate::BusFactorAggregator;
use bus_factor::errors::FetchError;
use bus_factor::records::{
    BusFactor, OwnerInfo, RepoContributorsInfo, SingleRepoInfo, Threshold,
};

fn repo() -> SingleRepoInfo {
    SingleRepoInfo {
        id: 11,
        name: "tool".to_string(),
        full_name: "ada/tool".to_string(),
        stargazers_count: 420,
        commits_url: "https://host/ada/tool/commits".to_string(),
        owner: OwnerInfo { login: "ada".to_string() },
        size: 33,
        num_of_commits: 0,
        bus_factor: None,
    }
}

fn contributor(login: &str, contributions: u32) -> RepoContributorsInfo {
    RepoContributorsInfo { login: login.to_string(), contributions }
}

#[test]
fn aggregate_computes_total_dominant_and_ratio() {
    let contributors = vec![contributor("A", 90), contributor("B", 10)];
    let result = BusFactorAggregator::aggregate(repo(), contributors).unwrap();
    assert_eq!(result.repo.num_of_commits, 100);
    assert_eq!(
        result.repo.bus_factor,
        Some(BusFactor { dominant_commits: 90, total_commits: 100 })
    );
    assert_eq!(result.contributors[0].login, "A");
    assert_eq!(result.repo.full_name, "ada/tool");
    assert_eq!(result.repo.id, 11);
}

#[test]
fn aggregate_fails_on_an_empty_contributor_list() {
    let result = BusFactorAggregator::aggregate(repo(), Vec::new());
    assert_eq!(result.unwrap_err(), FetchError::InsufficientData);
}

#[test]
fn aggregate_fails_without_any_recorded_commit() {
    let contributors = vec![contributor("A", 0), contributor("B", 0)];
    let result = BusFactorAggregator::aggregate(repo(), contributors);
    assert_eq!(result.unwrap_err(), FetchError::InsufficientData);
}

#[test]
fn aggregate_of_a_single_contributor_yields_a_full_ratio() {
    let contributors = vec![contributor("solo", 42)];
    let result = BusFactorAggregator::aggregate(repo(), contributors).unwrap();
    assert_eq!(
        result.repo.bus_factor,
        Some(BusFactor { dominant_commits: 42, total_commits: 42 })
    );
}

#[test]
fn ratio_above_the_threshold_exceeds_it() {
    let ratio = BusFactor { dominant_commits: 90, total_commits: 100 };
    assert!(ratio.exceeds(&Threshold { num: 3, den: 4 }));
}

#[test]
fn ratio_below_the_threshold_does_not_exceed_it() {
    let ratio = BusFactor { dominant_commits: 50, total_commits: 100 };
    assert!(!ratio.exceeds(&Threshold { num: 3, den: 4 }));
}

#[test]
fn ratio_equal_to_the_threshold_does_not_exceed_it() {
    let ratio = BusFactor { dominant_commits: 75, total_commits: 100 };
    assert!(!ratio.exceeds(&Threshold { num: 75, den: 100 }));
}

#[test]
fn a_zero_threshold_is_exceeded_by_any_positive_ratio() {
    let ratio = BusFactor { dominant_commits: 1, total_commits: 1000 };
    assert!(ratio.exceeds(&Threshold { num: 0, den: 1 }));
}

#[test]
fn error_descriptions_are_not_empty() {
    let errors = [
        FetchError::Transport,
        FetchError::UpstreamStatus { code: 500 },
        FetchError::ResponseParse,
        FetchError::MalformedPaginationMetadata,
        FetchError::InsufficientData,
    ];
    for e in errors {
        assert!(!e.describe().is_empty());
    }
}
