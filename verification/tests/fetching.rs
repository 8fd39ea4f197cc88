use bus_factor::catalog::{RepositoryCatalogGatherer, CATALOG_PAGE_SIZE};
use bus_factor::contributors::{ContributorGatherer, CONTRIBUTOR_PAGE_SIZE, PROBE_PAGE_SIZE};
use bus_factor::errors::FetchError;
use bus_factor::paged_fetcher::{PageFetchOutcome, PagedFetcher, PageResponse};
use bus_factor::records::{OwnerInfo, RepositoriesInfo, SingleRepoInfo};

fn delivered(status: u16, body: &str) -> PageFetchOutcome {
    PageFetchOutcome::Delivered(PageResponse {
        status,
        body: body.to_string(),
        pagination: None,
    })
}

fn probe(status: u16, pagination: Option<&[u8]>) -> PageFetchOutcome {
    PageFetchOutcome::Delivered(PageResponse {
        status,
        body: String::new(),
        pagination: pagination.map(|h| h.to_vec()),
    })
}

fn repo(id: u64) -> SingleRepoInfo {
    SingleRepoInfo {
        id,
        name: format!("repo{}", id),
        full_name: format!("owner{}/repo{}", id, id),
        stargazers_count: 1000 - id,
        commits_url: format!("https://host/owner{}/repo{}/commits", id, id),
        owner: OwnerInfo { login: format!("owner{}", id) },
        size: 10,
        num_of_commits: 0,
        bus_factor: None,
    }
}

fn page_of(ids: std::ops::Range<u64>) -> RepositoriesInfo {
    let items: Vec<SingleRepoInfo> = ids.map(repo).collect();
    RepositoriesInfo { items, total_count: 12345, incomplete_results: false }
}

#[test]
fn assemble_orders_pages_by_number_not_by_completion() {
    let results = vec![
        (3, delivered(200, "third")),
        (1, delivered(200, "first")),
        (2, delivered(200, "second")),
    ];
    let bodies = PagedFetcher::assemble(3, results).unwrap();
    assert_eq!(bodies, vec!["first", "second", "third"]);
}

#[test]
fn assemble_returns_one_payload_per_page() {
    let results = vec![(2, delivered(200, "b")), (1, delivered(200, "a"))];
    let bodies = PagedFetcher::assemble(2, results).unwrap();
    assert_eq!(bodies.len(), 2);
}

#[test]
fn assemble_aborts_the_whole_set_on_a_transport_failure() {
    let results = vec![
        (1, delivered(200, "a")),
        (2, PageFetchOutcome::TransportFailed),
        (3, delivered(200, "c")),
    ];
    assert_eq!(
        PagedFetcher::assemble(3, results).unwrap_err(),
        FetchError::Transport
    );
}

#[test]
fn assemble_aborts_the_whole_set_on_a_bad_status() {
    let results = vec![(2, delivered(200, "b")), (1, delivered(503, "oops"))];
    assert_eq!(
        PagedFetcher::assemble(2, results).unwrap_err(),
        FetchError::UpstreamStatus { code: 503 }
    );
}

#[test]
fn assemble_reports_the_first_listed_failure() {
    let results = vec![
        (2, delivered(500, "bad")),
        (1, PageFetchOutcome::TransportFailed),
    ];
    assert_eq!(
        PagedFetcher::assemble(2, results).unwrap_err(),
        FetchError::UpstreamStatus { code: 500 }
    );
}

#[test]
fn catalog_plan_for_250_issues_three_page_requests() {
    let gatherer = RepositoryCatalogGatherer { language: "rust".to_string(), desired_count: 250 };
    let requests = gatherer.plan_requests();
    assert_eq!(requests.len(), 3);
    for (i, request) in requests.iter().enumerate() {
        assert_eq!(request.page, i + 1);
        assert_eq!(request.per_page, CATALOG_PAGE_SIZE);
        assert_eq!(request.language, "rust");
    }
}

#[test]
fn a_zero_desired_count_plans_no_requests() {
    let gatherer = RepositoryCatalogGatherer { language: "rust".to_string(), desired_count: 0 };
    assert!(gatherer.plan_requests().is_empty());
    let catalog = RepositoryCatalogGatherer::assemble_catalog(0, Vec::new());
    assert!(catalog.is_empty());
}

#[test]
fn catalog_of_250_holds_exactly_250_items() {
    let pages = vec![page_of(0..100), page_of(100..200), page_of(200..300)];
    let catalog = RepositoryCatalogGatherer::assemble_catalog(250, pages);
    assert_eq!(catalog.len(), 250);
    assert_eq!(catalog[0].id, 0);
    assert_eq!(catalog[249].id, 249);
}

#[test]
fn catalog_of_an_exact_multiple_is_not_truncated_to_zero() {
    let gatherer = RepositoryCatalogGatherer { language: "rust".to_string(), desired_count: 200 };
    let requests = gatherer.plan_requests();
    let pages: Vec<RepositoriesInfo> = requests
        .iter()
        .map(|r| page_of((r.page as u64 - 1) * 100..(r.page as u64) * 100))
        .collect();
    let catalog = RepositoryCatalogGatherer::assemble_catalog(200, pages);
    assert_eq!(catalog.len(), 200);
    assert_eq!(catalog[199].id, 199);
}

#[test]
fn catalog_keeps_the_source_ranking_order() {
    let pages = vec![page_of(0..100), page_of(100..200)];
    let catalog = RepositoryCatalogGatherer::assemble_catalog(150, pages);
    for (i, entry) in catalog.iter().enumerate() {
        assert_eq!(entry.id, i as u64);
    }
}

#[test]
fn catalog_of_a_single_short_page_truncates_to_the_desired_count() {
    let pages = vec![page_of(0..100)];
    let catalog = RepositoryCatalogGatherer::assemble_catalog(50, pages);
    assert_eq!(catalog.len(), 50);
}

#[test]
fn probe_request_asks_for_page_one_at_the_probe_size() {
    let request = ContributorGatherer::probe_request(&repo(4));
    assert_eq!(request.owner, "owner4");
    assert_eq!(request.repo, "repo4");
    assert_eq!(request.page, 1);
    assert_eq!(request.per_page, PROBE_PAGE_SIZE);
}

#[test]
fn page_count_is_one_without_pagination_metadata() {
    assert_eq!(
        ContributorGatherer::page_count_from_probe(&probe(200, None)),
        Ok(1)
    );
}

#[test]
fn page_count_reads_the_greatest_page_from_the_metadata() {
    let header: &[u8] = b"<https://host/c?page=2>; rel=\"next\", <https://host/c?page=5>; rel=\"last\"";
    assert_eq!(
        ContributorGatherer::page_count_from_probe(&probe(200, Some(header))),
        Ok(5)
    );
}

#[test]
fn page_count_fails_for_an_inaccessible_repository() {
    assert_eq!(
        ContributorGatherer::page_count_from_probe(&probe(404, None)),
        Err(FetchError::UpstreamStatus { code: 404 })
    );
}

#[test]
fn page_count_fails_on_a_failed_probe() {
    assert_eq!(
        ContributorGatherer::page_count_from_probe(&PageFetchOutcome::TransportFailed),
        Err(FetchError::Transport)
    );
}

#[test]
fn page_count_fails_on_unreadable_metadata() {
    assert_eq!(
        ContributorGatherer::page_count_from_probe(&probe(200, Some(b"rel=\"last\""))),
        Err(FetchError::MalformedPaginationMetadata)
    );
}

#[test]
fn contributor_pages_merge_in_page_order() {
    let request_count = ContributorGatherer::page_requests(&repo(1), 2);
    assert_eq!(request_count.len(), 2);
    assert_eq!(request_count[0].page, 1);
    assert_eq!(request_count[1].page, 2);
    assert_eq!(request_count[0].per_page, CONTRIBUTOR_PAGE_SIZE);
    let results = vec![
        (2, delivered(200, r#"[{"login":"c","contributions":5}]"#)),
        (1, delivered(200, r#"[{"login":"a","contributions":9},{"login":"b","contributions":7}]"#)),
    ];
    let contributors = ContributorGatherer::contributors_from_responses(2, results).unwrap();
    let logins: Vec<&str> = contributors.iter().map(|c| c.login.as_str()).collect();
    assert_eq!(logins, vec!["a", "b", "c"]);
}

#[test]
fn contributors_out_of_descending_order_fail_the_payload() {
    let results = vec![
        (1, delivered(200, r#"[{"login":"a","contributions":1}]"#)),
        (2, delivered(200, r#"[{"login":"b","contributions":9}]"#)),
    ];
    assert_eq!(
        ContributorGatherer::contributors_from_responses(2, results).unwrap_err(),
        FetchError::ResponseParse
    );
}

#[test]
fn an_empty_contributor_listing_is_a_valid_result() {
    let results = vec![(1, delivered(200, "[]"))];
    let contributors = ContributorGatherer::contributors_from_responses(1, results).unwrap();
    assert!(contributors.is_empty());
}
