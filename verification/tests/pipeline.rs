use bus_factor::errors::FetchError;
use bus_factor::orchestrator::{Orchestrator, Phase};
use bus_factor::paged_fetcher::{PageFetchOutcome, PageResponse};
use bus_factor::records::Threshold;

fn delivered(status: u16, body: &str) -> PageFetchOutcome {
    PageFetchOutcome::Delivered(PageResponse {
        status,
        body: body.to_string(),
        pagination: None,
    })
}

fn repo_json(id: u64, owner: &str, name: &str, stars: u64) -> String {
    format!(
        r#"{{"id":{id},"name":"{name}","full_name":"{owner}/{name}","stargazers_count":{stars},"commits_url":"https://host/{owner}/{name}/commits","owner":{{"login":"{owner}"}},"size":5}}"#
    )
}

fn catalog_body(repos: &[String]) -> String {
    format!(
        r#"{{"total_count":{},"incomplete_results":false,"items":[{}]}}"#,
        repos.len(),
        repos.join(",")
    )
}

fn three_repo_catalog() -> String {
    catalog_body(&[
        repo_json(1, "o1", "r1", 300),
        repo_json(2, "o2", "r2", 200),
        repo_json(3, "o3", "r3", 100),
    ])
}

fn contributors_body(entries: &[(&str, u32)]) -> String {
    let parts: Vec<String> = entries
        .iter()
        .map(|(login, n)| format!(r#"{{"login":"{login}","contributions":{n}}}"#))
        .collect();
    format!("[{}]", parts.join(","))
}

#[test]
fn a_failed_repository_is_dropped_and_its_siblings_are_reported() {
    let mut orch = Orchestrator::new("rust".to_string(), 3, Threshold { num: 3, den: 4 });
    assert_eq!(orch.current_phase(), Phase::Idle);

    let requests = orch.start();
    assert_eq!(requests.len(), 1);
    assert_eq!(orch.current_phase(), Phase::CatalogFetching);

    let count = orch
        .ingest_catalog(vec![(1, delivered(200, &three_repo_catalog()))])
        .unwrap();
    assert_eq!(count, 3);
    assert_eq!(orch.current_phase(), Phase::PerRepositoryFanOut);

    let first = contributors_body(&[("ada", 90), ("beth", 10)]);
    orch.ingest_contributors(0, 1, vec![(1, delivered(200, &first))])
        .unwrap();

    let failure = orch
        .ingest_contributors(1, 1, vec![(1, PageFetchOutcome::TransportFailed)])
        .unwrap_err();
    assert_eq!(failure, FetchError::Transport);
    assert!(orch.is_failed(1));
    assert_eq!(orch.failure_of(1), Some(FetchError::Transport));

    let third = contributors_body(&[("cory", 76), ("dina", 24)]);
    orch.ingest_contributors(2, 1, vec![(1, delivered(200, &third))])
        .unwrap();

    let (report, dropped) = orch.finish();
    assert_eq!(orch.current_phase(), Phase::Done);
    assert!(dropped.is_empty());
    assert_eq!(report.len(), 2);
    assert_eq!(report[0].repo.full_name, "o1/r1");
    assert_eq!(report[0].contributors[0].login, "ada");
    assert_eq!(report[1].repo.full_name, "o3/r3");
    assert_eq!(report[1].contributors[0].login, "cory");
}

#[test]
fn the_report_keeps_exactly_the_ratios_above_the_threshold() {
    let mut orch = Orchestrator::new("rust".to_string(), 3, Threshold { num: 75, den: 100 });
    orch.start();
    orch.ingest_catalog(vec![(1, delivered(200, &three_repo_catalog()))])
        .unwrap();

    let bodies = [
        contributors_body(&[("a", 90), ("b", 10)]),
        contributors_body(&[("c", 50), ("d", 50)]),
        contributors_body(&[("e", 76), ("f", 24)]),
    ];
    for (i, body) in bodies.iter().enumerate() {
        orch.ingest_contributors(i, 1, vec![(1, delivered(200, body))])
            .unwrap();
    }

    let (report, dropped) = orch.finish();
    assert!(dropped.is_empty());
    assert_eq!(report.len(), 2);
    let ratios: Vec<(u64, u64)> = report
        .iter()
        .map(|a| {
            let bf = a.repo.bus_factor.unwrap();
            (bf.dominant_commits, bf.total_commits)
        })
        .collect();
    assert_eq!(ratios, vec![(90, 100), (76, 100)]);
}

#[test]
fn the_report_follows_catalog_order_not_completion_order() {
    let mut orch = Orchestrator::new("rust".to_string(), 3, Threshold { num: 0, den: 1 });
    orch.start();
    orch.ingest_catalog(vec![(1, delivered(200, &three_repo_catalog()))])
        .unwrap();

    let bodies = [
        contributors_body(&[("a", 1)]),
        contributors_body(&[("b", 2)]),
        contributors_body(&[("c", 3)]),
    ];
    for i in [2, 0, 1] {
        orch.ingest_contributors(i, 1, vec![(1, delivered(200, &bodies[i]))])
            .unwrap();
    }

    let (report, _dropped) = orch.finish();
    let names: Vec<&str> = report.iter().map(|a| a.repo.full_name.as_str()).collect();
    assert_eq!(names, vec!["o1/r1", "o2/r2", "o3/r3"]);
}

#[test]
fn a_catalog_failure_is_fatal_to_the_run() {
    let mut orch = Orchestrator::new("rust".to_string(), 3, Threshold { num: 3, den: 4 });
    orch.start();
    let error = orch
        .ingest_catalog(vec![(1, delivered(403, "denied"))])
        .unwrap_err();
    assert_eq!(error, FetchError::UpstreamStatus { code: 403 });
    assert_eq!(orch.current_phase(), Phase::Failed);
}

#[test]
fn an_undecodable_catalog_page_is_fatal_to_the_run() {
    let mut orch = Orchestrator::new("rust".to_string(), 2, Threshold { num: 3, den: 4 });
    orch.start();
    let error = orch
        .ingest_catalog(vec![(1, delivered(200, "surprise"))])
        .unwrap_err();
    assert_eq!(error, FetchError::ResponseParse);
    assert_eq!(orch.current_phase(), Phase::Failed);
}

#[test]
fn an_empty_contributor_list_is_dropped_with_its_error_reported() {
    let mut orch = Orchestrator::new("rust".to_string(), 2, Threshold { num: 0, den: 1 });
    orch.start();
    let body = catalog_body(&[repo_json(1, "o1", "r1", 20), repo_json(2, "o2", "r2", 10)]);
    orch.ingest_catalog(vec![(1, delivered(200, &body))]).unwrap();

    let gathered = orch
        .ingest_contributors(0, 1, vec![(1, delivered(200, "[]"))])
        .unwrap();
    assert_eq!(gathered, 0);
    let second = contributors_body(&[("gil", 4)]);
    orch.ingest_contributors(1, 1, vec![(1, delivered(200, &second))])
        .unwrap();

    let (report, dropped) = orch.finish();
    assert_eq!(report.len(), 1);
    assert_eq!(report[0].repo.full_name, "o2/r2");
    assert_eq!(dropped.len(), 1);
    assert_eq!(dropped[0], (0, FetchError::InsufficientData));
}

#[test]
fn a_pending_repository_is_left_out_of_the_report() {
    let mut orch = Orchestrator::new("rust".to_string(), 2, Threshold { num: 0, den: 1 });
    orch.start();
    let body = catalog_body(&[repo_json(1, "o1", "r1", 20), repo_json(2, "o2", "r2", 10)]);
    orch.ingest_catalog(vec![(1, delivered(200, &body))]).unwrap();

    let only = contributors_body(&[("hana", 6)]);
    orch.ingest_contributors(1, 1, vec![(1, delivered(200, &only))])
        .unwrap();

    let (report, dropped) = orch.finish();
    assert!(dropped.is_empty());
    assert_eq!(report.len(), 1);
    assert_eq!(report[0].repo.full_name, "o2/r2");
}

#[test]
fn a_multi_page_contributor_listing_reaches_the_report_in_order() {
    let mut orch = Orchestrator::new("rust".to_string(), 1, Threshold { num: 1, den: 2 });
    orch.start();
    let body = catalog_body(&[repo_json(1, "o1", "r1", 20)]);
    orch.ingest_catalog(vec![(1, delivered(200, &body))]).unwrap();

    let probe = PageFetchOutcome::Delivered(PageResponse {
        status: 200,
        body: String::new(),
        pagination: Some(b"<https://host/c?page=2>; rel=\"last\"".to_vec()),
    });
    let request = orch.probe_request(0);
    assert_eq!(request.owner, "o1");
    assert_eq!(request.repo, "r1");
    let pages = bus_factor::contributors::ContributorGatherer::page_count_from_probe(&probe)
        .unwrap();
    assert_eq!(pages, 2);
    let plans = orch.contributor_page_requests(0, pages);
    assert_eq!(plans.len(), 2);

    let page_two = contributors_body(&[("kim", 1)]);
    let page_one = contributors_body(&[("joy", 9), ("lee", 2)]);
    orch.ingest_contributors(
        0,
        2,
        vec![(2, delivered(200, &page_two)), (1, delivered(200, &page_one))],
    )
    .unwrap();

    let (report, _dropped) = orch.finish();
    assert_eq!(report.len(), 1);
    let logins: Vec<&str> = report[0].contributors.iter().map(|c| c.login.as_str()).collect();
    assert_eq!(logins, vec!["joy", "lee", "kim"]);
    assert_eq!(report[0].repo.num_of_commits, 12);
}
