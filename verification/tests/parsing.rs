use bus_factor::decode::{decode_catalog_page, decode_contributor_page};
use bus_factor::errors::FetchError;
use bus_factor::page_link::PageLinkParser;

#[test]
fn max_page_takes_numeric_maximum_not_last_match() {
    let header = b"<https://host/items?page=3>; rel=\"next\", <https://host/items?page=12>; rel=\"last\"";
    assert_eq!(PageLinkParser::max_page(header), Ok(12));
}

#[test]
fn max_page_is_order_independent() {
    let forward = b"page=3 page=12";
    let backward = b"page=12 page=3";
    assert_eq!(PageLinkParser::max_page(forward), Ok(12));
    assert_eq!(PageLinkParser::max_page(backward), Ok(12));
}

#[test]
fn max_page_reads_leading_zeroes() {
    assert_eq!(PageLinkParser::max_page(b"page=007x page=9"), Ok(9));
}

#[test]
fn max_page_fails_on_metadata_without_page_number() {
    assert_eq!(
        PageLinkParser::max_page(b"rel=\"last\""),
        Err(FetchError::MalformedPaginationMetadata)
    );
}

#[test]
fn max_page_fails_on_empty_metadata() {
    assert_eq!(
        PageLinkParser::max_page(b""),
        Err(FetchError::MalformedPaginationMetadata)
    );
}

#[test]
fn max_page_needs_a_digit_after_the_equals_sign() {
    assert_eq!(
        PageLinkParser::max_page(b"page=x"),
        Err(FetchError::MalformedPaginationMetadata)
    );
}

#[test]
fn max_page_clamps_a_value_beyond_the_machine_word() {
    assert_eq!(
        PageLinkParser::max_page(b"page=99999999999999999999999999"),
        Ok(usize::MAX)
    );
}

#[test]
fn contributor_page_decodes_login_and_alias() {
    let body = r#"[{"login":"alice","contributions":90},{"name":"anonymous","contributions":10}]"#;
    let page = decode_contributor_page(body).unwrap();
    assert_eq!(page.len(), 2);
    assert_eq!(page[0].login, "alice");
    assert_eq!(page[0].contributions, 90);
    assert_eq!(page[1].login, "anonymous");
    assert_eq!(page[1].contributions, 10);
}

#[test]
fn contributor_page_rejects_text_that_is_not_json() {
    assert_eq!(
        decode_contributor_page("not json").unwrap_err(),
        FetchError::ResponseParse
    );
}

#[test]
fn contributor_page_rejects_a_non_array_document() {
    assert_eq!(
        decode_contributor_page(r#"{"login":"a"}"#).unwrap_err(),
        FetchError::ResponseParse
    );
}

#[test]
fn contributor_page_rejects_an_entry_without_a_handle() {
    assert_eq!(
        decode_contributor_page(r#"[{"contributions":5}]"#).unwrap_err(),
        FetchError::ResponseParse
    );
}

#[test]
fn contributor_page_rejects_an_oversized_commit_count() {
    assert_eq!(
        decode_contributor_page(r#"[{"login":"a","contributions":4294967296}]"#).unwrap_err(),
        FetchError::ResponseParse
    );
}

#[test]
fn contributor_page_accepts_an_empty_listing() {
    let page = decode_contributor_page("[]").unwrap();
    assert!(page.is_empty());
}

#[test]
fn catalog_page_decodes_items_and_bookkeeping() {
    let body = r#"{
        "total_count": 2,
        "incomplete_results": false,
        "items": [
            {"id": 1, "name": "one", "full_name": "o/one", "stargazers_count": 50,
             "commits_url": "https://host/o/one/commits", "owner": {"login": "o"}, "size": 7},
            {"id": 2, "name": "two", "full_name": "p/two", "stargazers_count": 40,
             "commits_url": "https://host/p/two/commits", "owner": {"login": "p"}, "size": 9}
        ]
    }"#;
    let page = decode_catalog_page(body).unwrap();
    assert_eq!(page.total_count, 2);
    assert!(!page.incomplete_results);
    assert_eq!(page.items.len(), 2);
    assert_eq!(page.items[0].id, 1);
    assert_eq!(page.items[0].owner.login, "o");
    assert_eq!(page.items[0].stargazers_count, 50);
    assert_eq!(page.items[0].num_of_commits, 0);
    assert!(page.items[0].bus_factor.is_none());
    assert_eq!(page.items[1].full_name, "p/two");
}

#[test]
fn catalog_page_rejects_a_missing_field() {
    let body = r#"{"total_count": 1, "items": []}"#;
    assert_eq!(decode_catalog_page(body).unwrap_err(), FetchError::ResponseParse);
}
