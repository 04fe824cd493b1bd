use curto::error::Error;
use axum::http::header::HOST as HOST_HEADER;
use axum::http::{HeaderMap, HeaderValue};
use curto::link::{Link, Timestamp};
use curto::service::{
    cache_control_value, check_target, create_link, create_new_link, forward_query_params,
    found_or_not_found, get_specific_link, insert_outcome, list_links, prepare_id,
    redirect_links, store_error, REDIRECT_STATUS,
};
use curto::store::{LinkTable, StoreError};

const HOST: &str = "localhost:7229";

fn at(micros: i64) -> Timestamp {
    Timestamp { micros }
}

fn link_to(target_url: &str) -> Link {
    Link {
        id: "abc".to_string(),
        target_url: target_url.to_string(),
        count_redirects: 0,
        created_at: at(0),
        updated_at: at(0),
    }
}

fn assert_create_link(table: &mut LinkTable, target_url: &str, custom_id: Option<&str>) -> Link {
    let link = create_new_link(table, HOST, target_url, custom_id.map(|s| s.to_string()), at(1))
        .unwrap();
    assert!(!link.id.is_empty());
    assert!(Link::validate_id(&link.id));
    if let Some(id) = custom_id {
        assert_eq!(link.id, id);
    }
    assert_eq!(link.count_redirects, 0);
    link
}

#[test]
fn test_forward_query_params() {
    let base_url = "https://github.com/".to_string();
    let link = link_to(&base_url);

    assert_eq!(forward_query_params(&link, None).unwrap(), base_url.clone());
    assert_eq!(
        forward_query_params(&link, Some("test=value".into())).unwrap(),
        format!("{}?{}", base_url, "test=value")
    );
    assert_eq!(
        forward_query_params(&link, Some("test=value&test2=value".into())).unwrap(),
        format!("{}?{}", base_url, "test=value&test2=value")
    );
}

#[test]
fn forward_query_params_replaces_a_stored_query() {
    let link = link_to("https://github.com/orgs/rust-lang/projects?query=is%3Aopen");
    assert_eq!(
        forward_query_params(&link, Some("a=1".into())).unwrap(),
        "https://github.com/orgs/rust-lang/projects?a=1"
    );
    assert_eq!(
        forward_query_params(&link, None).unwrap(),
        "https://github.com/orgs/rust-lang/projects?query=is%3Aopen"
    );
}

#[test]
fn forward_query_params_reports_a_corrupt_target_as_internal() {
    let link = link_to("not a url");
    assert!(matches!(forward_query_params(&link, None), Err(Error::Internal(_))));
    assert!(matches!(forward_query_params(&link, Some("a=1".into())), Err(Error::Internal(_))));
}

#[test]
fn test_create_links() {
    let mut table = LinkTable::new();

    // SUCCESS
    assert_create_link(&mut table, "https://crates.io", None);
    assert_create_link(&mut table, "sftp://host.io", None);
    assert_create_link(&mut table, "http://192.168.1.1", None);
    assert_create_link(&mut table, "http://www.test.site/abc123", None);
    assert_create_link(&mut table, "http://random.address/with?params=1&params=2", None);

    // FAILURES
    let target_url = "https://crates.io/";
    let link = assert_create_link(&mut table, target_url, None);

    // Custom IDs
    assert_create_link(&mut table, "https://crates.io", Some("abc123"));
    assert_create_link(&mut table, "https://crates.io", Some("testing"));
    assert_create_link(&mut table, "https://crates.io", Some("1"));
    assert_create_link(&mut table, "https://crates.io", Some("kelkadskekwklakdsfiowoekklasdf"));

    // Does not exist
    assert!(matches!(
        get_specific_link(&table, "noid".to_string()),
        Err(Error::LinkNotFound(_))
    ));

    // Existing ID
    let before = table.links.len();
    let result = create_new_link(&mut table, HOST, target_url, Some(link.id.clone()), at(2));
    assert_eq!(result, Err(Error::LinkIdNotUnique(link.id.clone())));
    assert_eq!(result.unwrap_err().status_code(), 422);
    assert_eq!(table.links.len(), before);
    assert!(get_specific_link(&table, link.id.clone()).is_ok());

    // Invalid IDs
    for invalid in ["", "links", "docs", "not-alphanumeric", "/route"] {
        let result = create_new_link(&mut table, HOST, target_url, Some(invalid.into()), at(2));
        assert_eq!(result, Err(Error::LinkIdNotValid(invalid.to_string())));
        assert_eq!(result.unwrap_err().status_code(), 422);
    }

    // Invalid URLs
    for invalid in ["", "//", "https//crates", "crates.io", "/absolute/path"] {
        let result = create_new_link(&mut table, HOST, invalid, None, at(2));
        assert!(matches!(result, Err(Error::MalformedURL(_))), "{invalid}");
        assert_eq!(result.unwrap_err().status_code(), 422);
    }
    assert_eq!(table.links.len(), before);
}

#[test]
fn test_get_link() {
    let mut table = LinkTable::new();
    let target_url = "https://crates.io/";

    let link = assert_create_link(&mut table, target_url, None);
    let id = link.id.clone();

    let found = get_specific_link(&table, id.clone()).unwrap();
    assert_eq!(found.target_url, target_url);
    assert_eq!(found.id, id);
}

#[test]
fn test_list_links() {
    let mut table = LinkTable::new();
    let target_urls = [
        "https://crates.io/",
        "https://www.rust-lang.org/",
        "https://github.com/rust-lang",
        "https://github.com/orgs/rust-lang/projects?query=is%3Aopen",
    ];

    for u in target_urls.iter() {
        assert_create_link(&mut table, u, None);
    }

    let links = list_links(&table);
    assert_eq!(links.len(), target_urls.len());
    for u in target_urls.iter() {
        links.iter().find(|l| l.target_url == *u).unwrap();
    }

    assert_create_link(&mut table, "https://www.rust-lang.org/", None);
    let links = list_links(&table);
    assert_eq!(links.len(), target_urls.len() + 1);
}

#[test]
fn test_redirect_links() {
    let mut table = LinkTable::new();
    let headers = HeaderMap::new();

    let link = assert_create_link(&mut table, "https://crates.io", None);
    let redirect = redirect_links(&mut table, link.id.clone(), None, &headers, at(5)).unwrap();
    assert_eq!(redirect.location, "https://crates.io/");

    let link = assert_create_link(&mut table, "https://www.rust-lang.org/", None);
    let redirect = redirect_links(&mut table, link.id.clone(), None, &headers, at(5)).unwrap();
    assert_eq!(redirect.location, "https://www.rust-lang.org/");

    let result = redirect_links(&mut table, "noid".to_string(), None, &headers, at(5));
    let error = result.unwrap_err();
    assert_eq!(error, Error::LinkNotFound("noid".to_string()));
    assert_eq!(error.status_code(), 404);
}

#[test]
fn created_link_stores_the_serialized_target() {
    let mut table = LinkTable::new();
    let link = create_new_link(&mut table, HOST, "https://crates.io/", None, at(7)).unwrap();
    assert!(Link::validate_id(&link.id));
    assert_eq!(link.target_url, "https://crates.io/");
    assert_eq!(link.created_at, at(7));
    assert_eq!(link.updated_at, at(7));
    assert_eq!(list_links(&table), vec![link.clone()]);

    let link = create_new_link(&mut table, HOST, "https://crates.io", None, at(7)).unwrap();
    assert_eq!(link.target_url, "https://crates.io/");
}

#[test]
fn same_custom_id_twice_fails_the_second_time() {
    let mut table = LinkTable::new();
    let first = create_new_link(&mut table, HOST, "https://crates.io/", Some("mine".into()), at(1));
    assert_eq!(first.unwrap().id, "mine");
    let second = create_new_link(&mut table, HOST, "https://github.com/", Some("mine".into()), at(2));
    assert_eq!(second, Err(Error::LinkIdNotUnique("mine".to_string())));
    assert_eq!(list_links(&table).len(), 1);
    assert_eq!(list_links(&table)[0].target_url, "https://crates.io/");
}

#[test]
fn redirect_counts_each_call_and_forwards_the_query() {
    let mut table = LinkTable::new();
    let link = create_new_link(&mut table, HOST, "https://github.com/", Some("gh".into()), at(1))
        .unwrap();
    let mut headers = HeaderMap::new();
    headers.insert(HOST_HEADER, HeaderValue::from_static("short.example"));

    for n in 1..=3 {
        let redirect =
            redirect_links(&mut table, link.id.clone(), Some("test=value".into()), &headers, at(10 + n))
                .unwrap();
        assert_eq!(redirect.location, "https://github.com/?test=value");
        assert_eq!(redirect.cache_control, cache_control_value());
        assert_eq!(redirect.headers.get(HOST_HEADER).unwrap(), "short.example");
        let stored = get_specific_link(&table, "gh".to_string()).unwrap();
        assert_eq!(stored.count_redirects, n);
        assert_eq!(stored.updated_at, at(10 + n));
        assert_eq!(stored.created_at, at(1));
        assert_eq!(stored.target_url, "https://github.com/");
    }
    assert_eq!(REDIRECT_STATUS, 307);
    assert_eq!(
        cache_control_value(),
        "public, max-age=300, s-maxage=300, stale-while-revalidate=300, stale-if-error=300"
    );
}

#[test]
fn redirect_with_an_empty_request_forwards_no_headers() {
    let mut table = LinkTable::new();
    create_new_link(&mut table, HOST, "https://crates.io/", Some("c".into()), at(1)).unwrap();
    let redirect = redirect_links(&mut table, "c".to_string(), None, &HeaderMap::new(), at(2)).unwrap();
    assert_eq!(redirect.headers.len(), 0);
}

#[test]
fn listing_twice_gives_the_same_links() {
    let mut table = LinkTable::new();
    for u in ["https://crates.io/", "https://www.rust-lang.org/"] {
        create_new_link(&mut table, HOST, u, None, at(1)).unwrap();
    }
    let first = list_links(&table);
    let _ = get_specific_link(&table, first[0].id.clone());
    let second = list_links(&table);
    assert_eq!(first, second);
}

#[test]
fn targets_without_host_or_looping_back_are_refused() {
    let mut table = LinkTable::new();
    let result = create_new_link(&mut table, HOST, "mailto:someone@example.com", None, at(1));
    assert_eq!(
        result,
        Err(Error::URLWithoutHost("mailto:someone@example.com".to_string()))
    );
    let result = create_new_link(&mut table, "localhost", "http://127.0.0.1/x", None, at(1));
    assert_eq!(result, Err(Error::URLWithMatchingHosts("localhost".to_string())));
    let result = create_new_link(&mut table, "crates.io", "https://crates.io/", None, at(1));
    assert_eq!(result, Err(Error::URLWithMatchingHosts("crates.io".to_string())));
    assert!(table.links.is_empty());

    assert_eq!(check_target("https://crates.io", HOST), Ok("https://crates.io/".to_string()));
    assert!(matches!(check_target("https//crates", HOST), Err(Error::MalformedURL(_))));
}

#[test]
fn store_outcomes_map_to_service_errors() {
    let link = link_to("https://crates.io/");
    assert_eq!(insert_outcome(None, Ok(link.clone())), Ok(link.clone()));
    assert_eq!(
        insert_outcome(Some("abc".into()), Err(StoreError::DuplicateIdentifier)),
        Err(Error::LinkIdNotUnique("abc".to_string()))
    );
    assert!(matches!(
        insert_outcome(None, Err(StoreError::DuplicateIdentifier)),
        Err(Error::Internal(_))
    ));
    assert!(matches!(
        insert_outcome(Some("abc".into()), Err(StoreError::Timeout)),
        Err(Error::Internal(_))
    ));
    assert!(matches!(store_error(StoreError::Failure("x".into())), Error::Internal(_)));
    assert_eq!(found_or_not_found("q".into(), None), Err(Error::LinkNotFound("q".to_string())));
    assert_eq!(found_or_not_found("q".into(), Some(link.clone())), Ok(link));
}

#[test]
fn prepare_id_validates_or_generates() {
    assert_eq!(prepare_id(Some("abc".into())), Ok("abc".to_string()));
    assert_eq!(prepare_id(Some("a-b".into())), Err(Error::LinkIdNotValid("a-b".to_string())));
    let generated = prepare_id(None).unwrap();
    assert!(Link::validate_id(&generated));
}

#[test]
fn table_insert_and_increment() {
    let mut table = LinkTable::new();
    let link = create_link(&mut table, Some("x1".into()), "https://a.example/".into(), at(3)).unwrap();
    assert_eq!(link.count_redirects, 0);
    assert_eq!(
        table.insert("x1".into(), "https://b.example/".into(), at(4)),
        Err(StoreError::DuplicateIdentifier)
    );
    assert_eq!(table.increment_redirect_count("nope", at(5)), Ok(None));
    let updated = table.increment_redirect_count("x1", at(5)).unwrap().unwrap();
    assert_eq!(updated.count_redirects, 1);
    assert_eq!(updated.updated_at, at(5));
    assert_eq!(table.find_by_id("x1"), Some(updated));
    table.links[0].count_redirects = i64::MAX;
    assert!(matches!(table.increment_redirect_count("x1", at(6)), Err(StoreError::Failure(_))));
    assert_eq!(table.links[0].count_redirects, i64::MAX);
}
