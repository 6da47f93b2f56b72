//! Request building, expiry handling, outcome classification and
//! pagination scenarios.

use platz_client::client::{AuthStep, PlatzClient};
use platz_client::config::{AuthScheme, PlatzClientConfig};
use platz_client::error::PlatzClientError;
use platz_client::pagination::{collect_step, paginated_expect_one, Paginated};
use platz_client::request::{classify_status, HttpMethod, PlatzRequest};
use platz_client::status::{NoticeLevel, StatusColor};

fn record(url: &str, scheme: AuthScheme, secret: &str, expires_at: Option<i64>) -> PlatzClientConfig {
    PlatzClientConfig {
        server_url: url.to_string(),
        scheme,
        contents: secret.to_string(),
        expires_at,
    }
}

#[test]
fn build_url_joins_path_onto_base() {
    let client = PlatzClient::new(record(
        "https://api.example.com/",
        AuthScheme::Bearer,
        "s",
        None,
    ));
    let url = client.build_url("/api/v2/deployments").unwrap();
    assert_eq!(url, "https://api.example.com/api/v2/deployments");
}

#[test]
fn build_url_fails_on_unjoinable_path() {
    let client = PlatzClient::new(record("https://api.example.com/", AuthScheme::Bearer, "s", None));
    // a scheme-only input cannot be resolved against any base
    let r = client.build_url("https://");
    assert!(matches!(r, Err(PlatzClientError::UrlJoinError)));
}

#[test]
fn fresh_record_yields_header_without_refresh() {
    // no expiry at all
    let client = PlatzClient::new(record("https://x.example/", AuthScheme::Bearer, "sec", None));
    match client.authorization_step(1_000_000) {
        AuthStep::Header(name, value) => {
            assert_eq!(name, "authorization");
            assert_eq!(value, "Bearer sec");
        }
        AuthStep::Refresh => panic!("a record without expiry never refreshes"),
    }
    // a future expiry
    let client = PlatzClient::new(record(
        "https://x.example/",
        AuthScheme::XPlatzToken,
        "sec",
        Some(2_000),
    ));
    match client.authorization_step(1_999) {
        AuthStep::Header(name, value) => {
            assert_eq!(name, "x-platz-token");
            assert_eq!(value, "sec");
        }
        AuthStep::Refresh => panic!("a record with a future expiry never refreshes"),
    }
}

#[test]
fn expired_record_demands_refresh_and_header_comes_from_replacement() {
    let mut client = PlatzClient::new(record(
        "https://x.example/",
        AuthScheme::Bearer,
        "old-secret",
        Some(1_000),
    ));
    // the expiry instant itself already counts as stale
    assert!(matches!(client.authorization_step(1_000), AuthStep::Refresh));
    let (name, value) = client.complete_refresh(record(
        "https://x.example/",
        AuthScheme::Bearer,
        "new-secret",
        Some(9_000),
    ));
    assert_eq!(name, "authorization");
    assert_eq!(value, "Bearer new-secret");
    assert_eq!(client.config.contents, "new-secret");
    // the refreshed record is current again
    assert!(matches!(client.authorization_step(1_000), AuthStep::Header(_, _)));
}

#[test]
fn descriptor_carries_header_url_and_query() {
    let config = record("https://api.example.com/", AuthScheme::XPlatzToken, "k9", None);
    let req = PlatzRequest::new(HttpMethod::Get, "/api/v2/envs")
        .query("name", "staging")
        .query("enabled", "true");
    let d = req.build_descriptor(&config).unwrap();
    assert_eq!(d.url, "https://api.example.com/api/v2/envs");
    assert_eq!(d.header_name, "x-platz-token");
    assert_eq!(d.header_value, "k9");
    assert!(matches!(d.method, HttpMethod::Get));
    assert_eq!(
        d.query,
        vec![
            ("name".to_string(), "staging".to_string()),
            ("enabled".to_string(), "true".to_string()),
        ]
    );
}

#[test]
fn later_query_assignment_wins() {
    let config = record("https://api.example.com/", AuthScheme::Bearer, "s", None);
    let req = PlatzRequest::new(HttpMethod::Get, "/api/v2/envs")
        .query("name", "one")
        .query("name", "two");
    let d = req.build_descriptor(&config).unwrap();
    assert_eq!(d.query, vec![("name".to_string(), "two".to_string())]);
}

#[test]
fn add_to_query_assigns_in_order() {
    let config = record("https://api.example.com/", AuthScheme::Bearer, "s", None);
    let pairs = vec![
        ("a".to_string(), "1".to_string()),
        ("b".to_string(), "2".to_string()),
        ("a".to_string(), "3".to_string()),
    ];
    let d = PlatzRequest::new(HttpMethod::Get, "/x")
        .add_to_query(&pairs)
        .build_descriptor(&config)
        .unwrap();
    assert_eq!(
        d.query,
        vec![("a".to_string(), "3".to_string()), ("b".to_string(), "2".to_string())]
    );
}

#[test]
fn page_descriptor_appends_paging_pairs() {
    let config = record("https://api.example.com/", AuthScheme::Bearer, "s", None);
    let req = PlatzRequest::new(HttpMethod::Get, "/api/v2/deployments").query("name", "n");
    let d = req.page_descriptor(&config, 17, None).unwrap();
    assert_eq!(
        d.query,
        vec![
            ("name".to_string(), "n".to_string()),
            ("page".to_string(), "17".to_string()),
        ]
    );
    let d = req.page_descriptor(&config, 2, Some(50)).unwrap();
    assert_eq!(
        d.query,
        vec![
            ("name".to_string(), "n".to_string()),
            ("page".to_string(), "2".to_string()),
            ("page_size".to_string(), "50".to_string()),
        ]
    );
}

#[test]
fn descriptor_body_is_carried_verbatim() {
    let config = record("https://api.example.com/", AuthScheme::Bearer, "s", None);
    let req = PlatzRequest::new(HttpMethod::Post, "/api/v2/deployments");
    let d = req.build_descriptor(&config).unwrap();
    assert!(d.body.is_none());
    let d = req
        .build_descriptor_with_body(&config, "{\"name\":\"n1\"}".to_string())
        .unwrap();
    assert_eq!(d.body.as_deref(), Some("{\"name\":\"n1\"}"));
    assert_eq!(d.url, "https://api.example.com/api/v2/deployments");
}

#[test]
fn page_numbers_render_in_decimal() {
    let config = record("https://api.example.com/", AuthScheme::Bearer, "s", None);
    let req = PlatzRequest::new(HttpMethod::Get, "/x");
    let d = req.page_descriptor(&config, 1234567890123, Some(0)).unwrap();
    assert_eq!(
        d.query,
        vec![
            ("page".to_string(), "1234567890123".to_string()),
            ("page_size".to_string(), "0".to_string()),
        ]
    );
    let d = req.page_descriptor(&config, -7, None).unwrap();
    assert_eq!(d.query, vec![("page".to_string(), "-7".to_string())]);
}

#[test]
fn user_agent_names_the_client() {
    assert_eq!(
        platz_client::request::http_user_agent(),
        "platz_client/0.1.0"
    );
}

#[test]
fn classify_status_accepts_exactly_2xx() {
    assert!(classify_status(200, None).is_ok());
    assert!(classify_status(204, None).is_ok());
    assert!(classify_status(299, None).is_ok());
    assert!(classify_status(199, None).is_err());
    assert!(classify_status(301, None).is_err());
    match classify_status(404, Some("not found here".to_string())) {
        Err(PlatzClientError::HttpError(status, body)) => {
            assert_eq!(status, 404);
            assert_eq!(body, "not found here");
        }
        other => panic!("expected an HTTP failure, got {other:?}"),
    }
    // an unreadable body never masks the status
    match classify_status(500, None) {
        Err(PlatzClientError::HttpError(status, body)) => {
            assert_eq!(status, 500);
            assert_eq!(body, "");
        }
        other => panic!("expected an HTTP failure, got {other:?}"),
    }
}

fn envelope(page: i64, per_page: i64, items: Vec<u32>, num_total: i64) -> Paginated<u32> {
    Paginated { page, per_page, items, num_total }
}

#[test]
fn collect_all_pages_in_order() {
    // seven items in pages of three: ceil(7/3) = 3 requests
    let pages = vec![
        envelope(1, 3, vec![1, 2, 3], 7),
        envelope(2, 3, vec![4, 5, 6], 7),
        envelope(3, 3, vec![7], 7),
    ];
    let mut items: Vec<u32> = Vec::new();
    let mut requests = 0usize;
    let mut next: Option<i64> = Some(1);
    let mut iter = pages.into_iter();
    while let Some(expected) = next {
        let page = iter.next().expect("the model serves every requested page");
        assert_eq!(page.page, expected);
        requests += 1;
        next = collect_step(&mut items, page);
    }
    assert_eq!(items, vec![1, 2, 3, 4, 5, 6, 7]);
    assert_eq!(requests, 3);
    assert!(iter.next().is_none());
}

#[test]
fn single_short_page_stops_immediately() {
    let mut items: Vec<u32> = Vec::new();
    let next = collect_step(&mut items, envelope(1, 50, vec![9, 8], 2));
    assert!(next.is_none());
    assert_eq!(items, vec![9, 8]);
}

#[test]
fn empty_dataset_is_one_request_no_items() {
    let mut items: Vec<u32> = Vec::new();
    let next = collect_step(&mut items, envelope(1, 50, vec![], 0));
    assert!(next.is_none());
    assert!(items.is_empty());
}

#[test]
fn exact_page_boundary_stops_without_extra_request() {
    // six items in pages of three: page 2 is the last, 2 * 3 < 6 is false
    let mut items: Vec<u32> = Vec::new();
    let next = collect_step(&mut items, envelope(1, 3, vec![1, 2, 3], 6));
    assert_eq!(next, Some(2));
    let next = collect_step(&mut items, envelope(2, 3, vec![4, 5, 6], 6));
    assert!(next.is_none());
    assert_eq!(items.len(), 6);
}

#[test]
fn expect_one_of_each_cardinality() {
    let r: Result<u32, _> = paginated_expect_one(vec![]);
    assert!(matches!(r, Err(PlatzClientError::ExpectedOneGotNone)));

    let r = paginated_expect_one(vec![42u32]);
    assert_eq!(r.unwrap(), 42);

    let r = paginated_expect_one(vec![1u32, 2, 3]);
    assert!(matches!(r, Err(PlatzClientError::ExpectedOneGotMany(3))));
}

#[test]
fn status_names_are_stable() {
    assert_eq!(StatusColor::Primary.as_str(), "primary");
    assert_eq!(StatusColor::Success.as_str(), "success");
    assert_eq!(StatusColor::Danger.as_str(), "danger");
    assert_eq!(StatusColor::Warning.as_str(), "warning");
    assert_eq!(StatusColor::Secondary.as_str(), "secondary");
    assert!(matches!(NoticeLevel::Info, NoticeLevel::Info));
}

#[test]
fn error_kinds_are_distinguishable() {
    assert_eq!(PlatzClientError::NoConfigFound.kind_name(), "no-config-found");
    assert_eq!(
        PlatzClientError::HttpError(500, String::new()).kind_name(),
        "http-error"
    );
    assert_eq!(
        PlatzClientError::UrlJoinError.kind_name(),
        "url-join-error"
    );
}
