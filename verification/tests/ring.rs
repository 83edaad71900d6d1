use std::collections::HashMap;

use lambda_http::aws_lambda_events::query_map::QueryMap;
use lambda_http::http::header::{HeaderMap, HeaderValue, REFERER};
use webring::{
    build_response, calc_destination, destination_at, extract_referrer, find_host, parse_sites,
    Request,
};

fn ring() -> Vec<String> {
    [
        "https://lukaswerner.com/",
        "https://grantlemons.com/",
        "https://elijahpotter.dev/",
        "https://b-sharman.dev/",
    ]
    .iter()
    .map(|s| s.to_string())
    .collect::<Vec<_>>()
}

fn with_header(referer: &str) -> Request {
    let mut headers = HeaderMap::new();
    headers.insert(REFERER, HeaderValue::from_str(referer).unwrap());
    Request {
        query: QueryMap::default(),
        headers,
    }
}

fn with_parameter(name: &str, referer: &str) -> Request {
    let mut parameters = HashMap::new();
    parameters.insert(name.to_string(), vec![referer.to_string()]);
    Request {
        query: QueryMap::from(parameters),
        headers: HeaderMap::new(),
    }
}

fn abstraction(sites: &[String], referer: &str, location: &str) {
    let request = with_header(referer);
    assert_eq!(
        build_response(
            calc_destination(extract_referrer(request), &sites, |x| x + 1),
            &sites
        )
        .location
        .unwrap(),
        location
    )
}

fn abstraction_prev(sites: &[String], referer: &str, location: &str) {
    let request = with_header(&format!("{}doesnotexist", referer));
    assert_eq!(
        build_response(
            calc_destination(extract_referrer(request), &sites, |x| x - 1),
            &sites
        )
        .location
        .unwrap(),
        location
    )
}

#[test]
fn windows() {
    let sites = [
        "https://lukaswerner.com/",
        "https://grantlemons.com/",
        "https://elijahpotter.dev/",
        "https://b-sharman.dev/",
    ]
    .iter()
    .map(|s| s.to_string())
    .collect::<Vec<_>>();

    for w in sites.windows(2) {
        abstraction(&sites, &w[0], &w[1])
    }
}

#[test]
fn bad_uri_filtered() {
    let sites = [
        "https:/lukaswerner.com/",
        "https://grantlemons.com/",
        "https://elijahpotter.dev/",
        "https://b-sharman.dev/",
    ]
    .iter()
    .map(|s| s.to_string())
    .collect::<Vec<_>>();

    abstraction(&sites, &sites[3], &sites[1])
}

#[test]
fn test_referer_prev() {
    let sites = [
        "https://lukaswerner.com/",
        "https://grantlemons.com/",
        "https://elijahpotter.dev/",
        "https://b-sharman.dev/",
        "https://lukaswerner.com/",
    ];
    let members = ring();
    for w in sites.iter().rev().collect::<Vec<_>>().windows(2) {
        abstraction_prev(&members, w[0], w[1])
    }
}

#[test]
fn header_of_first_member_leads_to_second() {
    let sites = ring();
    let destination = calc_destination(
        extract_referrer(with_header("https://lukaswerner.com/")),
        &sites,
        |x| x + 1,
    );
    assert_eq!(destination, Ok("https://grantlemons.com/".to_string()));
    let response = build_response(destination, &sites);
    assert_eq!(response.status, 303);
    assert_eq!(
        response.location,
        Some("https://grantlemons.com/".to_string())
    );
}

#[test]
fn header_of_last_member_wraps_to_first() {
    let sites = ring();
    let response = build_response(
        calc_destination(
            extract_referrer(with_header("https://b-sharman.dev/")),
            &sites,
            |x| x + 1,
        ),
        &sites,
    );
    assert_eq!(response.status, 303);
    assert_eq!(
        response.location,
        Some("https://lukaswerner.com/".to_string())
    );
}

#[test]
fn previous_of_first_member_wraps_to_last() {
    let sites = ring();
    let destination = calc_destination(Ok("lukaswerner.com".to_string()), &sites, |x| x - 1);
    assert_eq!(destination, Ok("https://b-sharman.dev/".to_string()));
}

#[test]
fn malformed_header_is_a_client_error() {
    let sites = ring();
    let referer = extract_referrer(with_header("https:/lukaswerner.com/"));
    assert_eq!(referer, Err("Invalid uri".to_string()));
    let response = build_response(calc_destination(referer, &sites, |x| x + 1), &sites);
    assert_eq!(response.status, 400);
    assert_eq!(response.location, None);
    assert_eq!(response.body, "Invalid uri");
}

#[test]
fn request_without_referer_is_a_client_error() {
    let sites = ring();
    let request = Request {
        query: QueryMap::default(),
        headers: HeaderMap::new(),
    };
    let response = build_response(
        calc_destination(extract_referrer(request), &sites, |x| x + 1),
        &sites,
    );
    assert_eq!(response.status, 400);
    assert_eq!(response.location, None);
    assert_eq!(response.body, "No referer header or query parameter");
}

#[test]
fn query_parameter_goes_before_header() {
    let sites = ring();
    let mut request = with_parameter("referer", "https://elijahpotter.dev/");
    request.headers.insert(
        REFERER,
        HeaderValue::from_static("https://lukaswerner.com/"),
    );
    let response = build_response(
        calc_destination(extract_referrer(request), &sites, |x| x + 1),
        &sites,
    );
    assert_eq!(response.status, 303);
    assert_eq!(response.location, Some("https://b-sharman.dev/".to_string()));
}

#[test]
fn capitalised_parameter_goes_before_lower_case() {
    let mut parameters = HashMap::new();
    parameters.insert(
        "referer".to_string(),
        vec!["https://elijahpotter.dev/".to_string()],
    );
    parameters.insert(
        "Referer".to_string(),
        vec!["https://grantlemons.com/".to_string()],
    );
    let request = Request {
        query: QueryMap::from(parameters),
        headers: HeaderMap::new(),
    };
    assert_eq!(extract_referrer(request), Ok("grantlemons.com".to_string()));
}

#[test]
fn first_value_of_a_parameter_counts() {
    let mut parameters = HashMap::new();
    parameters.insert(
        "Referer".to_string(),
        vec![
            "https://b-sharman.dev/".to_string(),
            "https://grantlemons.com/".to_string(),
        ],
    );
    let request = Request {
        query: QueryMap::from(parameters),
        headers: HeaderMap::new(),
    };
    assert_eq!(extract_referrer(request), Ok("b-sharman.dev".to_string()));
}

#[test]
fn parameter_without_values_leaves_the_lower_case_one() {
    let mut parameters: HashMap<String, Vec<String>> = HashMap::new();
    parameters.insert("Referer".to_string(), vec![]);
    parameters.insert(
        "referer".to_string(),
        vec!["https://grantlemons.com/".to_string()],
    );
    let request = Request {
        query: QueryMap::from(parameters),
        headers: HeaderMap::new(),
    };
    assert_eq!(extract_referrer(request), Ok("grantlemons.com".to_string()));
}

#[test]
fn other_parameters_are_not_read() {
    let mut request = with_parameter("REFERER", "https://elijahpotter.dev/");
    request.headers.insert(
        REFERER,
        HeaderValue::from_static("https://lukaswerner.com/"),
    );
    assert_eq!(extract_referrer(request), Ok("lukaswerner.com".to_string()));
}

#[test]
fn unreadable_parameter_does_not_fall_back_to_header() {
    let sites = ring();
    let mut request = with_parameter("Referer", "https:/elijahpotter.dev/");
    request.headers.insert(
        REFERER,
        HeaderValue::from_static("https://lukaswerner.com/"),
    );
    let referer = extract_referrer(request);
    assert_eq!(referer, Err("Invalid uri".to_string()));
    let response = build_response(calc_destination(referer, &sites, |x| x + 1), &sites);
    assert_eq!(response.status, 400);
    assert_eq!(response.body, "Invalid uri");
}

#[test]
fn parameter_without_host_does_not_fall_back_to_header() {
    let mut request = with_parameter("referer", "/members/index.html");
    request.headers.insert(
        REFERER,
        HeaderValue::from_static("https://lukaswerner.com/"),
    );
    assert_eq!(
        extract_referrer(request),
        Err("No host in referer".to_string())
    );
}

#[test]
fn first_of_several_headers_counts() {
    let mut headers = HeaderMap::new();
    headers.append(REFERER, HeaderValue::from_static("https://b-sharman.dev/"));
    headers.append(
        REFERER,
        HeaderValue::from_static("https://grantlemons.com/"),
    );
    let request = Request {
        query: QueryMap::default(),
        headers,
    };
    assert_eq!(extract_referrer(request), Ok("b-sharman.dev".to_string()));
}

#[test]
fn header_name_is_found_in_any_case() {
    let mut headers = HeaderMap::new();
    headers.insert(
        "Referer",
        HeaderValue::from_static("https://grantlemons.com/"),
    );
    let request = Request {
        query: QueryMap::default(),
        headers,
    };
    assert_eq!(extract_referrer(request), Ok("grantlemons.com".to_string()));
}

#[test]
fn header_that_is_no_text_is_refused() {
    let mut headers = HeaderMap::new();
    headers.insert(
        REFERER,
        HeaderValue::from_bytes(b"https://lukaswerner.com/\xfc").unwrap(),
    );
    let request = Request {
        query: QueryMap::default(),
        headers,
    };
    assert_eq!(
        extract_referrer(request),
        Err("Header value not ASCII".to_string())
    );
}

#[test]
fn header_with_a_tab_is_text() {
    let mut headers = HeaderMap::new();
    headers.insert(
        REFERER,
        HeaderValue::from_bytes(b"https://lukaswerner.com/\tx").unwrap(),
    );
    let request = Request {
        query: QueryMap::default(),
        headers,
    };
    assert_eq!(extract_referrer(request), Err("Invalid uri".to_string()));
}

#[test]
fn header_without_host_is_refused() {
    assert_eq!(
        extract_referrer(with_header("/members/index.html")),
        Err("No host in referer".to_string())
    );
}

#[test]
fn failed_referer_is_handed_back() {
    let sites = ring();
    assert_eq!(
        calc_destination(Err("Invalid uri".to_string()), &sites, |x| x + 1),
        Err("Invalid uri".to_string())
    );
    assert_eq!(
        calc_destination(Err("anything at all".to_string()), &[], |x| x + 1),
        Err("anything at all".to_string())
    );
}

#[test]
fn unknown_host_is_not_in_the_ring() {
    let sites = ring();
    let destination = calc_destination(
        extract_referrer(with_header("https://example.org/")),
        &sites,
        |x| x + 1,
    );
    assert_eq!(destination, Err("Referer not in hosts list!".to_string()));
    let response = build_response(destination, &sites);
    assert_eq!(response.status, 400);
    assert_eq!(response.body, "Referer not in hosts list!");
}

#[test]
fn hosts_are_compared_letter_by_letter() {
    let sites = ring();
    assert_eq!(
        calc_destination(Ok("LukasWerner.com".to_string()), &sites, |x| x + 1),
        Err("Referer not in hosts list!".to_string())
    );
}

#[test]
fn empty_ring_has_no_next_site() {
    let none: Vec<String> = Vec::new();
    assert_eq!(
        calc_destination(Ok("lukaswerner.com".to_string()), &none, |x| x + 1),
        Err("No next site".to_string())
    );
    assert_eq!(
        calc_destination(Ok("lukaswerner.com".to_string()), &none, |x| x - 1),
        Err("No next site".to_string())
    );
    let response = build_response(
        calc_destination(
            extract_referrer(with_header("https://lukaswerner.com/")),
            &none,
            |x| x + 1,
        ),
        &none,
    );
    assert_eq!(response.status, 400);
    assert_eq!(response.body, "No next site");
}

#[test]
fn ring_of_unusable_entries_is_empty() {
    let sites = vec!["https:/lukaswerner.com/".to_string(), "/about".to_string()];
    assert_eq!(
        calc_destination(Ok("lukaswerner.com".to_string()), &sites, |x| x + 1),
        Err("No next site".to_string())
    );
}

#[test]
fn unusable_entry_does_not_part_its_neighbours() {
    let sites = vec![
        "https://lukaswerner.com/".to_string(),
        "not a uri".to_string(),
        "/no/host".to_string(),
        "https://grantlemons.com/".to_string(),
    ];
    assert_eq!(
        parse_sites(&sites),
        vec![
            ("lukaswerner.com".to_string(), "https://lukaswerner.com/"),
            ("grantlemons.com".to_string(), "https://grantlemons.com/"),
        ]
    );
    assert_eq!(
        calc_destination(Ok("lukaswerner.com".to_string()), &sites, |x| x + 1),
        Ok("https://grantlemons.com/".to_string())
    );
    assert_eq!(
        calc_destination(Ok("grantlemons.com".to_string()), &sites, |x| x + 1),
        Ok("https://lukaswerner.com/".to_string())
    );
    assert_eq!(
        calc_destination(Ok("grantlemons.com".to_string()), &sites, |x| x - 1),
        Ok("https://lukaswerner.com/".to_string())
    );
}

#[test]
fn ring_keeps_the_order_of_the_list() {
    let sites = ring();
    assert_eq!(
        parse_sites(&sites),
        vec![
            ("lukaswerner.com".to_string(), "https://lukaswerner.com/"),
            ("grantlemons.com".to_string(), "https://grantlemons.com/"),
            ("elijahpotter.dev".to_string(), "https://elijahpotter.dev/"),
            ("b-sharman.dev".to_string(), "https://b-sharman.dev/"),
        ]
    );
    assert_eq!(parse_sites(&[]), vec![]);
}

#[test]
fn first_of_two_members_with_one_host_is_found() {
    let sites = vec![
        "https://lukaswerner.com/".to_string(),
        "https://grantlemons.com/a".to_string(),
        "https://grantlemons.com/b".to_string(),
        "https://elijahpotter.dev/".to_string(),
    ];
    let members = parse_sites(&sites);
    assert_eq!(members.len(), 4);
    assert_eq!(find_host(&members, &"grantlemons.com".to_string()), Some(1));
    assert_eq!(find_host(&members, &"elijahpotter.dev".to_string()), Some(3));
    assert_eq!(find_host(&members, &"b-sharman.dev".to_string()), None);
    assert_eq!(
        calc_destination(Ok("grantlemons.com".to_string()), &sites, |x| x + 1),
        Ok("https://grantlemons.com/b".to_string())
    );
}

#[test]
fn step_may_be_any_number() {
    let sites = ring();
    let from = |host: &str, step: isize| {
        calc_destination(Ok(host.to_string()), &sites, |x| x + step)
    };
    assert_eq!(
        from("lukaswerner.com", 2),
        Ok("https://elijahpotter.dev/".to_string())
    );
    assert_eq!(
        from("elijahpotter.dev", 2),
        Ok("https://lukaswerner.com/".to_string())
    );
    assert_eq!(
        from("grantlemons.com", 0),
        Ok("https://grantlemons.com/".to_string())
    );
    assert_eq!(
        from("grantlemons.com", 4),
        Ok("https://grantlemons.com/".to_string())
    );
    assert_eq!(
        from("grantlemons.com", -6),
        Ok("https://b-sharman.dev/".to_string())
    );
    assert_eq!(
        calc_destination(Ok("grantlemons.com".to_string()), &sites, |_| isize::MIN),
        Ok("https://lukaswerner.com/".to_string())
    );
    assert_eq!(
        calc_destination(Ok("grantlemons.com".to_string()), &sites, |_| isize::MAX),
        Ok("https://b-sharman.dev/".to_string())
    );
}

#[test]
fn remainder_is_never_negative() {
    let sites = ring();
    let members = parse_sites(&sites);
    assert_eq!(
        destination_at(&members, -1),
        Ok("https://b-sharman.dev/".to_string())
    );
    assert_eq!(
        destination_at(&members, -5),
        Ok("https://b-sharman.dev/".to_string())
    );
    assert_eq!(
        destination_at(&members, -4),
        Ok("https://lukaswerner.com/".to_string())
    );
    assert_eq!(
        destination_at(&members, 7),
        Ok("https://b-sharman.dev/".to_string())
    );
    assert_eq!(
        destination_at(&members, 1),
        Ok("https://grantlemons.com/".to_string())
    );
    assert_eq!(
        destination_at(&Vec::new(), 0),
        Err("No next site".to_string())
    );
}

#[test]
fn single_member_leads_to_itself() {
    let sites = vec!["https://grantlemons.com/".to_string()];
    assert_eq!(
        calc_destination(Ok("grantlemons.com".to_string()), &sites, |x| x + 1),
        Ok("https://grantlemons.com/".to_string())
    );
    assert_eq!(
        calc_destination(Ok("grantlemons.com".to_string()), &sites, |x| x - 1),
        Ok("https://grantlemons.com/".to_string())
    );
}
