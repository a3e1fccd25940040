use powerlifting_lookup::api_reader::{index_url, record_url};
use powerlifting_lookup::url_builder::{build_url_with_params, u64_to_dec};

fn pair(k: &str, v: &str) -> (String, String) {
    (k.to_string(), v.to_string())
}

#[test]
fn build_prepends_relay_prefix_and_keeps_param_order() {
    let params = vec![pair("q", "abc"), pair("start", "0")];
    let url = build_url_with_params("https://www.openpowerlifting.org/api/search/rankings", &params)
        .unwrap();
    assert_eq!(
        url,
        "https://thingproxy.freeboard.io/fetch/https://www.openpowerlifting.org/api/search/rankings?q=abc&start=0"
    );
    assert!(url.starts_with("https://thingproxy.freeboard.io/fetch/"));
    assert!(url.ends_with("?q=abc&start=0"));
}

#[test]
fn build_with_single_param() {
    let params = vec![pair("lang", "fr")];
    let url = build_url_with_params("https://example.net/a", &params).unwrap();
    assert_eq!(url, "https://thingproxy.freeboard.io/fetch/https://example.net/a?lang=fr");
}

#[test]
fn build_with_no_params_gives_empty_query() {
    let params: Vec<(String, String)> = Vec::new();
    let url = build_url_with_params("https://example.net/a", &params).unwrap();
    assert_eq!(url, "https://thingproxy.freeboard.io/fetch/https://example.net/a?");
}

#[test]
fn build_percent_encodes_a_space_in_a_value() {
    let params = vec![pair("q", "John Doe"), pair("start", "0")];
    let url = build_url_with_params("https://example.net/a", &params).unwrap();
    assert_eq!(url, "https://thingproxy.freeboard.io/fetch/https://example.net/a?q=John%20Doe&start=0");
}

#[test]
fn index_url_targets_search_endpoint() {
    let url = index_url("John Doe").unwrap();
    assert_eq!(
        url,
        "https://thingproxy.freeboard.io/fetch/https://www.openpowerlifting.org/api/search/rankings?q=John%20Doe&start=0"
    );
}

#[test]
fn record_url_selects_a_single_row_window() {
    let url = record_url(42).unwrap();
    assert_eq!(
        url,
        "https://thingproxy.freeboard.io/fetch/https://www.openpowerlifting.org/api/rankings?start=42&end=42&lang=fr&units=kg"
    );
}

#[test]
fn record_url_renders_large_indices_in_decimal() {
    let url = record_url(18446744073709551615).unwrap();
    assert_eq!(
        url,
        "https://thingproxy.freeboard.io/fetch/https://www.openpowerlifting.org/api/rankings?start=18446744073709551615&end=18446744073709551615&lang=fr&units=kg"
    );
}

#[test]
fn u64_to_dec_renders_zero_and_round_numbers() {
    assert_eq!(u64_to_dec(0), "0");
    assert_eq!(u64_to_dec(7), "7");
    assert_eq!(u64_to_dec(10), "10");
    assert_eq!(u64_to_dec(90210), "90210");
}
