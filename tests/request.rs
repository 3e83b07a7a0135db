use polygon_aggs::request::{
    accept_value, aggs_query, aggs_url, bearer_value, build_query_string, page_filename,
};
use polygon_aggs::text::decimal_string;

#[test]
fn query_string_skips_empty_values() {
    let q = build_query_string(&[("adjusted", ""), ("sort", "asc"), ("limit", "100")]);
    assert_eq!(q, "sort=asc&limit=100");
}

#[test]
fn query_string_keeps_order_of_all_values() {
    let q = build_query_string(&[("adjusted", "true"), ("sort", "desc"), ("limit", "50000")]);
    assert_eq!(q, "adjusted=true&sort=desc&limit=50000");
}

#[test]
fn query_string_of_nothing_is_empty() {
    assert_eq!(build_query_string(&[]), "");
    assert_eq!(build_query_string(&[("adjusted", ""), ("sort", "")]), "");
}

#[test]
fn query_string_single_value_has_no_separator() {
    assert_eq!(build_query_string(&[("adjusted", ""), ("limit", "7")]), "limit=7");
}

#[test]
fn aggs_query_treats_absent_options_as_empty() {
    assert_eq!(aggs_query(None, Some("asc"), "100"), "sort=asc&limit=100");
    assert_eq!(aggs_query(None, None, "50000"), "limit=50000");
    assert_eq!(aggs_query(Some("false"), Some(""), "10"), "adjusted=false&limit=10");
}

#[test]
fn aggs_url_layout() {
    let url = aggs_url("AAPL", 1, "minute", "2024-06-05", "2024-06-10", "limit=50000");
    assert_eq!(
        url,
        "https://api.polygon.io/v2/aggs/ticker/AAPL/range/1/minute/2024-06-05/2024-06-10?limit=50000"
    );
}

#[test]
fn aggs_url_multi_digit_multiplier() {
    let url = aggs_url("MSFT", 15, "day", "2024-01-01", "2024-02-01", "");
    assert_eq!(
        url,
        "https://api.polygon.io/v2/aggs/ticker/MSFT/range/15/day/2024-01-01/2024-02-01?"
    );
}

#[test]
fn headers() {
    assert_eq!(bearer_value("k3y"), "Bearer k3y");
    assert_eq!(accept_value(), "application/json");
}

#[test]
fn page_file_names() {
    assert_eq!(
        page_filename("AAPL", "2024-06-05", "2024-06-10", 1),
        "AAPL_2024-06-05_2024-06-10_page_1.json"
    );
    assert_eq!(page_filename("T", "a", "b", 120), "T_a_b_page_120.json");
}

#[test]
fn decimal_strings() {
    assert_eq!(decimal_string(0), "0");
    assert_eq!(decimal_string(9), "9");
    assert_eq!(decimal_string(10), "10");
    assert_eq!(decimal_string(1234567890), "1234567890");
    assert_eq!(decimal_string(u64::MAX), u64::MAX.to_string());
}
