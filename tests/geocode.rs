use winlux::geocode::{
    first_match, http_failure, nominatim_query, validate_address, NominatimItem, RateLimiter,
    NOMINATIM_MIN_INTERVAL_MS,
};

#[test]
fn empty_and_blank_addresses_are_rejected() {
    assert_eq!(validate_address("").unwrap_err().code, "errors.address.empty");
    assert_eq!(validate_address("   ").unwrap_err().code, "errors.address.empty");
    assert_eq!(validate_address("\t\n").unwrap_err().code, "errors.address.empty");
}

#[test]
fn address_is_trimmed() {
    assert_eq!(validate_address("  Berlin \n").unwrap(), "Berlin");
    assert_eq!(validate_address("\u{3000}東京\u{3000}").unwrap(), "東京");
}

#[test]
fn query_parameters() {
    let q = nominatim_query("Berlin");
    let expected = [("q", "Berlin"), ("format", "jsonv2"), ("limit", "1"), ("addressdetails", "0")];
    assert_eq!(q.len(), 4);
    for (got, want) in q.iter().zip(expected.iter()) {
        assert_eq!(got.0, want.0);
        assert_eq!(got.1, want.1);
    }
}

#[test]
fn first_answer_is_taken() {
    let items = vec![
        NominatimItem { lat: "52.5".into(), lon: "13.4".into(), display_name: "Berlin".into() },
        NominatimItem { lat: "1".into(), lon: "2".into(), display_name: "Other".into() },
    ];
    let first = first_match("Berlin", items).unwrap();
    assert_eq!(first.display_name, "Berlin");
    assert_eq!(first.lat, "52.5");
}

#[test]
fn no_answer_is_not_found() {
    let e = first_match("Atlantis", Vec::new()).unwrap_err();
    assert_eq!(e.code, "errors.geocode.not_found");
    assert_eq!(e.params, vec![("address".to_string(), "Atlantis".to_string())]);
}

#[test]
fn http_failure_carries_status_and_body() {
    let e = http_failure("429 Too Many Requests", "slow down");
    assert_eq!(e.code, "errors.geocode.http_failed");
    assert_eq!(e.params.len(), 2);
    assert_eq!(e.params[0], ("status".to_string(), "429 Too Many Requests".to_string()));
    assert_eq!(e.params[1], ("body".to_string(), "slow down".to_string()));
}

#[test]
fn limiter_spaces_requests_one_second_apart() {
    let mut limiter = RateLimiter::new();
    assert_eq!(limiter.delay_before(5_000), 0);
    limiter.record(5_000);
    assert_eq!(limiter.delay_before(5_300), 700);
    limiter.record(5_300 + 700);
    assert_eq!(limiter.delay_before(6_000), NOMINATIM_MIN_INTERVAL_MS);
    limiter.record(7_000);
    assert_eq!(limiter.delay_before(9_500), 0);
    assert_eq!(limiter.delay_before(7_999), 1);
}

#[test]
fn rapid_requests_take_at_least_n_minus_one_seconds() {
    let mut limiter = RateLimiter::new();
    let mut starts = Vec::new();
    let mut now: u64 = 100;
    for _ in 0..5 {
        let wait = limiter.delay_before(now);
        let start = now + wait;
        limiter.record(start);
        starts.push(start);
        now = start;
    }
    for pair in starts.windows(2) {
        assert!(pair[1] >= pair[0] + 1_000);
    }
    assert!(starts[4] - starts[0] >= 4 * 1_000);
}
