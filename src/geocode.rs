//! The geocoding client's own logic: input validation, the request it sends,
//! the choice among the answers, and the limiter that spaces requests out.
//! The host performs the HTTP exchange, the JSON decoding and the sleeping.

use vstd::prelude::*;
use vstd::string::*;
use crate::model::AppError;
use crate::text::{trim, trimmed};

verus! {

/// Search endpoint of the geocoding service.
pub const NOMINATIM_SEARCH_URL: &'static str = "https://nominatim.openstreetmap.org/search";

/// Shortest gap between the starts of two requests, in milliseconds.
pub const NOMINATIM_MIN_INTERVAL_MS: u64 = 1000;

/// One answer of the search service.
#[derive(Debug)]
pub struct NominatimItem {
    pub lat: String,
    pub lon: String,
    pub display_name: String,
}

/// The address with surrounding white space removed; an address that is only
/// white space is refused before any request is made.
pub fn validate_address(address: &str) -> (r: Result<&str, AppError>)
    ensures
        match r {
            Ok(t) => t@ == trimmed(address@) && t@.len() > 0,
            Err(e) => trimmed(address@).len() == 0 && e.code@ == "errors.address.empty"@,
        },
{
    let t = trim(address);
    if t.unicode_len() == 0 {
        Err(AppError::new("errors.address.empty"))
    } else {
        Ok(t)
    }
}

pub open spec fn query_view(q: Seq<(String, String)>) -> Seq<(Seq<char>, Seq<char>)> {
    q.map_values(|p: (String, String)| (p.0@, p.1@))
}

/// The query of a search: the address, JSON output, one match, no address details.
pub fn nominatim_query(address: &str) -> (r: Vec<(String, String)>)
    ensures
        query_view(r@) == seq![
            ("q"@, address@),
            ("format"@, "jsonv2"@),
            ("limit"@, "1"@),
            ("addressdetails"@, "0"@),
        ],
{
    let mut q: Vec<(String, String)> = Vec::new();
    q.push((String::from_str("q"), String::from_str(address)));
    q.push((String::from_str("format"), String::from_str("jsonv2")));
    q.push((String::from_str("limit"), String::from_str("1")));
    q.push((String::from_str("addressdetails"), String::from_str("0")));
    assert(query_view(q@) =~= seq![
        ("q"@, address@),
        ("format"@, "jsonv2"@),
        ("limit"@, "1"@),
        ("addressdetails"@, "0"@),
    ]);
    q
}

/// The error for a response whose status is not a success, with the status and body.
pub fn http_failure(status: &str, body: &str) -> (r: AppError)
    ensures
        r.code@ == "errors.geocode.http_failed"@,
        r.param_view() == map!["status"@ => status@, "body"@ => body@],
{
    let e = AppError::new("errors.geocode.http_failed").with_param("status", status).with_param(
        "body",
        body,
    );
    assert(e.param_view() =~= map!["status"@ => status@, "body"@ => body@]);
    e
}

/// The first answer of the service; none is a not-found error naming the address.
pub fn first_match(address: &str, items: Vec<NominatimItem>) -> (r: Result<
    NominatimItem,
    AppError,
>)
    ensures
        match r {
            Ok(item) => items@.len() > 0 && item == items@[0],
            Err(e) => items@.len() == 0 && e.code@ == "errors.geocode.not_found"@
                && e.param_view() == map!["address"@ => address@],
        },
{
    if items.len() == 0 {
        let e = AppError::new("errors.geocode.not_found").with_param("address", address);
        assert(e.param_view() =~= map!["address"@ => address@]);
        return Err(e);
    }
    let mut items = items;
    Ok(items.swap_remove(0))
}

/// How long a request arriving at `now` waits, given the start of the previous one.
pub open spec fn permit_delay(last: Option<u64>, now: int) -> int {
    match last {
        None => 0,
        Some(l) => {
            let elapsed = if now > l {
                now - l
            } else {
                0
            };
            if elapsed < NOMINATIM_MIN_INTERVAL_MS {
                NOMINATIM_MIN_INTERVAL_MS - elapsed
            } else {
                0
            }
        },
    }
}

/// Spaces requests out: it remembers when the last one was let through.
/// Times are milliseconds of a monotonic clock.
#[derive(Debug)]
pub struct RateLimiter {
    pub last_request_ms: Option<u64>,
}

impl RateLimiter {
    pub fn new() -> (r: RateLimiter)
        ensures
            r.last_request_ms is None,
    {
        RateLimiter { last_request_ms: None }
    }

    /// The wait before a request that arrives at `now_ms` may start.
    pub fn delay_before(&self, now_ms: u64) -> (r: u64)
        ensures
            r == permit_delay(self.last_request_ms, now_ms as int),
            r <= NOMINATIM_MIN_INTERVAL_MS,
    {
        match self.last_request_ms {
            None => 0,
            Some(last) => {
                let elapsed = if now_ms > last {
                    now_ms - last
                } else {
                    0
                };
                if elapsed < NOMINATIM_MIN_INTERVAL_MS {
                    NOMINATIM_MIN_INTERVAL_MS - elapsed
                } else {
                    0
                }
            },
        }
    }

    /// Records that a request started at `started_ms`.
    pub fn record(&mut self, started_ms: u64)
        ensures
            final(self).last_request_ms == Some(started_ms),
    {
        self.last_request_ms = Some(started_ms);
    }
}

/// A run of requests through one limiter: request `k` arrived at `arrivals[k]`,
/// not before request `k - 1` started (the limiter is held while waiting), and
/// started at `starts[k]`, after waiting at least the limiter's delay.
pub open spec fn limited_run(arrivals: Seq<u64>, starts: Seq<u64>) -> bool {
    &&& arrivals.len() == starts.len()
    &&& forall|k: int|
        1 <= k < starts.len() ==> #[trigger] arrivals[k] >= starts[k - 1] && starts[k]
            >= arrivals[k] + permit_delay(Some(starts[k - 1]), arrivals[k] as int)
}

/// Requests through one limiter start at least the minimum interval apart, so
/// `n` of them span at least `n - 1` intervals.
pub proof fn lemma_requests_spaced(arrivals: Seq<u64>, starts: Seq<u64>)
    requires
        limited_run(arrivals, starts),
    ensures
        forall|k: int|
            1 <= k < starts.len() ==> #[trigger] starts[k] >= starts[k - 1]
                + NOMINATIM_MIN_INTERVAL_MS,
        starts.len() > 0 ==> starts[starts.len() - 1] >= starts[0] + (starts.len() - 1)
            * NOMINATIM_MIN_INTERVAL_MS,
    decreases starts.len(),
{
    assert forall|k: int| 1 <= k < starts.len() implies #[trigger] starts[k] >= starts[k - 1]
        + NOMINATIM_MIN_INTERVAL_MS by {
        assert(arrivals[k] >= starts[k - 1]);
    }
    if starts.len() > 1 {
        let n = starts.len();
        lemma_requests_spaced(arrivals.drop_last(), starts.drop_last());
        assert(starts.drop_last()[n - 2] == starts[n - 2]);
        assert(starts[n - 1] >= starts[n - 2] + NOMINATIM_MIN_INTERVAL_MS);
        assert(starts[n - 1] >= starts[0] + (n - 1) * NOMINATIM_MIN_INTERVAL_MS) by (
        nonlinear_arith)
            requires
                starts[n - 1] >= starts[n - 2] + NOMINATIM_MIN_INTERVAL_MS,
                starts[n - 2] >= starts[0] + (n - 2) * NOMINATIM_MIN_INTERVAL_MS,
        ;
    }
}

} // verus!
