//! The name-availability resolver.
//!
//! One lookup sends a single GET request to the registry, bounded by a
//! timeout, and classifies what came back: the status code decides the
//! verdict, a timeout becomes a typed error, and every other transport
//! failure collapses to [`Availability::Unknown`].

use vstd::prelude::*;

use crate::encode::percent_encode;
use crate::encode::percent_encoded;
use crate::Availability;
use crate::Error;
use crate::DEFAULT_TIMEOUT_MS;

verus! {

/// What one registry lookup came back with, before classification.
#[derive(Clone, Copy, Debug, Eq, PartialEq, Structural)]
pub enum FetchOutcome {
    /// The registry answered with this HTTP status code.
    Status(u16),
    /// The request hit the configured timeout.
    TimedOut,
    /// The request failed below the HTTP layer for some other reason.
    Failed,
}

/// The verdict or error that one lookup outcome maps to: 200 means the name
/// is taken, 404 means it is free, 408 and a transport timeout surface as a
/// timeout error, and everything else is inconclusive.
pub open spec fn classification(o: FetchOutcome, timeout_ms: u64) -> Result<Availability, Error> {
    match o {
        FetchOutcome::Status(code) => {
            if code == 200 {
                Ok(Availability::Unavailable)
            } else if code == 404 {
                Ok(Availability::Available)
            } else if code == 408 {
                Err(Error::NetworkTimeout(timeout_ms))
            } else {
                Ok(Availability::Unknown)
            }
        },
        FetchOutcome::TimedOut => Err(Error::NetworkTimeout(timeout_ms)),
        FetchOutcome::Failed => Ok(Availability::Unknown),
    }
}

/// Classifies one lookup outcome. The mapping is total: every outcome yields
/// a verdict or a timeout error, never anything else.
pub fn classify_outcome(o: FetchOutcome, timeout_ms: u64) -> (r: Result<Availability, Error>)
    ensures
        r == classification(o, timeout_ms),
{
    match o {
        FetchOutcome::Status(code) => {
            if code == 200 {
                Ok(Availability::Unavailable)
            } else if code == 404 {
                Ok(Availability::Available)
            } else if code == 408 {
                Err(Error::NetworkTimeout(timeout_ms))
            } else {
                Ok(Availability::Unknown)
            }
        },
        FetchOutcome::TimedOut => Err(Error::NetworkTimeout(timeout_ms)),
        FetchOutcome::Failed => Ok(Availability::Unknown),
    }
}

/// Classification is closed: every outcome maps to one of the three
/// verdicts or to a timeout error carrying the given bound, and to nothing
/// else.
pub proof fn lemma_classification_total(o: FetchOutcome, timeout_ms: u64)
    ensures
        classification(o, timeout_ms) matches Ok(a) ==> (a == Availability::Available || a
            == Availability::Unavailable || a == Availability::Unknown),
        classification(o, timeout_ms) is Err ==> classification(o, timeout_ms) == Err::<
            Availability,
            Error,
        >(Error::NetworkTimeout(timeout_ms)),
{
}

/// The lookup URL for a name: the fixed registry endpoint with the name
/// percent-encoded into the final path segment.
pub open spec fn lookup_url_of(name: &str) -> Seq<char> {
    "https://crates.io/api/v1/crates/"@ + percent_encoded(vstd::utf8::encode_utf8(name@))
}

/// Builds the lookup URL for a name.
pub fn build_lookup_url(name: &str) -> (r: String)
    ensures
        r@ == lookup_url_of(name),
{
    let mut url = String::from_str("https://crates.io/api/v1/crates/");
    let bytes = name.as_bytes_vec();
    let segment = percent_encode(&bytes);
    url.append(segment.as_str());
    url
}

/// Relies on ureq: `Agent::config_builder` with `timeout_global` bounds the
/// whole request, `RequestBuilder::call` sends one GET, a 2xx/3xx answer
/// carries its status code, `ureq::Error::StatusCode` carries a 4xx/5xx code,
/// and `ureq::Error::Timeout` reports that the bound was hit. Nothing is
/// promised of the outcome: the registry and the network decide it.
#[verifier::external_body]
fn fetch_status(url: &str, timeout_ms: u64) -> FetchOutcome
    requires
        1 <= timeout_ms,
{
    let agent: ureq::Agent = ureq::Agent::config_builder()
        .timeout_global(Some(std::time::Duration::from_millis(timeout_ms)))
        .build()
        .new_agent();
    match agent.get(url).call() {
        Ok(resp) => FetchOutcome::Status(resp.status().as_u16()),
        Err(ureq::Error::StatusCode(code)) => FetchOutcome::Status(code),
        Err(ureq::Error::Timeout(_)) => FetchOutcome::TimedOut,
        Err(_) => FetchOutcome::Failed,
    }
}

/// Checks the availability of a crate name, stopping the lookup after the
/// given timeout in milliseconds.
///
/// An empty name is rejected before any network action, whatever the
/// timeout, even zero. A non-empty name needs a positive timeout and yields
/// a verdict, or a timeout error carrying the given bound; no other error
/// can come back for it.
pub fn check_availability_with_timeout(name: &str, timeout_ms: u64) -> (r: Result<
    Availability,
    Error,
>)
    requires
        name@.len() > 0 ==> 1 <= timeout_ms,
    ensures
        r == Err::<Availability, Error>(Error::EmptyCrateName) <==> name@.len() == 0,
        r is Err && name@.len() > 0 ==> r == Err::<Availability, Error>(
            Error::NetworkTimeout(timeout_ms),
        ),
{
    if name.is_empty() {
        return Err(Error::EmptyCrateName);
    }
    let url = build_lookup_url(name);
    let outcome = fetch_status(url.as_str(), timeout_ms);
    classify_outcome(outcome, timeout_ms)
}

/// Checks the availability of a crate name with the default five-second
/// timeout.
///
/// An empty name is rejected before any network action. A non-empty name
/// yields a verdict, or a timeout error carrying the default bound; no other
/// error can come back for it.
pub fn check_availability(name: &str) -> (r: Result<Availability, Error>)
    ensures
        r == Err::<Availability, Error>(Error::EmptyCrateName) <==> name@.len() == 0,
        r is Err && name@.len() > 0 ==> r == Err::<Availability, Error>(
            Error::NetworkTimeout(DEFAULT_TIMEOUT_MS),
        ),
{
    check_availability_with_timeout(name, DEFAULT_TIMEOUT_MS)
}

} // verus!
