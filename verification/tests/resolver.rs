use cargo_free::build_lookup_url;
use cargo_free::check_availability_with_timeout;
use cargo_free::classify_outcome;
use cargo_free::Availability;
use cargo_free::Error;
use cargo_free::FetchOutcome;

#[test]
fn status_200_means_unavailable() {
    assert_eq!(
        classify_outcome(FetchOutcome::Status(200), 5000),
        Ok(Availability::Unavailable)
    );
}

#[test]
fn status_404_means_available() {
    assert_eq!(
        classify_outcome(FetchOutcome::Status(404), 5000),
        Ok(Availability::Available)
    );
}

#[test]
fn status_408_is_a_timeout_error() {
    assert_eq!(
        classify_outcome(FetchOutcome::Status(408), 250),
        Err(Error::NetworkTimeout(250))
    );
}

#[test]
fn other_statuses_are_unknown() {
    for code in [0u16, 100, 201, 301, 400, 403, 409, 429, 500, 502, 503] {
        assert_eq!(
            classify_outcome(FetchOutcome::Status(code), 5000),
            Ok(Availability::Unknown)
        );
    }
}

#[test]
fn transport_timeout_is_a_timeout_error() {
    assert_eq!(
        classify_outcome(FetchOutcome::TimedOut, 1),
        Err(Error::NetworkTimeout(1))
    );
}

#[test]
fn transport_failure_is_unknown() {
    assert_eq!(
        classify_outcome(FetchOutcome::Failed, 5000),
        Ok(Availability::Unknown)
    );
}

#[test]
fn empty_name_is_rejected_before_any_lookup() {
    assert_eq!(
        check_availability_with_timeout("", 5000),
        Err(Error::EmptyCrateName)
    );
    // An empty name never reaches the network, so even a zero timeout is fine.
    assert_eq!(
        check_availability_with_timeout("", 0),
        Err(Error::EmptyCrateName)
    );
}

#[test]
fn plain_name_keeps_its_url() {
    let url = build_lookup_url("serde");
    assert_eq!(url.as_str(), "https://crates.io/api/v1/crates/serde");
}

#[test]
fn unreserved_characters_stay_as_they_are() {
    let url = build_lookup_url("AZaz09-._~");
    assert_eq!(url.as_str(), "https://crates.io/api/v1/crates/AZaz09-._~");
}

#[test]
fn reserved_characters_are_percent_encoded() {
    let url = build_lookup_url("a/b c?");
    assert_eq!(url.as_str(), "https://crates.io/api/v1/crates/a%2Fb%20c%3F");
}

#[test]
fn multi_byte_characters_are_percent_encoded_bytewise() {
    // U+2764 is e2 9d a4 in UTF-8.
    let url = build_lookup_url("a\u{2764}b");
    assert_eq!(url.as_str(), "https://crates.io/api/v1/crates/a%E2%9D%A4b");
}

#[test]
fn verdicts_render_in_lowercase() {
    assert_eq!(Availability::Available.render().as_str(), "available");
    assert_eq!(Availability::Unavailable.render().as_str(), "unavailable");
    assert_eq!(Availability::Unknown.render().as_str(), "unknown");
}

#[test]
fn errors_render_their_message() {
    assert_eq!(Error::EmptyCrateName.message().as_str(), "Crate name is empty");
    assert_eq!(
        Error::NetworkTimeout(5000).message().as_str(),
        "API request to crates.io timed out after 5000ms"
    );
    assert_eq!(
        Error::NetworkTimeout(0).message().as_str(),
        "API request to crates.io timed out after 0ms"
    );
}
