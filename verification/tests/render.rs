use cargo_free::render_aligned;
use cargo_free::render_json;
use cargo_free::render_plain;
use cargo_free::render_structured;
use cargo_free::Availability;
use cargo_free::Error;
use cargo_free::LookupResult;

fn ok(name: &str, a: Availability) -> LookupResult {
    LookupResult {
        name: String::from(name),
        outcome: Ok(a),
    }
}

fn failed(name: &str, e: Error) -> LookupResult {
    LookupResult {
        name: String::from(name),
        outcome: Err(e),
    }
}

#[test]
fn single_success_renders_the_bare_verdict() {
    let results = vec![ok("a", Availability::Available)];
    let line = render_plain(&results).unwrap();
    assert_eq!(line.as_str(), "available");
}

#[test]
fn plain_mode_needs_exactly_one_success() {
    assert_eq!(render_plain(&Vec::new()), None);
    let one_failed = vec![failed("a", Error::NetworkTimeout(5000))];
    assert_eq!(render_plain(&one_failed), None);
    let two = vec![
        ok("a", Availability::Available),
        ok("b", Availability::Unknown),
    ];
    assert_eq!(render_plain(&two), None);
}

#[test]
fn aligned_lines_share_one_verdict_column() {
    let long = "this-crate-name-is-definitely-free-xyz123";
    let results = vec![
        ok("serde", Availability::Unavailable),
        ok(long, Availability::Available),
    ];
    let lines = render_aligned(&results);
    assert_eq!(lines.len(), 2);
    // The verdict column sits one character past the widest name.
    let width = long.chars().count() + 1;
    assert_eq!(lines[0].as_str(), format!("{:<w$}unavailable", "serde", w = width));
    assert_eq!(lines[1].as_str(), format!("{:<w$}available", long, w = width));
}

#[test]
fn aligned_output_omits_failures_but_keeps_order() {
    let results = vec![
        ok("first", Availability::Available),
        failed("second", Error::NetworkTimeout(5000)),
        ok("third", Availability::Unknown),
        failed("", Error::EmptyCrateName),
    ];
    let lines = render_aligned(&results);
    assert_eq!(lines.len(), 2);
    assert_eq!(lines[0].as_str(), "first  available");
    assert_eq!(lines[1].as_str(), "third  unknown");
}

#[test]
fn structured_records_keep_exactly_the_successes() {
    let results = vec![
        ok("one", Availability::Unavailable),
        failed("two", Error::NetworkTimeout(5000)),
        ok("three", Availability::Available),
    ];
    let records = render_structured(&results);
    assert_eq!(records.len(), 2);
    assert_eq!(records[0].name.as_str(), "one");
    assert_eq!(records[0].availability.as_str(), "unavailable");
    assert_eq!(records[1].name.as_str(), "three");
    assert_eq!(records[1].availability.as_str(), "available");
}

#[test]
fn json_output_is_valid_and_order_preserving() {
    let results = vec![
        ok("serde", Availability::Unavailable),
        failed("dropped", Error::NetworkTimeout(5000)),
        ok("this-crate-name-is-definitely-free-xyz123", Availability::Available),
    ];
    let text = render_json(&results);
    let value: serde_json::Value = serde_json::from_str(text.as_str()).unwrap();
    let items = value.as_array().unwrap();
    assert_eq!(items.len(), 2);
    assert_eq!(items[0]["crate"], "serde");
    assert_eq!(items[0]["availability"], "unavailable");
    assert_eq!(
        items[1]["crate"],
        "this-crate-name-is-definitely-free-xyz123"
    );
    assert_eq!(items[1]["availability"], "available");
}

#[test]
fn json_escapes_awkward_names() {
    let awkward = "we\"ird\\na\nme";
    let results = vec![ok(awkward, Availability::Unknown)];
    let text = render_json(&results);
    let value: serde_json::Value = serde_json::from_str(text.as_str()).unwrap();
    let items = value.as_array().unwrap();
    assert_eq!(items[0]["crate"].as_str().unwrap(), awkward);
    assert_eq!(items[0]["availability"], "unknown");
}

#[test]
fn empty_batch_renders_no_json_items() {
    let results: Vec<LookupResult> = Vec::new();
    assert_eq!(render_json(&results).as_str(), "[]");
}
