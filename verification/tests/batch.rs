use cargo_free::check_availability;
use cargo_free::resolve_all;
use cargo_free::Availability;
use cargo_free::BatchError;
use cargo_free::Error;

#[test]
fn empty_batch_is_a_distinct_condition() {
    let names: Vec<String> = Vec::new();
    assert_eq!(resolve_all(&names, 5000), Err(BatchError::NoNames));
}

#[test]
fn empty_names_fail_without_stopping_the_batch() {
    // Empty names never reach the network, so this batch is fully local.
    let names = vec![String::new(), String::new(), String::new()];
    let results = resolve_all(&names, 5000).unwrap();
    assert_eq!(results.len(), 3);
    for entry in &results {
        assert_eq!(entry.name.as_str(), "");
        assert_eq!(entry.outcome, Err(Error::EmptyCrateName));
    }
}

#[test]
fn one_failure_leaves_the_other_entries_alone() {
    // The middle name is empty and fails locally; the others go through a
    // real lookup whose outcome depends on the network, but can only be a
    // verdict or a timeout, never the empty-name error.
    let names = vec![String::from("a"), String::new(), String::from("b")];
    let timeout: u64 = 1000;
    let results = resolve_all(&names, timeout).unwrap();
    assert_eq!(results.len(), 3);
    assert_eq!(results[0].name.as_str(), "a");
    assert_eq!(results[1].name.as_str(), "");
    assert_eq!(results[2].name.as_str(), "b");
    assert_eq!(results[1].outcome, Err(Error::EmptyCrateName));
    for entry in [&results[0], &results[2]] {
        match &entry.outcome {
            Ok(a) => assert!(matches!(
                a,
                Availability::Available | Availability::Unavailable | Availability::Unknown
            )),
            Err(e) => assert_eq!(*e, Error::NetworkTimeout(timeout)),
        }
    }
}

#[test]
fn default_lookup_rejects_the_empty_name() {
    assert_eq!(check_availability(""), Err(Error::EmptyCrateName));
}

#[test]
fn lookup_with_tight_timeout_is_a_verdict_or_a_timeout() {
    // The outcome depends on the network, but the error taxonomy is closed:
    // a non-empty name can only yield a verdict or this timeout error.
    let timeout: u64 = 1;
    match cargo_free::check_availability_with_timeout("serde", timeout) {
        Ok(a) => assert!(matches!(
            a,
            Availability::Available | Availability::Unavailable | Availability::Unknown
        )),
        Err(e) => assert_eq!(e, Error::NetworkTimeout(timeout)),
    }
}
