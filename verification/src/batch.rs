//! The batch runner: one independent lookup per name, in input order.

use vstd::prelude::*;

use crate::resolver::check_availability_with_timeout;
use crate::Availability;
use crate::Error;

verus! {

/// One name paired with what its lookup produced.
#[derive(Debug, Eq, PartialEq)]
pub struct LookupResult {
    /// The name as it was supplied.
    pub name: String,
    /// The verdict, or the typed failure of this one lookup.
    pub outcome: Result<Availability, Error>,
}

/// The batch-level failure: it is distinct from any per-name failure.
#[derive(Clone, Copy, Debug, Eq, PartialEq, Structural)]
pub enum BatchError {
    /// No names were supplied, so there was nothing to look up.
    NoNames,
}

/// What one batch entry may hold: the empty-name error exactly for an empty
/// name, and otherwise a verdict or a timeout error carrying the batch's
/// timeout bound.
pub open spec fn entry_consistent(
    name: Seq<char>,
    timeout_ms: u64,
    outcome: Result<Availability, Error>,
) -> bool {
    &&& outcome == Err::<Availability, Error>(Error::EmptyCrateName) <==> name.len() == 0
    &&& outcome is Err && name.len() > 0 ==> outcome == Err::<Availability, Error>(
        Error::NetworkTimeout(timeout_ms),
    )
}

/// Resolves every name in the batch, in input order.
///
/// Zero names is a distinct, reportable condition and no lookup happens.
/// Otherwise every name is looked up independently: one name's failure never
/// prevents the lookup of any later name, and each entry keeps its name and
/// holds an outcome consistent with it.
pub fn resolve_all(names: &Vec<String>, timeout_ms: u64) -> (r: Result<
    Vec<LookupResult>,
    BatchError,
>)
    requires
        1 <= timeout_ms,
    ensures
        r is Err <==> names@.len() == 0,
        r matches Ok(rs) ==> {
            &&& rs@.len() == names@.len()
            &&& forall|i: int|
                0 <= i < rs@.len() ==> (#[trigger] rs@[i]).name@ == names@[i]@
            &&& forall|i: int|
                0 <= i < rs@.len() ==> entry_consistent(
                    (#[trigger] rs@[i]).name@,
                    timeout_ms,
                    rs@[i].outcome,
                )
        },
{
    if names.len() == 0 {
        return Err(BatchError::NoNames);
    }
    let mut results: Vec<LookupResult> = Vec::new();
    let mut i: usize = 0;
    while i < names.len()
        invariant
            1 <= timeout_ms,
            i <= names@.len(),
            results@.len() == i,
            forall|j: int| 0 <= j < i ==> (#[trigger] results@[j]).name@ == names@[j]@,
            forall|j: int|
                0 <= j < i ==> entry_consistent(
                    (#[trigger] results@[j]).name@,
                    timeout_ms,
                    results@[j].outcome,
                ),
        decreases names@.len() - i,
    {
        let name = names[i].clone();
        let outcome = check_availability_with_timeout(name.as_str(), timeout_ms);
        results.push(LookupResult { name, outcome });
        i += 1;
    }
    Ok(results)
}

} // verus!
