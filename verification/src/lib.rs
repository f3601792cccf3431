//! Checks whether crate names are still free on the crates.io registry.
//!
//! The resolver turns one name into a bounded registry lookup and classifies
//! the outcome as an [`Availability`] verdict or a typed [`Error`]. The batch
//! layer runs the resolver over a list of names, keeping input order, and
//! renders the collected results as aligned text lines or as structured
//! records.

use vstd::prelude::*;

pub mod batch;
pub mod encode;
pub mod render;
pub mod resolver;
pub mod text;

pub use render::render_aligned;
pub use render::render_json;
pub use render::render_plain;
pub use render::render_structured;
pub use render::Record;

pub use batch::resolve_all;
pub use batch::BatchError;
pub use batch::LookupResult;
pub use resolver::build_lookup_url;
pub use resolver::check_availability;
pub use resolver::check_availability_with_timeout;
pub use resolver::classify_outcome;
pub use resolver::FetchOutcome;

verus! {

/// Lookups time out after five seconds unless a caller picks its own bound.
pub const DEFAULT_TIMEOUT_MS: u64 = 5000;

/// The crate's error type.
#[derive(Clone, Copy, Debug, Eq, PartialEq, Structural)]
pub enum Error {
    /// The crate name is empty; nothing was looked up.
    EmptyCrateName,
    /// The registry lookup did not finish within the bound, in milliseconds.
    NetworkTimeout(u64),
}

/// The text of an error: what went wrong, in one line.
pub open spec fn error_text(e: Error) -> Seq<char> {
    match e {
        Error::EmptyCrateName => "Crate name is empty"@,
        Error::NetworkTimeout(ms) => "API request to crates.io timed out after "@ + text::dec_digits(
            ms as nat,
        ) + "ms"@,
    }
}

impl Error {
    /// Renders the error as one line of text.
    pub fn message(&self) -> (r: String)
        ensures
            r@ == error_text(*self),
    {
        match self {
            Error::EmptyCrateName => String::from_str("Crate name is empty"),
            Error::NetworkTimeout(ms) => {
                let mut s = String::from_str("API request to crates.io timed out after ");
                text::push_decimal(&mut s, *ms);
                s.append("ms");
                proof {
                    assert(s@ =~= error_text(*self));
                }
                s
            },
        }
    }
}

/// The availability status of a crate name.
#[derive(Clone, Copy, Debug, Eq, Hash, PartialEq, Structural)]
pub enum Availability {
    /// The crate name is available.
    Available,
    /// The crate name is unavailable.
    Unavailable,
    /// The crate name can't be resolved.
    Unknown,
}

/// The canonical lowercase text of a verdict.
pub open spec fn availability_text(a: Availability) -> Seq<char> {
    match a {
        Availability::Available => "available"@,
        Availability::Unavailable => "unavailable"@,
        Availability::Unknown => "unknown"@,
    }
}

impl Availability {
    /// The canonical lowercase rendering of the verdict.
    pub fn render(&self) -> (r: String)
        ensures
            r@ == availability_text(*self),
    {
        match self {
            Availability::Available => String::from_str("available"),
            Availability::Unavailable => String::from_str("unavailable"),
            Availability::Unknown => String::from_str("unknown"),
        }
    }
}

} // verus!
