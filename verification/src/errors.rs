use vstd::prelude::*;

verus! {

/// The failures an invocation can end with, one variant per failing step.
#[derive(Clone, Copy, Debug, PartialEq, Eq, Structural)]
pub enum ChefError {
    /// The persistent store could not be created, opened or queried.
    StoreUnavailable,
    /// No record with the requested ID exists; carries that ID.
    NotFound(i64),
    /// A record exists but a required field is absent or not text.
    StoreCorrupt,
    /// The input bytes are not valid UTF-8 text.
    InvalidInput,
    /// The remote server answered with a non-success status; carries the code.
    RequestFailed(u16),
    /// The response body is not a JSON object carrying a `value` field.
    MalformedResponse,
}

} // verus!
