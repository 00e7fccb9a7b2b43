//! The library documentation service, which is not wired in: both of its
//! operations answer a failure in the usual envelope.

use vstd::prelude::*;
use vstd::string::*;
use crate::ai::types::{Context7DocsResult, Context7LibraryResult};
use crate::types::TauriResult;

verus! {

/// What both operations answer.
pub open spec fn not_implemented() -> Seq<char> {
    "Context7 integration not yet implemented"@
}

/// Looks a library up by name.
pub fn resolve_library_id(library_name: &str) -> (r: TauriResult<Vec<Context7LibraryResult>>)
    ensures
        r.well_formed(),
        r.is_error(not_implemented()),
{
    TauriResult::error("Context7 integration not yet implemented")
}

/// Fetches the documentation of a library.
pub fn get_library_docs(library_id: &str, topic: Option<&str>, tokens: Option<u32>) -> (r:
    TauriResult<Context7DocsResult>)
    ensures
        r.well_formed(),
        r.is_error(not_implemented()),
{
    TauriResult::error("Context7 integration not yet implemented")
}

} // verus!
