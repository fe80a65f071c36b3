//! The background worker of a file-sharing front end: the shared record that
//! the interface polls, the aggregation of transfer progress, and the
//! decisions the worker takes on each request and on each outcome.

use std::path::PathBuf;
use vstd::prelude::*;

pub mod errors;
pub mod form;
pub mod history;
pub mod progress;
pub mod state;
pub mod ticket;
pub mod worker;

verus! {

/// The path type of the standard library, carried through unopened.
#[verifier::external_type_specification]
#[verifier::external_body]
pub struct ExPathBuf(PathBuf);

/// The resource directory of the application bundle that the program runs
/// from. Only macOS has such bundles, and reading one takes the system's own
/// bundle interface, so from within this library there is none to report.
pub fn macos_resource_path() -> (r: Option<PathBuf>)
    ensures
        r.is_none(),
{
    None
}

} // verus!
