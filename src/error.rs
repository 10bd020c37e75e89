//! The ways a step of the resource can fail.
use vstd::prelude::*;

verus! {

/// Why a step of the resource could not be carried out.
#[derive(PartialEq, Eq, Debug)]
pub enum ResourceError {
    /// The source configuration or the step's params were not supplied.
    ConfigMissing,
    /// The operation needs an issue number and none was configured.
    NumberUnspecified,
    /// Creating an issue needs a non-empty title and none was given.
    TitleUnspecified,
    /// The tracker reported an issue state other than open or closed.
    UnrecognizedState,
    /// The call to the tracker failed; the text says why.
    RemoteCallFailed(String),
}

} // verus!
