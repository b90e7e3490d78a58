use vstd::prelude::*;
use crate::status::Status;
use crate::status::StatusError;

verus! {

/// The error returned by every operation on a runtime resource.
#[derive(PartialEq, Eq, Structural, Debug)]
pub enum RuntimeError {
    /// The native entry point reported a failure status.
    StatusError(StatusError),
}

/// Routes the raw status returned by a native entry point into a result:
/// `Ok` exactly on the success sentinel, otherwise the failure it carries.
pub fn check_status(raw: usize) -> (r: Result<(), RuntimeError>)
    ensures
        r is Ok <==> raw == 0,
        r matches Err(RuntimeError::StatusError(e)) ==> e.status.raw_value() == raw,
{
    match Status::from_raw(raw).to_result() {
        Ok(()) => Ok(()),
        Err(e) => Err(RuntimeError::StatusError(e)),
    }
}

} // verus!
