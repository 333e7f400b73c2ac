use vstd::prelude::*;

use crate::status::StatusCode;

verus! {

/// The health check always answers `200 OK`.
pub fn health() -> (status: StatusCode)
    ensures
        status == StatusCode::Success,
{
    StatusCode::Success
}

} // verus!
