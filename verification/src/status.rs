use vstd::prelude::*;

verus! {

/// The HTTP statuses the service answers with.
#[derive(Clone, Copy, Debug, PartialEq, Eq, Structural)]
pub enum StatusCode {
    Success,
    Created,
    Unauthorized,
    Conflict,
    UnprocessableEntity,
    InternalServerError,
}

impl StatusCode {
    /// The numeric HTTP status.
    pub open spec fn numeric(self) -> u16 {
        match self {
            StatusCode::Success => 200,
            StatusCode::Created => 201,
            StatusCode::Unauthorized => 401,
            StatusCode::Conflict => 409,
            StatusCode::UnprocessableEntity => 422,
            StatusCode::InternalServerError => 500,
        }
    }

    /// The numeric HTTP status, as sent on the wire.
    pub fn as_u16(&self) -> (code: u16)
        ensures
            code == self.numeric(),
    {
        match self {
            StatusCode::Success => 200,
            StatusCode::Created => 201,
            StatusCode::Unauthorized => 401,
            StatusCode::Conflict => 409,
            StatusCode::UnprocessableEntity => 422,
            StatusCode::InternalServerError => 500,
        }
    }
}

} // verus!
