use vstd::prelude::*;

verus! {

/// The HTTP status with which the server answers a request.
#[derive(PartialEq, Eq, Structural, Clone, Copy, Debug)]
pub enum Status {
    Success,
    Created,
    NoContent,
    Unauthorized,
    Conflict,
    InternalServerError,
    /// The server cannot answer for now: a resource of the machine it needs,
    /// such as its random source, failed.
    ServiceUnavailable,
}

/// The numeric HTTP code of a status.
pub open spec fn status_code(status: Status) -> u16 {
    match status {
        Status::Success => 200,
        Status::Created => 201,
        Status::NoContent => 204,
        Status::Unauthorized => 401,
        Status::Conflict => 409,
        Status::InternalServerError => 500,
        Status::ServiceUnavailable => 503,
    }
}

impl Status {
    /// The numeric HTTP code of this status.
    pub fn code(&self) -> (code: u16)
        ensures
            code == status_code(*self),
    {
        match self {
            Status::Success => 200,
            Status::Created => 201,
            Status::NoContent => 204,
            Status::Unauthorized => 401,
            Status::Conflict => 409,
            Status::InternalServerError => 500,
            Status::ServiceUnavailable => 503,
        }
    }

    /// Whether this status reports success (a 2xx code).
    pub fn is_success(&self) -> (ok: bool)
        ensures
            ok == (200 <= status_code(*self) < 300),
    {
        match self {
            Status::Success | Status::Created | Status::NoContent => true,
            _ => false,
        }
    }
}

} // verus!
