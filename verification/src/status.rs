//! The HTTP statuses that the server answers with.

use vstd::prelude::*;

verus! {

/// A status.
#[derive(Debug, Clone, Copy, PartialEq, Eq, Structural)]
pub enum Status {
    Success,
    BadRequest,
    Unauthorized,
    NotFound,
    Conflict,
    PayloadTooLarge,
    InternalServerError,
}

impl Status {
    /// The number that stands for the status.
    pub open spec fn number(self) -> u16 {
        match self {
            Status::Success => 200,
            Status::BadRequest => 400,
            Status::Unauthorized => 401,
            Status::NotFound => 404,
            Status::Conflict => 409,
            Status::PayloadTooLarge => 413,
            Status::InternalServerError => 500,
        }
    }

    /// The number that stands for the status.
    pub fn code(self) -> (r: u16)
        ensures
            r == self.number(),
    {
        match self {
            Status::Success => 200,
            Status::BadRequest => 400,
            Status::Unauthorized => 401,
            Status::NotFound => 404,
            Status::Conflict => 409,
            Status::PayloadTooLarge => 413,
            Status::InternalServerError => 500,
        }
    }
}

} // verus!
