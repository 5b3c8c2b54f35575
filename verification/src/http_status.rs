//! The HTTP statuses with which the services answer a refused request.

use vstd::prelude::*;

verus! {

/// Status of an error answer.
#[derive(PartialEq, Eq, Structural, Clone, Copy, Debug)]
pub enum ResponseStatus {
    BadRequest,
    Forbidden,
    InternalServerError,
}

impl ResponseStatus {
    pub open spec fn spec_code(self) -> u16 {
        match self {
            ResponseStatus::BadRequest => 400,
            ResponseStatus::Forbidden => 403,
            ResponseStatus::InternalServerError => 500,
        }
    }

    /// The numeric HTTP status code.
    pub fn code(&self) -> (c: u16)
        ensures
            c == self.spec_code(),
    {
        match self {
            ResponseStatus::BadRequest => 400,
            ResponseStatus::Forbidden => 403,
            ResponseStatus::InternalServerError => 500,
        }
    }
}

} // verus!
