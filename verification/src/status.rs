//! The ways in which a request can be turned down.

use vstd::prelude::*;

verus! {

/// Why a request was not answered with a certificate.
#[derive(Clone, Copy, Debug, PartialEq, Eq, Structural)]
pub enum HttpError {
    /// The request itself is at fault: wrong media type, malformed request,
    /// bad signature, unknown extension, evidence that does not hold.
    BadRequest,
    /// The request is well formed but nothing in it attests its origin.
    Unauthorized,
    /// Issuance failed on the service's side.
    InternalServerError,
}

impl HttpError {
    /// The status code that stands for this error.
    pub open spec fn spec_code(self) -> u16 {
        match self {
            HttpError::BadRequest => 400,
            HttpError::Unauthorized => 401,
            HttpError::InternalServerError => 500,
        }
    }

    /// The status code that stands for this error.
    #[verifier::when_used_as_spec(spec_code)]
    pub fn code(self) -> (code: u16)
        ensures
            code == self.spec_code(),
    {
        match self {
            HttpError::BadRequest => 400,
            HttpError::Unauthorized => 401,
            HttpError::InternalServerError => 500,
        }
    }
}

/// The status code of an answer: 200 for a body, the error's code otherwise.
pub open spec fn status_of(answer: Result<Seq<u8>, HttpError>) -> u16 {
    match answer {
        Ok(_) => 200,
        Err(e) => e.spec_code(),
    }
}

} // verus!
