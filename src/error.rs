use vstd::prelude::*;

use reqwest::Error as HttpError;

verus! {

/// A transport failure of the HTTP client, carried as it came.
#[verifier::external_type_specification]
#[verifier::external_body]
pub struct ExHttpError(HttpError);

/// The failures of a request to the remote service.
#[derive(Debug)]
pub enum Error {
    /// The HTTP client could not send the request or read the response.
    InternalClientError(HttpError),
    /// The service answered in an unexpected way.
    InternalServerError,
    /// The requested resource does not exist.
    NotFound,
    /// The token was refused.
    Unauthorized,
    /// Too many requests; the service asks to wait this many seconds.
    Ratelimit { retry_after: u16 },
}

pub type Result<T> = core::result::Result<T, Error>;

/// Whether an HTTP status code is a success (the 2xx range).
pub open spec fn is_success(status: u16) -> bool {
    200 <= status <= 299
}

/// What a response with this status means. `retry_after` is the wait that a
/// rate-limit answer's body gives, if it could be read.
pub open spec fn status_outcome(status: u16, retry_after: Option<u16>) -> Result<()> {
    if is_success(status) {
        Ok(())
    } else if status == 401 {
        Err(Error::Unauthorized)
    } else if status == 404 {
        Err(Error::NotFound)
    } else if status == 429 {
        match retry_after {
            Some(secs) => Err(Error::Ratelimit { retry_after: secs }),
            None => Err(Error::InternalServerError),
        }
    } else {
        Err(Error::InternalServerError)
    }
}

/// Turns the status of a response (and, for a rate-limit answer, the wait read
/// from its body) into the request's outcome.
pub fn error_for_status(status: u16, retry_after: Option<u16>) -> (r: Result<()>)
    ensures
        r == status_outcome(status, retry_after),
{
    if 200 <= status && status <= 299 {
        Ok(())
    } else if status == 401 {
        Err(Error::Unauthorized)
    } else if status == 404 {
        Err(Error::NotFound)
    } else if status == 429 {
        match retry_after {
            Some(secs) => Err(Error::Ratelimit { retry_after: secs }),
            None => Err(Error::InternalServerError),
        }
    } else {
        Err(Error::InternalServerError)
    }
}

impl Error {
    /// The wait that a rate-limit error asks for.
    pub fn retry_after(&self) -> (r: Option<u16>)
        ensures
            r == match *self {
                Error::Ratelimit { retry_after } => Some(retry_after),
                _ => None,
            },
    {
        match self {
            Error::Ratelimit { retry_after } => Some(*retry_after),
            _ => None,
        }
    }
}

} // verus!
