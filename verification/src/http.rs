//! HTTP status codes that the service answers with.
use vstd::prelude::*;

verus! {

/// The status codes the handlers of this service produce.
#[allow(non_camel_case_types)]
#[derive(Clone, Copy, Debug, PartialEq, Eq, Structural)]
pub enum StatusCode {
    OK,
    CREATED,
    BAD_REQUEST,
    UNAUTHORIZED,
    FORBIDDEN,
    NOT_FOUND,
    CONFLICT,
    INTERNAL_SERVER_ERROR,
}

impl StatusCode {
    /// The numeric code of the status, as sent on the wire.
    pub open spec fn spec_code(self) -> u16 {
        match self {
            StatusCode::OK => 200,
            StatusCode::CREATED => 201,
            StatusCode::BAD_REQUEST => 400,
            StatusCode::UNAUTHORIZED => 401,
            StatusCode::FORBIDDEN => 403,
            StatusCode::NOT_FOUND => 404,
            StatusCode::CONFLICT => 409,
            StatusCode::INTERNAL_SERVER_ERROR => 500,
        }
    }

    /// The numeric code of the status.
    pub fn as_u16(&self) -> (code: u16)
        ensures
            code == self.spec_code(),
    {
        match self {
            StatusCode::OK => 200,
            StatusCode::CREATED => 201,
            StatusCode::BAD_REQUEST => 400,
            StatusCode::UNAUTHORIZED => 401,
            StatusCode::FORBIDDEN => 403,
            StatusCode::NOT_FOUND => 404,
            StatusCode::CONFLICT => 409,
            StatusCode::INTERNAL_SERVER_ERROR => 500,
        }
    }
}

} // verus!
