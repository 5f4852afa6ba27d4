use vstd::prelude::*;

use crate::catalog::Error;
use crate::catalog::HttpCat;

verus! {

/// Declares the `http` crate's status type so that the conversion below can
/// take it; a value of it is opaque here.
#[verifier::external_type_specification]
#[verifier::external_body]
pub struct ExStatusCode(http::StatusCode);

/// Declares the `rocket` crate's status type likewise.
#[verifier::external_type_specification]
#[verifier::external_body]
pub struct ExRocketStatus(rocket::http::Status);

/// The numeric code that a status of the `http` crate stands for: a name for
/// the result of `http::StatusCode::as_u16`, which depends on the status
/// alone.
pub uninterp spec fn http_status_u16(s: http::StatusCode) -> u16;

/// Relies on http::StatusCode::as_u16: yields the numeric code that the
/// status stands for.
pub assume_specification[ http::StatusCode::as_u16 ](s: &http::StatusCode) -> (r: u16)
    ensures
        r == http_status_u16(*s),
;

/// The numeric code that a status of the `rocket` crate carries: a name for
/// its public `code` field.
pub uninterp spec fn rocket_status_u16(s: rocket::http::Status) -> u16;

/// Relies on the public `code` field of rocket::http::Status: the numeric
/// code that the status carries.
#[verifier::external_body]
fn rocket_status_code(status: rocket::http::Status) -> (r: u16)
    ensures
        r == rocket_status_u16(status),
{
    status.code
}

impl HttpCat {
    /// Converts the `http` crate's status type into a catalog entry by
    /// extracting its numeric code and delegating to `try_from`; the bridge
    /// adds no semantics of its own.
    pub fn from_http_status(value: http::StatusCode) -> (r: Result<HttpCat, Error>)
        ensures
            r == HttpCat::lookup_result(http_status_u16(value)),
            r matches Ok(e) ==> e.code() == http_status_u16(value),
            r matches Err(err) ==> err == Error::UnknownStatusCode(http_status_u16(value)),
    {
        let code: u16 = value.as_u16();
        Self::try_from(code)
    }

    /// Converts the `rocket` crate's status type into a catalog entry the
    /// same way.
    pub fn from_rocket_status(value: rocket::http::Status) -> (r: Result<HttpCat, Error>)
        ensures
            r == HttpCat::lookup_result(rocket_status_u16(value)),
            r matches Ok(e) ==> e.code() == rocket_status_u16(value),
            r matches Err(err) ==> err == Error::UnknownStatusCode(rocket_status_u16(value)),
    {
        let code: u16 = rocket_status_code(value);
        Self::try_from(code)
    }
}

} // verus!
