use vstd::prelude::*;

verus! {

/// The closed catalog of recognized HTTP status codes, one entry per code.
///
/// Every entry carries a fixed numeric value in the range 100..=599; the
/// mapping between entries and values is bijective, which `lemma_from_code_of_code`
/// and `lemma_code_injective` state and prove.
#[derive(Clone, Copy, Debug, PartialEq, Eq, Structural)]
pub enum HttpCat {
    Continue,
    SwitchingProtocols,
    Processing,
    EarlyHints,
    OK,
    Created,
    Accepted,
    NonAuthoritativeInformation,
    NoContent,
    ResetContent,
    PartialContent,
    MultiStatus,
    AlreadyReported,
    ImUsed,
    MultipleChoices,
    MovedPermanently,
    Found,
    SeeOther,
    NotModified,
    UseProxy,
    TemporaryRedirect,
    PermanentRedirect,
    BadRequest,
    Unauthorized,
    PaymentRequired,
    Forbidden,
    NotFound,
    MethodNotAllowed,
    NotAcceptable,
    ProxyAuthenticationRequired,
    RequestTimeout,
    Conflict,
    Gone,
    LengthRequired,
    PreconditionFailed,
    PayloadTooLarge,
    RequestUriTooLong,
    UnsupportedMediaType,
    RequestRangeNotSatisfiable,
    ExpectationFailed,
    ImATeapot,
    EnhanceYourCalm,
    MisdirectedRequest,
    UnprocessableEntity,
    Locked,
    FailedDependency,
    TooEarly,
    UpgradeRequired,
    PreconditionRequired,
    TooManyRequests,
    RequestHeaderFieldsTooLarge,
    NoResponse,
    BlockedByWindowsParentalControls,
    UnavailableForLegalReasons,
    HttpRequestSentToHttpsPort,
    TokenExpiredInvalid,
    ClientClosedRequest,
    InternalServerError,
    NotImplemented,
    BadGateway,
    ServiceUnavailable,
    GatewayTimeout,
    VariantAlsoNegotiates,
    InsufficientStorage,
    LoopDetected,
    BandwidthLimitExceeded,
    NotExtended,
    NetworkAuthenticationRequired,
    WebServerIsDown,
    ConnectionTimedOut,
    OriginIsUnreachable,
    SslHandshakeFailed,
    SiteFrozen,
    NetworkConnectTimeoutError,
}

/// Every way a library operation can fail.
#[derive(Clone, Debug, PartialEq, Eq)]
pub enum Error {
    /// The numeric value matches no catalog entry; carries the offending value.
    UnknownStatusCode(u16),
    /// A network-layer failure while fetching an image; carries a description.
    Transport(String),
    /// The fetched bytes are not a decodable JPEG image; carries a description.
    Decode(String),
}

impl HttpCat {
    /// The numeric HTTP status code that this catalog entry stands for.
    pub open spec fn code(self) -> u16 {
        match self {
            HttpCat::Continue => 100,
            HttpCat::SwitchingProtocols => 101,
            HttpCat::Processing => 102,
            HttpCat::EarlyHints => 103,
            HttpCat::OK => 200,
            HttpCat::Created => 201,
            HttpCat::Accepted => 202,
            HttpCat::NonAuthoritativeInformation => 203,
            HttpCat::NoContent => 204,
            HttpCat::ResetContent => 205,
            HttpCat::PartialContent => 206,
            HttpCat::MultiStatus => 207,
            HttpCat::AlreadyReported => 208,
            HttpCat::ImUsed => 226,
            HttpCat::MultipleChoices => 300,
            HttpCat::MovedPermanently => 301,
            HttpCat::Found => 302,
            HttpCat::SeeOther => 303,
            HttpCat::NotModified => 304,
            HttpCat::UseProxy => 305,
            HttpCat::TemporaryRedirect => 306,
            HttpCat::PermanentRedirect => 307,
            HttpCat::BadRequest => 400,
            HttpCat::Unauthorized => 401,
            HttpCat::PaymentRequired => 402,
            HttpCat::Forbidden => 403,
            HttpCat::NotFound => 404,
            HttpCat::MethodNotAllowed => 405,
            HttpCat::NotAcceptable => 406,
            HttpCat::ProxyAuthenticationRequired => 407,
            HttpCat::RequestTimeout => 408,
            HttpCat::Conflict => 409,
            HttpCat::Gone => 410,
            HttpCat::LengthRequired => 411,
            HttpCat::PreconditionFailed => 412,
            HttpCat::PayloadTooLarge => 413,
            HttpCat::RequestUriTooLong => 414,
            HttpCat::UnsupportedMediaType => 415,
            HttpCat::RequestRangeNotSatisfiable => 416,
            HttpCat::ExpectationFailed => 417,
            HttpCat::ImATeapot => 418,
            HttpCat::EnhanceYourCalm => 420,
            HttpCat::MisdirectedRequest => 421,
            HttpCat::UnprocessableEntity => 422,
            HttpCat::Locked => 423,
            HttpCat::FailedDependency => 424,
            HttpCat::TooEarly => 425,
            HttpCat::UpgradeRequired => 426,
            HttpCat::PreconditionRequired => 428,
            HttpCat::TooManyRequests => 429,
            HttpCat::RequestHeaderFieldsTooLarge => 431,
            HttpCat::NoResponse => 444,
            HttpCat::BlockedByWindowsParentalControls => 450,
            HttpCat::UnavailableForLegalReasons => 451,
            HttpCat::HttpRequestSentToHttpsPort => 497,
            HttpCat::TokenExpiredInvalid => 498,
            HttpCat::ClientClosedRequest => 499,
            HttpCat::InternalServerError => 500,
            HttpCat::NotImplemented => 501,
            HttpCat::BadGateway => 502,
            HttpCat::ServiceUnavailable => 503,
            HttpCat::GatewayTimeout => 504,
            HttpCat::VariantAlsoNegotiates => 506,
            HttpCat::InsufficientStorage => 507,
            HttpCat::LoopDetected => 508,
            HttpCat::BandwidthLimitExceeded => 509,
            HttpCat::NotExtended => 510,
            HttpCat::NetworkAuthenticationRequired => 511,
            HttpCat::WebServerIsDown => 521,
            HttpCat::ConnectionTimedOut => 522,
            HttpCat::OriginIsUnreachable => 523,
            HttpCat::SslHandshakeFailed => 525,
            HttpCat::SiteFrozen => 530,
            HttpCat::NetworkConnectTimeoutError => 599,
        }
    }

    /// The catalog entry whose code is `v`, if any.
    pub open spec fn entry_of_code(v: u16) -> Option<HttpCat> {
        if v == 100 {
            Some(HttpCat::Continue)
        } else if v == 101 {
            Some(HttpCat::SwitchingProtocols)
        } else if v == 102 {
            Some(HttpCat::Processing)
        } else if v == 103 {
            Some(HttpCat::EarlyHints)
        } else if v == 200 {
            Some(HttpCat::OK)
        } else if v == 201 {
            Some(HttpCat::Created)
        } else if v == 202 {
            Some(HttpCat::Accepted)
        } else if v == 203 {
            Some(HttpCat::NonAuthoritativeInformation)
        } else if v == 204 {
            Some(HttpCat::NoContent)
        } else if v == 205 {
            Some(HttpCat::ResetContent)
        } else if v == 206 {
            Some(HttpCat::PartialContent)
        } else if v == 207 {
            Some(HttpCat::MultiStatus)
        } else if v == 208 {
            Some(HttpCat::AlreadyReported)
        } else if v == 226 {
            Some(HttpCat::ImUsed)
        } else if v == 300 {
            Some(HttpCat::MultipleChoices)
        } else if v == 301 {
            Some(HttpCat::MovedPermanently)
        } else if v == 302 {
            Some(HttpCat::Found)
        } else if v == 303 {
            Some(HttpCat::SeeOther)
        } else if v == 304 {
            Some(HttpCat::NotModified)
        } else if v == 305 {
            Some(HttpCat::UseProxy)
        } else if v == 306 {
            Some(HttpCat::TemporaryRedirect)
        } else if v == 307 {
            Some(HttpCat::PermanentRedirect)
        } else if v == 400 {
            Some(HttpCat::BadRequest)
        } else if v == 401 {
            Some(HttpCat::Unauthorized)
        } else if v == 402 {
            Some(HttpCat::PaymentRequired)
        } else if v == 403 {
            Some(HttpCat::Forbidden)
        } else if v == 404 {
            Some(HttpCat::NotFound)
        } else if v == 405 {
            Some(HttpCat::MethodNotAllowed)
        } else if v == 406 {
            Some(HttpCat::NotAcceptable)
        } else if v == 407 {
            Some(HttpCat::ProxyAuthenticationRequired)
        } else if v == 408 {
            Some(HttpCat::RequestTimeout)
        } else if v == 409 {
            Some(HttpCat::Conflict)
        } else if v == 410 {
            Some(HttpCat::Gone)
        } else if v == 411 {
            Some(HttpCat::LengthRequired)
        } else if v == 412 {
            Some(HttpCat::PreconditionFailed)
        } else if v == 413 {
            Some(HttpCat::PayloadTooLarge)
        } else if v == 414 {
            Some(HttpCat::RequestUriTooLong)
        } else if v == 415 {
            Some(HttpCat::UnsupportedMediaType)
        } else if v == 416 {
            Some(HttpCat::RequestRangeNotSatisfiable)
        } else if v == 417 {
            Some(HttpCat::ExpectationFailed)
        } else if v == 418 {
            Some(HttpCat::ImATeapot)
        } else if v == 420 {
            Some(HttpCat::EnhanceYourCalm)
        } else if v == 421 {
            Some(HttpCat::MisdirectedRequest)
        } else if v == 422 {
            Some(HttpCat::UnprocessableEntity)
        } else if v == 423 {
            Some(HttpCat::Locked)
        } else if v == 424 {
            Some(HttpCat::FailedDependency)
        } else if v == 425 {
            Some(HttpCat::TooEarly)
        } else if v == 426 {
            Some(HttpCat::UpgradeRequired)
        } else if v == 428 {
            Some(HttpCat::PreconditionRequired)
        } else if v == 429 {
            Some(HttpCat::TooManyRequests)
        } else if v == 431 {
            Some(HttpCat::RequestHeaderFieldsTooLarge)
        } else if v == 444 {
            Some(HttpCat::NoResponse)
        } else if v == 450 {
            Some(HttpCat::BlockedByWindowsParentalControls)
        } else if v == 451 {
            Some(HttpCat::UnavailableForLegalReasons)
        } else if v == 497 {
            Some(HttpCat::HttpRequestSentToHttpsPort)
        } else if v == 498 {
            Some(HttpCat::TokenExpiredInvalid)
        } else if v == 499 {
            Some(HttpCat::ClientClosedRequest)
        } else if v == 500 {
            Some(HttpCat::InternalServerError)
        } else if v == 501 {
            Some(HttpCat::NotImplemented)
        } else if v == 502 {
            Some(HttpCat::BadGateway)
        } else if v == 503 {
            Some(HttpCat::ServiceUnavailable)
        } else if v == 504 {
            Some(HttpCat::GatewayTimeout)
        } else if v == 506 {
            Some(HttpCat::VariantAlsoNegotiates)
        } else if v == 507 {
            Some(HttpCat::InsufficientStorage)
        } else if v == 508 {
            Some(HttpCat::LoopDetected)
        } else if v == 509 {
            Some(HttpCat::BandwidthLimitExceeded)
        } else if v == 510 {
            Some(HttpCat::NotExtended)
        } else if v == 511 {
            Some(HttpCat::NetworkAuthenticationRequired)
        } else if v == 521 {
            Some(HttpCat::WebServerIsDown)
        } else if v == 522 {
            Some(HttpCat::ConnectionTimedOut)
        } else if v == 523 {
            Some(HttpCat::OriginIsUnreachable)
        } else if v == 525 {
            Some(HttpCat::SslHandshakeFailed)
        } else if v == 530 {
            Some(HttpCat::SiteFrozen)
        } else if v == 599 {
            Some(HttpCat::NetworkConnectTimeoutError)
        } else {
            None
        }
    }

    /// What `try_from` returns on `v`: the matching entry, or the value
    /// wrapped in `Error::UnknownStatusCode`.
    pub open spec fn lookup_result(v: u16) -> Result<HttpCat, Error> {
        match Self::entry_of_code(v) {
            Some(e) => Ok(e),
            None => Err(Error::UnknownStatusCode(v)),
        }
    }

    /// Projects a catalog entry to its numeric status code. Total; never fails.
    pub fn to_code(self) -> (r: u16)
        ensures
            r == self.code(),
            100 <= r <= 599,
    {
        match self {
            HttpCat::Continue => 100,
            HttpCat::SwitchingProtocols => 101,
            HttpCat::Processing => 102,
            HttpCat::EarlyHints => 103,
            HttpCat::OK => 200,
            HttpCat::Created => 201,
            HttpCat::Accepted => 202,
            HttpCat::NonAuthoritativeInformation => 203,
            HttpCat::NoContent => 204,
            HttpCat::ResetContent => 205,
            HttpCat::PartialContent => 206,
            HttpCat::MultiStatus => 207,
            HttpCat::AlreadyReported => 208,
            HttpCat::ImUsed => 226,
            HttpCat::MultipleChoices => 300,
            HttpCat::MovedPermanently => 301,
            HttpCat::Found => 302,
            HttpCat::SeeOther => 303,
            HttpCat::NotModified => 304,
            HttpCat::UseProxy => 305,
            HttpCat::TemporaryRedirect => 306,
            HttpCat::PermanentRedirect => 307,
            HttpCat::BadRequest => 400,
            HttpCat::Unauthorized => 401,
            HttpCat::PaymentRequired => 402,
            HttpCat::Forbidden => 403,
            HttpCat::NotFound => 404,
            HttpCat::MethodNotAllowed => 405,
            HttpCat::NotAcceptable => 406,
            HttpCat::ProxyAuthenticationRequired => 407,
            HttpCat::RequestTimeout => 408,
            HttpCat::Conflict => 409,
            HttpCat::Gone => 410,
            HttpCat::LengthRequired => 411,
            HttpCat::PreconditionFailed => 412,
            HttpCat::PayloadTooLarge => 413,
            HttpCat::RequestUriTooLong => 414,
            HttpCat::UnsupportedMediaType => 415,
            HttpCat::RequestRangeNotSatisfiable => 416,
            HttpCat::ExpectationFailed => 417,
            HttpCat::ImATeapot => 418,
            HttpCat::EnhanceYourCalm => 420,
            HttpCat::MisdirectedRequest => 421,
            HttpCat::UnprocessableEntity => 422,
            HttpCat::Locked => 423,
            HttpCat::FailedDependency => 424,
            HttpCat::TooEarly => 425,
            HttpCat::UpgradeRequired => 426,
            HttpCat::PreconditionRequired => 428,
            HttpCat::TooManyRequests => 429,
            HttpCat::RequestHeaderFieldsTooLarge => 431,
            HttpCat::NoResponse => 444,
            HttpCat::BlockedByWindowsParentalControls => 450,
            HttpCat::UnavailableForLegalReasons => 451,
            HttpCat::HttpRequestSentToHttpsPort => 497,
            HttpCat::TokenExpiredInvalid => 498,
            HttpCat::ClientClosedRequest => 499,
            HttpCat::InternalServerError => 500,
            HttpCat::NotImplemented => 501,
            HttpCat::BadGateway => 502,
            HttpCat::ServiceUnavailable => 503,
            HttpCat::GatewayTimeout => 504,
            HttpCat::VariantAlsoNegotiates => 506,
            HttpCat::InsufficientStorage => 507,
            HttpCat::LoopDetected => 508,
            HttpCat::BandwidthLimitExceeded => 509,
            HttpCat::NotExtended => 510,
            HttpCat::NetworkAuthenticationRequired => 511,
            HttpCat::WebServerIsDown => 521,
            HttpCat::ConnectionTimedOut => 522,
            HttpCat::OriginIsUnreachable => 523,
            HttpCat::SslHandshakeFailed => 525,
            HttpCat::SiteFrozen => 530,
            HttpCat::NetworkConnectTimeoutError => 599,
        }
    }

    /// Looks a numeric value up in the catalog: the matching entry if one
    /// exists, and `Error::UnknownStatusCode(value)` otherwise. No value is
    /// ever mapped to a nearby code.
    pub fn try_from(value: u16) -> (r: Result<HttpCat, Error>)
        ensures
            r == Self::lookup_result(value),
            r matches Ok(e) ==> e.code() == value,
            r matches Err(err) ==> err == Error::UnknownStatusCode(value),
    {
        match value {
            100 => Ok(HttpCat::Continue),
            101 => Ok(HttpCat::SwitchingProtocols),
            102 => Ok(HttpCat::Processing),
            103 => Ok(HttpCat::EarlyHints),
            200 => Ok(HttpCat::OK),
            201 => Ok(HttpCat::Created),
            202 => Ok(HttpCat::Accepted),
            203 => Ok(HttpCat::NonAuthoritativeInformation),
            204 => Ok(HttpCat::NoContent),
            205 => Ok(HttpCat::ResetContent),
            206 => Ok(HttpCat::PartialContent),
            207 => Ok(HttpCat::MultiStatus),
            208 => Ok(HttpCat::AlreadyReported),
            226 => Ok(HttpCat::ImUsed),
            300 => Ok(HttpCat::MultipleChoices),
            301 => Ok(HttpCat::MovedPermanently),
            302 => Ok(HttpCat::Found),
            303 => Ok(HttpCat::SeeOther),
            304 => Ok(HttpCat::NotModified),
            305 => Ok(HttpCat::UseProxy),
            306 => Ok(HttpCat::TemporaryRedirect),
            307 => Ok(HttpCat::PermanentRedirect),
            400 => Ok(HttpCat::BadRequest),
            401 => Ok(HttpCat::Unauthorized),
            402 => Ok(HttpCat::PaymentRequired),
            403 => Ok(HttpCat::Forbidden),
            404 => Ok(HttpCat::NotFound),
            405 => Ok(HttpCat::MethodNotAllowed),
            406 => Ok(HttpCat::NotAcceptable),
            407 => Ok(HttpCat::ProxyAuthenticationRequired),
            408 => Ok(HttpCat::RequestTimeout),
            409 => Ok(HttpCat::Conflict),
            410 => Ok(HttpCat::Gone),
            411 => Ok(HttpCat::LengthRequired),
            412 => Ok(HttpCat::PreconditionFailed),
            413 => Ok(HttpCat::PayloadTooLarge),
            414 => Ok(HttpCat::RequestUriTooLong),
            415 => Ok(HttpCat::UnsupportedMediaType),
            416 => Ok(HttpCat::RequestRangeNotSatisfiable),
            417 => Ok(HttpCat::ExpectationFailed),
            418 => Ok(HttpCat::ImATeapot),
            420 => Ok(HttpCat::EnhanceYourCalm),
            421 => Ok(HttpCat::MisdirectedRequest),
            422 => Ok(HttpCat::UnprocessableEntity),
            423 => Ok(HttpCat::Locked),
            424 => Ok(HttpCat::FailedDependency),
            425 => Ok(HttpCat::TooEarly),
            426 => Ok(HttpCat::UpgradeRequired),
            428 => Ok(HttpCat::PreconditionRequired),
            429 => Ok(HttpCat::TooManyRequests),
            431 => Ok(HttpCat::RequestHeaderFieldsTooLarge),
            444 => Ok(HttpCat::NoResponse),
            450 => Ok(HttpCat::BlockedByWindowsParentalControls),
            451 => Ok(HttpCat::UnavailableForLegalReasons),
            497 => Ok(HttpCat::HttpRequestSentToHttpsPort),
            498 => Ok(HttpCat::TokenExpiredInvalid),
            499 => Ok(HttpCat::ClientClosedRequest),
            500 => Ok(HttpCat::InternalServerError),
            501 => Ok(HttpCat::NotImplemented),
            502 => Ok(HttpCat::BadGateway),
            503 => Ok(HttpCat::ServiceUnavailable),
            504 => Ok(HttpCat::GatewayTimeout),
            506 => Ok(HttpCat::VariantAlsoNegotiates),
            507 => Ok(HttpCat::InsufficientStorage),
            508 => Ok(HttpCat::LoopDetected),
            509 => Ok(HttpCat::BandwidthLimitExceeded),
            510 => Ok(HttpCat::NotExtended),
            511 => Ok(HttpCat::NetworkAuthenticationRequired),
            521 => Ok(HttpCat::WebServerIsDown),
            522 => Ok(HttpCat::ConnectionTimedOut),
            523 => Ok(HttpCat::OriginIsUnreachable),
            525 => Ok(HttpCat::SslHandshakeFailed),
            530 => Ok(HttpCat::SiteFrozen),
            599 => Ok(HttpCat::NetworkConnectTimeoutError),
            _ => Err(Error::UnknownStatusCode(value)),
        }
    }
}

/// Law: looking an entry's own code back up finds exactly that entry, so
/// `try_from(e.to_code())` returns `Ok(e)` for every catalog entry `e`.
pub proof fn lemma_from_code_of_code(e: HttpCat)
    ensures
        HttpCat::entry_of_code(e.code()) == Some(e),
        HttpCat::lookup_result(e.code()) == Ok::<HttpCat, Error>(e),
{
}

/// Law: the projection to numeric codes is injective; distinct catalog
/// entries never share a code.
pub proof fn lemma_code_injective(a: HttpCat, b: HttpCat)
    requires
        a.code() == b.code(),
    ensures
        a == b,
{
    lemma_from_code_of_code(a);
    lemma_from_code_of_code(b);
}

} // verus!
