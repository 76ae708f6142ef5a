//! Errors met while talking to the service.

use crate::text::{dec, push_decimal};
use vstd::prelude::*;

verus! {

/// reqwest's error type, carried opaquely in [`ApiError::Http`].
#[verifier::external_type_specification]
#[verifier::external_body]
pub struct ExHttpError(reqwest::Error);

/// std's I/O error type, carried opaquely in [`ApiError::Io`].
#[verifier::external_type_specification]
#[verifier::external_body]
pub struct ExIoError(std::io::Error);

/// serde_urlencoded's encoding error, carried opaquely in [`ConversionError::Encode`].
#[verifier::external_type_specification]
#[verifier::external_body]
pub struct ExEncodeError(serde_urlencoded::ser::Error);

/// serde_json's error type, carried opaquely in [`ConversionError::Decode`].
#[verifier::external_type_specification]
#[verifier::external_body]
pub struct ExJsonError(serde_json::Error);

/// An error reported by Bing Maps in a request's response.
#[derive(Debug, Default, Clone, Copy, PartialEq, Eq, Structural)]
pub struct RequestError {
    /// The HTTP status in the response.
    pub http_status: u16,
    /// The service may normally have a result for this query, but its servers
    /// are overloaded: wait a few seconds and try again.
    pub should_wait: bool,
}

/// `RequestError(<status>)`.
pub open spec fn request_error_text(e: RequestError) -> Seq<char> {
    "RequestError("@ + dec(e.http_status as nat) + ")"@
}

impl RequestError {
    pub fn description(&self) -> (r: &'static str)
        ensures
            r@ == "error reported by bing maps"@,
    {
        "error reported by bing maps"
    }

    /// The error as text: `RequestError(404)`.
    pub fn message(&self) -> (r: String)
        ensures
            r@ == request_error_text(*self),
    {
        let mut s = String::new();
        s.append("RequestError(");
        push_decimal(&mut s, self.http_status as u64);
        s.append(")");
        assert(s@ =~= request_error_text(*self));
        s
    }
}

/// A failure to convert between the wire format and the library's values.
#[derive(Debug)]
pub enum ConversionError {
    /// Encoding a query string failed.
    Encode(serde_urlencoded::ser::Error),
    /// Decoding a JSON body failed.
    Decode(serde_json::Error),
}

/// An error encountered when communicating with the Bing Maps API.
#[derive(Debug)]
pub enum ApiError {
    /// An error reported by Bing Maps.
    Bing(RequestError),
    /// A networking error communicating with the Bing Maps server.
    Http(reqwest::Error),
    /// An error reading the response body.
    Io(std::io::Error),
    /// An error converting between wire format and Rust types.
    Conversion(ConversionError),
}

pub open spec fn error_description(e: &ApiError) -> Seq<char> {
    match e {
        ApiError::Bing(_) => "error reported by bing maps"@,
        ApiError::Http(_) => "error communicating with bing maps"@,
        ApiError::Io(_) => "error reading response from bing maps"@,
        ApiError::Conversion(_) => "error converting between wire format and Rust types"@,
    }
}

impl ApiError {
    /// What kind of failure this is.
    pub fn description(&self) -> (r: &'static str)
        ensures
            r@ == error_description(self),
    {
        match self {
            ApiError::Bing(_) => "error reported by bing maps",
            ApiError::Http(_) => "error communicating with bing maps",
            ApiError::Io(_) => "error reading response from bing maps",
            ApiError::Conversion(_) => "error converting between wire format and Rust types",
        }
    }

    /// The description followed by `": "` and the underlying error's text.
    pub fn message(&self) -> (r: String)
        ensures
            exists|d: Seq<char>| r@ == error_description(self) + ": "@ + d,
            self matches ApiError::Bing(e) ==> r@ == error_description(self) + ": "@
                + request_error_text(*e),
    {
        let mut s = String::new();
        s.append(self.description());
        s.append(": ");
        let ghost head = s@;
        let detail = match self {
            ApiError::Bing(e) => e.message(),
            ApiError::Http(e) => e.to_string(),
            ApiError::Io(e) => e.to_string(),
            ApiError::Conversion(ConversionError::Encode(e)) => e.to_string(),
            ApiError::Conversion(ConversionError::Decode(e)) => e.to_string(),
        };
        s.append(detail.as_str());
        assert(s@ =~= error_description(self) + ": "@ + detail@);
        s
    }
}

impl From<RequestError> for ApiError {
    fn from(err: RequestError) -> (r: ApiError) {
        ApiError::Bing(err)
    }
}

impl vstd::std_specs::convert::FromSpecImpl<RequestError> for ApiError {
    open spec fn obeys_from_spec() -> bool {
        true
    }

    open spec fn from_spec(v: RequestError) -> ApiError {
        ApiError::Bing(v)
    }
}

impl From<reqwest::Error> for ApiError {
    fn from(err: reqwest::Error) -> (r: ApiError) {
        ApiError::Http(err)
    }
}

impl vstd::std_specs::convert::FromSpecImpl<reqwest::Error> for ApiError {
    open spec fn obeys_from_spec() -> bool {
        true
    }

    open spec fn from_spec(v: reqwest::Error) -> ApiError {
        ApiError::Http(v)
    }
}

impl From<std::io::Error> for ApiError {
    fn from(err: std::io::Error) -> (r: ApiError) {
        ApiError::Io(err)
    }
}

impl vstd::std_specs::convert::FromSpecImpl<std::io::Error> for ApiError {
    open spec fn obeys_from_spec() -> bool {
        true
    }

    open spec fn from_spec(v: std::io::Error) -> ApiError {
        ApiError::Io(v)
    }
}

impl From<serde_urlencoded::ser::Error> for ApiError {
    fn from(err: serde_urlencoded::ser::Error) -> (r: ApiError) {
        ApiError::Conversion(ConversionError::Encode(err))
    }
}

impl vstd::std_specs::convert::FromSpecImpl<serde_urlencoded::ser::Error> for ApiError {
    open spec fn obeys_from_spec() -> bool {
        true
    }

    open spec fn from_spec(v: serde_urlencoded::ser::Error) -> ApiError {
        ApiError::Conversion(ConversionError::Encode(v))
    }
}

impl From<serde_json::Error> for ApiError {
    fn from(err: serde_json::Error) -> (r: ApiError) {
        ApiError::Conversion(ConversionError::Decode(err))
    }
}

impl vstd::std_specs::convert::FromSpecImpl<serde_json::Error> for ApiError {
    open spec fn obeys_from_spec() -> bool {
        true
    }

    open spec fn from_spec(v: serde_json::Error) -> ApiError {
        ApiError::Conversion(ConversionError::Decode(v))
    }
}

} // verus!
