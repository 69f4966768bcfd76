//! The request parser, taken from `aquatic_http_protocol`.
//!
//! This library does not define the request grammar.  It hands the bytes of
//! one request to the parser and acts on the answer.

use aquatic_http_protocol::request::Request;
use aquatic_http_protocol::request::RequestParseError;
use vstd::prelude::*;

verus! {

/// `aquatic_http_protocol::request::Request`: a parsed request.  It is
/// handed on as it comes from the parser.
#[verifier::external_type_specification]
#[verifier::external_body]
pub struct ExRequest(Request);

/// Why the parser refused a request.
#[derive(Clone, Copy, Debug, PartialEq, Eq, Structural)]
pub enum ParseError {
    /// The bytes are the beginning of a request, not a whole one.
    Incomplete,
    /// The bytes are no request.
    Invalid,
}

/// What the parser makes of `bytes`: `None` where it accepts them as a
/// request, else why it refuses them.
pub uninterp spec fn parse_error(bytes: Seq<u8>) -> Option<ParseError>;

/// Whether the parser accepts `bytes` as a request.
pub open spec fn well_formed(bytes: Seq<u8>) -> bool {
    parse_error(bytes) is None
}

/// `aquatic_http_protocol::request::Request::from_bytes`.  Whether it accepts
/// the bytes, and which of its two errors it gives otherwise, depends on the
/// bytes alone.  Nothing is claimed of the request that it returns.
#[verifier::external_body]
pub(crate) fn parse_request(bytes: &[u8]) -> (r: Result<Request, ParseError>)
    ensures
        r is Ok <==> parse_error(bytes@) is None,
        r matches Err(e) ==> parse_error(bytes@) == Some(e),
{
    match Request::from_bytes(bytes) {
        Ok(request) => Ok(request),
        Err(RequestParseError::NeedMoreData) => Err(ParseError::Incomplete),
        Err(RequestParseError::Invalid(_)) => Err(ParseError::Invalid),
    }
}

} // verus!
