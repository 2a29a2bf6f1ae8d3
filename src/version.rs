use vstd::prelude::*;

verus! {

/// The protocol version of an HTTP message.
#[derive(Clone, Copy, Debug, PartialEq, Eq, Structural)]
pub enum HttpVersion {
    Http09,
    Http10,
    Http11,
    Http2,
    Http3,
}

/// The head of a response as the caller sees it.
#[derive(Clone, Copy, Debug, PartialEq, Eq, Structural)]
pub struct ResponseHead {
    pub status: u16,
    pub version: HttpVersion,
}

/// The version a connection speaks: the one negotiated during the TLS
/// handshake when there was one, else the one the request declared.
pub open spec fn spec_connection_version(negotiated: Option<HttpVersion>, declared: HttpVersion) -> HttpVersion {
    match negotiated {
        Some(v) => v,
        None => declared,
    }
}

pub fn connection_version(negotiated: Option<HttpVersion>, declared: HttpVersion) -> (r: HttpVersion)
    ensures
        r == spec_connection_version(negotiated, declared),
{
    match negotiated {
        Some(v) => v,
        None => declared,
    }
}

/// Puts the declared request version on a response, whatever version the
/// connection used on the wire. Only the label changes.
pub fn normalize_version(resp: ResponseHead, declared: HttpVersion) -> (r: ResponseHead)
    ensures
        r.version == declared,
        r.status == resp.status,
{
    ResponseHead { status: resp.status, version: declared }
}

} // verus!
