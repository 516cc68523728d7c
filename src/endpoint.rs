//! Normalization of a user-supplied endpoint so that it targets the store's
//! binary (gRPC) port rather than its HTTP port.

use vstd::prelude::*;
use crate::errors::PipelineError;

verus! {

/// The store's binary-protocol port, used where the endpoint names none.
pub const GRPC_PORT: u16 = 6334;

#[verifier::external_type_specification]
#[verifier::external_body]
pub struct ExUrlParseError(url::ParseError);

/// The serialization of the URL that `url::Url::parse` makes of `s`, or `None`
/// where it refuses `s`.
pub uninterp spec fn url_parse(s: Seq<char>) -> Option<Seq<char>>;

/// The port that `url::Url::port` gives for the URL written `text`.
pub uninterp spec fn url_port(text: Seq<char>) -> Option<u16>;

/// The serialization after `url::Url::set_port(Some(port))` on the URL written
/// `text`, or `None` where it refuses.
pub uninterp spec fn url_set_port(text: Seq<char>, port: u16) -> Option<Seq<char>>;

/// Relies on `url::Url::parse`, and on `String::from(Url)`, which hands back
/// the serialization.
#[verifier::external_body]
fn parse_url(s: &str) -> (r: Result<String, url::ParseError>)
    ensures
        r is Ok <==> url_parse(s@) is Some,
        r matches Ok(t) ==> url_parse(s@) == Some(t@),
{
    url::Url::parse(s).map(String::from)
}

/// Relies on `url::Url::port` of the URL that `url::Url::parse` reads from `text`.
#[verifier::external_body]
fn port_of(text: &str) -> (r: Option<u16>)
    ensures
        r == url_port(text@),
{
    url::Url::parse(text).ok().and_then(|u| u.port())
}

/// Relies on `url::Url::set_port(Some(port))` on the URL that `url::Url::parse`
/// reads from `text`. It refuses a URL without a host and a `file` URL; on
/// success the URL carries the port, unless it is its scheme's default
/// (80 for http and ws, 443 for https and wss, 21 for ftp).
#[verifier::external_body]
fn set_port(text: &str, port: u16) -> (r: Option<String>)
    ensures
        r is None <==> url_set_port(text@, port) is None,
        r matches Some(t) ==> url_set_port(text@, port) == Some(t@),
        r matches Some(t) ==> (port != 80 && port != 443 && port != 21 ==> url_port(t@) == Some(port)),
{
    let mut u = url::Url::parse(text).ok()?;
    u.set_port(Some(port)).ok()?;
    Some(String::from(u))
}

/// The port to write into an endpoint whose current port is `current`.
pub open spec fn spec_port_to_apply(current: Option<u16>) -> Option<u16> {
    match current {
        None => Some(GRPC_PORT),
        Some(_) => None,
    }
}

/// The canonical endpoint for `s`, or `None` where `s` is no URL or cannot carry a port.
pub open spec fn normalized_endpoint(s: Seq<char>) -> Option<Seq<char>> {
    match url_parse(s) {
        None => None,
        Some(t) => match spec_port_to_apply(url_port(t)) {
            None => Some(t),
            Some(p) => url_set_port(t, p),
        },
    }
}

/// Decides, from the port that an endpoint already has, which port to set:
/// the binary-protocol port where there is none, nothing where there is one.
pub fn port_to_apply(current: Option<u16>) -> (r: Option<u16>)
    ensures
        r == spec_port_to_apply(current),
{
    match current {
        None => Some(GRPC_PORT),
        Some(_) => None,
    }
}

/// Parses `url_str` as a URL and gives it the binary-protocol port where it
/// has no explicit port; a URL with a port only takes its canonical form.
pub fn ensure_grpc_port(url_str: &str) -> (r: Result<String, PipelineError>)
    ensures
        r is Err <==> normalized_endpoint(url_str@) is None,
        r matches Ok(u) ==> normalized_endpoint(url_str@) == Some(u@),
        r matches Err(e) ==> e == PipelineError::InvalidEndpoint,
        url_parse(url_str@) is None ==> r == Err::<String, PipelineError>(
            PipelineError::InvalidEndpoint,
        ),
        url_parse(url_str@) matches Some(t) ==> (url_port(t) is Some ==> r is Ok && r->Ok_0@ == t),
        url_parse(url_str@) matches Some(t) ==> (url_port(t) is None ==> (r matches Ok(u)
            ==> url_port(u@) == Some(GRPC_PORT))),
{
    let text = match parse_url(url_str) {
        Ok(t) => t,
        Err(_) => return Err(PipelineError::InvalidEndpoint),
    };
    match port_to_apply(port_of(text.as_str())) {
        None => Ok(text),
        Some(p) => match set_port(text.as_str(), p) {
            Some(u) => Ok(u),
            None => Err(PipelineError::InvalidEndpoint),
        },
    }
}

} // verus!
