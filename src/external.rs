use hyper_util::client::legacy::connect::dns::{InvalidNameError, Name};
use std::str::FromStr;
use vstd::prelude::*;

verus! {

/// A destination identifier of the `http` crate, carried through unread.
#[verifier::external_type_specification]
#[verifier::external_body]
pub struct ExUri(http::Uri);

/// A host name as hyper-util's resolvers take it.
#[verifier::external_type_specification]
#[verifier::external_body]
pub struct ExName(Name);

/// The error of hyper-util's host name parsing.
#[verifier::external_type_specification]
#[verifier::external_body]
pub struct ExInvalidNameError(InvalidNameError);

/// The host of a URI's authority, as `http::Uri::host` gives it.
pub uninterp spec fn uri_host(u: http::Uri) -> Option<Seq<char>>;

/// The explicit port of a URI's authority, as `http::Uri::port_u16` gives it.
pub uninterp spec fn uri_port(u: http::Uri) -> Option<u16>;

/// The resolver name that hyper-util's `Name::from_str` builds from a host.
pub uninterp spec fn dns_name_of(host: Seq<char>) -> Name;

/// Relies on `http::Uri::host`: the host of the authority, if there is one,
/// a function of the URI alone.
pub assume_specification[ http::Uri::host ](u: &http::Uri) -> (r: Option<&str>)
    ensures
        crate::attempt::host_view(r) == uri_host(*u),
;

/// Relies on `http::Uri::port_u16`: the explicit port of the authority, if
/// any, a function of the URI alone.
pub assume_specification[ http::Uri::port_u16 ](u: &http::Uri) -> (r: Option<u16>)
    ensures
        r == uri_port(*u),
;

/// Relies on hyper-util's `Name::from_str`, which accepts every string and
/// keeps it as the name's host.
#[verifier::external_body]
pub(crate) fn dns_name(host: &str) -> (r: Result<Name, InvalidNameError>)
    ensures
        r is Ok,
        r->Ok_0 == dns_name_of(host@),
{
    Name::from_str(host)
}

} // verus!
