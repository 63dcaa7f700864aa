use crate::address::{bind_address, bind_spec, IpAddress, SocketAddress};
use crate::attempt::{describes, start, well_formed, Action, Attempt};
use crate::external::{uri_host, uri_port};
use vstd::prelude::*;

verus! {

/// The fixed part of an HTTP/3 connector: the local address its transport
/// binds to. Each `connect` starts an attempt of its own and changes nothing here.
pub struct H3Connector {
    local: SocketAddress,
}

impl View for H3Connector {
    type V = SocketAddress;

    closed spec fn view(&self) -> SocketAddress {
        self.local
    }
}

impl H3Connector {
    /// A connector bound to `local_addr`, or to the IPv6 unspecified address,
    /// on a port the system assigns.
    pub fn new(local_addr: Option<IpAddress>) -> (r: H3Connector)
        ensures
            r@ == bind_spec(local_addr),
    {
        H3Connector { local: bind_address(local_addr) }
    }

    /// The local address the transport binds to.
    pub fn local_address(&self) -> (r: SocketAddress)
        ensures
            r == self@,
    {
        self.local
    }

    /// Starts a connect attempt to `dest`, from the host and the explicit
    /// port of its authority.
    pub fn connect<E>(&self, dest: &http::Uri) -> (r: (Attempt, Action<E>))
        ensures
            r.0@ == start::<E>(uri_host(*dest), uri_port(*dest)).0,
            describes(r.1, start::<E>(uri_host(*dest), uri_port(*dest)).1),
            well_formed(r.0@),
    {
        let host = dest.host();
        let port = dest.port_u16();
        Attempt::begin(host, port)
    }
}

} // verus!
