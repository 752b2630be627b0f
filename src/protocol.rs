//! The request/response exchange with a node manager, as plain values: the
//! route a request travels, the requests, and what comes back.
use vstd::prelude::*;
use vstd::string::*;

verus! {

/// The well-known address of a node's manager worker.
pub const NODEMANAGER_ADDR: &'static str = "_internal.nodeman";

/// The status code of a successful request.
pub const STATUS_OK: u16 = 200;

/// An ordered sequence of hop addresses.
#[derive(Clone, Debug)]
pub struct Route {
    pub hops: Vec<String>,
}

impl Route {
    /// The hops, as texts.
    pub open spec fn hop_texts(self) -> Seq<Seq<char>> {
        self.hops@.map_values(|h: String| h@)
    }

    /// Appends one hop at the end of the route.
    pub fn append(&mut self, addr: &str)
        ensures
            final(self).hop_texts() == old(self).hop_texts().push(addr@),
    {
        self.hops.push(String::from_str(addr));
        assert(self.hop_texts() =~= old(self).hop_texts().push(addr@));
    }
}

/// The route to a node's manager: the base route to the node, then the
/// manager's address.
pub fn manager_route(base: Route) -> (r: Route)
    ensures
        r.hop_texts() == base.hop_texts().push(NODEMANAGER_ADDR@),
{
    let mut r = base;
    r.append(NODEMANAGER_ADDR);
    r
}

/// A request to create a TCP portal inlet.
#[derive(Clone, Debug)]
pub struct InletRequest {
    pub bind: String,
    pub outlet_addr: String,
    pub alias: Option<String>,
}

/// A request to create a TCP portal outlet.
#[derive(Clone, Debug)]
pub struct OutletRequest {
    pub tcp_address: String,
    pub worker_address: String,
    pub alias: Option<String>,
}

/// The one request a portal creation sends.
#[derive(Clone, Debug)]
pub enum PortalRequest {
    Inlet(InletRequest),
    Outlet(OutletRequest),
}

/// The payload of a portal creation response: the portal's alias and its
/// address (the inlet's bind address, or the outlet's worker address).
#[derive(Clone, Debug)]
pub struct PortalStatus {
    pub alias: String,
    pub addr: String,
}

/// How one request/response exchange ended.
#[derive(Clone, Debug)]
pub enum Exchange {
    /// A well-formed response arrived.
    Reply { status: u16, payload: PortalStatus },
    /// A response arrived that could not be decoded.
    Malformed,
    /// Sending or receiving failed.
    TransportFailed,
}

} // verus!
