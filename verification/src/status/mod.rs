//! Status server: its address, and the choice of a port to listen on.

pub mod routes;

use vstd::prelude::*;
use vstd::string::StringExecFns;

use crate::error::OrcError;
use crate::text::{decimal, push_decimal, string_of};

verus! {

/// First port tried when the status server picks one.
pub const PORT_RANGE_START: u16 = 3100;

/// Last port tried when the status server picks one.
pub const PORT_RANGE_END: u16 = 3199;

/// HTTP status server exposing agent state via REST endpoints.
#[derive(Debug)]
pub struct StatusServer {
    /// Port the server is listening on.
    port: u16,
}

/// The base URL of a server on the local host at `port`.
pub open spec fn base_url_of(port: u16) -> Seq<char> {
    "http://127.0.0.1:"@ + decimal(port as nat)
}

impl StatusServer {
    /// A server listening on `port`.
    pub fn listening_on(port: u16) -> (s: Self)
        ensures
            s.port_spec() == port,
    {
        StatusServer { port }
    }

    /// The port the server listens on.
    pub closed spec fn port_spec(&self) -> u16 {
        self.port
    }

    /// The port the server is listening on.
    pub fn port(&self) -> (p: u16)
        ensures
            p == self.port_spec(),
    {
        self.port
    }

    /// The base URL of the server.
    pub fn base_url(&self) -> (u: String)
        ensures
            u@ == base_url_of(self.port_spec()),
    {
        let mut s = string_of("http://127.0.0.1:");
        push_decimal(&mut s, self.port as u64);
        s
    }
}

/// The next step of the search for a free port in `start..=end`.
#[derive(Debug)]
pub enum PortSearch {
    /// Try to bind this port.
    Try(u16),
    /// This port was bound: use it.
    Found(u16),
    /// No port in the range could be bound.
    Exhausted(OrcError),
}

/// The first step of the search for a free port in `start..=end`.
pub fn first_port(start: u16, end: u16) -> (s: PortSearch)
    ensures
        start <= end ==> s == PortSearch::Try(start),
        start > end ==> s == PortSearch::Exhausted(OrcError::NoAvailablePort { start, end }),
{
    if start <= end {
        PortSearch::Try(start)
    } else {
        PortSearch::Exhausted(OrcError::NoAvailablePort { start, end })
    }
}

/// The step after trying to bind `port` of `start..=end`: use it if it was
/// bound, else try the next port, else give up once the range is exhausted.
pub fn next_port(start: u16, end: u16, port: u16, bound: bool) -> (s: PortSearch)
    ensures
        bound ==> s == PortSearch::Found(port),
        !bound && port < end ==> s == PortSearch::Try((port + 1) as u16),
        !bound && port >= end ==> s == PortSearch::Exhausted(OrcError::NoAvailablePort { start, end }),
{
    if bound {
        PortSearch::Found(port)
    } else if port < end {
        PortSearch::Try(port + 1)
    } else {
        PortSearch::Exhausted(OrcError::NoAvailablePort { start, end })
    }
}

} // verus!
