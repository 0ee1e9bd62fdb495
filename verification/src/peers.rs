//! The roles that sit at either end of the control-plane protocol: the
//! client that delivers one envelope per call, and the two peer roles
//! built on top of it — the receiver that consumes transfer tickets and
//! the sender that produces them.
//!
//! Only their identity (where to listen, whom to dial) lives here; the
//! sockets and the collaborator protocols they drive stand outside the
//! library.

use vstd::prelude::*;

verus! {

/// Dials the target host, delivers one encoded envelope per call, and
/// reads back the status line. The envelope framing it writes is
/// `Request::as_bytes`; the socket exchange itself stands outside the
/// library.
pub struct Client {
    host: String,
}

impl Client {
    /// The address this client dials.
    pub closed spec fn spec_host(&self) -> Seq<char> {
        self.host@
    }

    /// A client that will dial `host`, opening a fresh connection for
    /// every call.
    pub fn new(host: String) -> (c: Self)
        ensures
            c.spec_host() == host@,
    {
        Self { host }
    }

    /// The address this client dials.
    pub fn host(&self) -> (h: &str)
        ensures
            h@ == self.spec_host(),
    {
        self.host.as_str()
    }
}

/// The peer role that serves the dispatch-channel consumer for transfer
/// tickets: each ticket envelope it receives starts a separate
/// data-transfer session on its port.
pub struct MemesyncReceiver {
    port: u16,
}

impl MemesyncReceiver {
    /// The port on which received tickets are redeemed.
    pub closed spec fn spec_port(&self) -> u16 {
        self.port
    }

    /// A receiver that redeems tickets on `port`.
    pub fn new(port: u16) -> (r: Self)
        ensures
            r.spec_port() == port,
    {
        Self { port }
    }

    /// The port on which received tickets are redeemed.
    pub fn port(&self) -> (p: u16)
        ensures
            p == self.spec_port(),
    {
        self.port
    }
}

/// The peer role that offers a file for transfer and delivers the
/// resulting ticket to a remote receiver through the control-plane
/// client.
pub struct MemesyncSender {
    target_host: String,
}

impl MemesyncSender {
    /// The remote control-plane address the ticket is delivered to.
    pub closed spec fn spec_target_host(&self) -> Seq<char> {
        self.target_host@
    }

    /// A sender that will deliver its tickets to `target_host`.
    pub fn new(target_host: String) -> (s: Self)
        ensures
            s.spec_target_host() == target_host@,
    {
        Self { target_host }
    }

    /// The remote control-plane address the ticket is delivered to.
    pub fn target_host(&self) -> (h: &str)
        ensures
            h@ == self.spec_target_host(),
    {
        self.target_host.as_str()
    }
}

} // verus!
