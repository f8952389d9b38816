//! Connection-info data: the identifiers and address lists a node hands to a
//! peer it has discovered.  The private form also carries the socket reserved
//! for hole punching; the public form is what crosses the wire.

use vstd::prelude::*;
use crate::codec::SocketAddr;
use crate::rendezvous::BeaconError;

verus! {

/// Relies on mio's `Token`: an opaque handle naming a registered event
/// source.  Nothing here reads it; it is carried through.
#[verifier::external_type_specification]
#[verifier::external_body]
pub struct ExToken(mio::Token);

/// Relies on net2's `TcpBuilder`: a TCP socket configured but not yet
/// connected or listening.  Nothing here reads it; it is carried through.
#[verifier::external_type_specification]
#[verifier::external_body]
pub struct ExTcpBuilder(net2::TcpBuilder);

/// How one connection to a peer stands: the token of its active connection,
/// if any, and how many handshakes with that peer are still in flight.
#[derive(Debug, Clone, Copy)]
pub struct ConnectionId {
    pub active_connection: Option<mio::Token>,
    pub currently_handshaking: usize,
}

/// The outcome of preparing contact info: the caller's token handed back,
/// with the new contact info or the failure that prevented it.
#[derive(Debug)]
pub struct ConnectionInfoResult<UID> {
    /// The token that was passed in.
    pub result_token: u32,
    /// The new contact info, if successful.
    pub result: Result<PrivConnectionInfo<UID>, BeaconError>,
}

/// Contact info a node prepares for itself and does not share: the public
/// half's fields plus the socket reserved for hole punching.
#[derive(Debug)]
pub struct PrivConnectionInfo<UID> {
    pub id: UID,
    pub for_direct: Vec<SocketAddr>,
    pub for_hole_punch: Vec<SocketAddr>,
    pub hole_punch_socket: Option<net2::TcpBuilder>,
}

/// Contact info shared with a peer: the node's identifier, the addresses it
/// can be dialed on directly, and the hole-punch candidates.
#[derive(Debug)]
pub struct PubConnectionInfo<UID> {
    pub id: UID,
    pub for_hole_punch: Vec<SocketAddr>,
    pub for_direct: Vec<SocketAddr>,
}

/// Copy an address list, element for element.
fn clone_address_list(addresses: &Vec<SocketAddr>) -> (copied: Vec<SocketAddr>)
    ensures
        copied@ == addresses@,
{
    let mut copied: Vec<SocketAddr> = Vec::new();
    let mut i: usize = 0;
    while i < addresses.len()
        invariant
            i <= addresses@.len(),
            copied@ == addresses@.take(i as int),
        decreases addresses@.len() - i,
    {
        copied.push(addresses[i]);
        proof {
            let j = i as int;
            assert(addresses@.take(j + 1) =~= addresses@.take(j).push(addresses@[j]));
        }
        i = i + 1;
    }
    proof {
        assert(addresses@.take(addresses@.len() as int) =~= addresses@);
    }
    copied
}

impl<UID: Copy> PrivConnectionInfo<UID> {
    /// Derive the shareable contact info: the identifier and both address
    /// lists carry over unchanged; the hole-punch socket stays behind.
    pub fn to_pub_connection_info(&self) -> (pub_info: PubConnectionInfo<UID>)
        ensures
            pub_info.id == self.id,
            pub_info.for_direct@ == self.for_direct@,
            pub_info.for_hole_punch@ == self.for_hole_punch@,
    {
        PubConnectionInfo {
            for_hole_punch: clone_address_list(&self.for_hole_punch),
            for_direct: clone_address_list(&self.for_direct),
            id: self.id,
        }
    }
}

impl<UID: Copy> PubConnectionInfo<UID> {
    /// The identifier of the node that created this contact info.
    pub fn id(&self) -> (id: UID)
        ensures
            id == self.id,
    {
        self.id
    }
}

} // verus!
