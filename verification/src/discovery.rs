//! Broadcast discovery: the passive responder that advertises an address on
//! the discovery port, and the seeking side that turns one round's received
//! datagrams into a peer list.
//!
//! Both sides are pure decisions here.  The caller binds the sockets, blocks
//! on them, and feeds what arrived into these functions.

use vstd::prelude::*;
use crate::codec::{SocketAddr, spec_serialise_address, spec_parse_address, serialise_address,
    parse_address};

verus! {

/// The discovery UDP port used when the caller names none.
pub const DEFAULT_DISCOVERY_PORT: u16 = 5483;

/// A transport port.  Only TCP ports exist here.
#[derive(Clone, Copy, PartialEq, Eq, Debug)]
pub enum Port {
    Tcp(u16),
}

/// The discovery port a caller's choice resolves to: the named port, or the
/// default when none is named.
pub open spec fn spec_resolve_discovery_port(port: Option<Port>) -> u16 {
    match port {
        Some(Port::Tcp(num)) => num,
        None => DEFAULT_DISCOVERY_PORT,
    }
}

/// Resolve an optional caller-supplied port to the discovery port to use.
pub fn resolve_discovery_port(port: Option<Port>) -> (resolved: u16)
    ensures
        resolved == spec_resolve_discovery_port(port),
{
    match port {
        Some(Port::Tcp(num)) => num,
        None => DEFAULT_DISCOVERY_PORT,
    }
}

/// What the responder's socket reported: a datagram from some source, whose
/// content does not matter, or a failed receive.
#[derive(Clone, Copy, PartialEq, Eq, Debug)]
pub enum ResponderEvent {
    DatagramReceived { source: SocketAddr },
    ReceiveFailed,
}

/// What the responder does next: send a reply datagram, or keep waiting.
/// A failed receive is never fatal to the loop.
#[derive(Clone, Copy, PartialEq, Eq, Debug)]
pub enum ResponderAction {
    Reply { payload: [u8; 27], to: SocketAddr },
    KeepWaiting,
}

/// One turn of the responder loop: any datagram, of any size and content, is
/// answered with the advertised address's wire form, sent back to exactly its
/// source; a failed receive is dropped and the loop goes on.
pub fn responder_step(own_address: &SocketAddr, event: &ResponderEvent) -> (action:
    ResponderAction)
    ensures
        match *event {
            ResponderEvent::DatagramReceived { source } => action matches ResponderAction::Reply {
                payload,
                to,
            } && payload@ == spec_serialise_address(*own_address) && to == source,
            ResponderEvent::ReceiveFailed => action is KeepWaiting,
        },
{
    match event {
        ResponderEvent::DatagramReceived { source } => ResponderAction::Reply {
            payload: serialise_address(*own_address),
            to: *source,
        },
        ResponderEvent::ReceiveFailed => ResponderAction::KeepWaiting,
    }
}

/// The address a received datagram contributes to the peer list: a 27-byte
/// datagram that decodes, and nothing otherwise.  A datagram that contributes
/// nothing is dropped on its own; it never ends the round.
pub open spec fn spec_peer_of_datagram(datagram: Seq<u8>) -> Option<SocketAddr> {
    if datagram.len() == 27 {
        spec_parse_address(datagram)
    } else {
        None
    }
}

/// The peer list one seeking round produces from the datagrams it received,
/// in arrival order: every decodable 27-byte datagram contributes its
/// address, the rest are dropped, and duplicates are kept.
pub open spec fn spec_collect_peers(datagrams: Seq<Seq<u8>>) -> Seq<SocketAddr>
    decreases datagrams.len(),
{
    if datagrams.len() == 0 {
        Seq::empty()
    } else {
        let rest = spec_collect_peers(datagrams.drop_last());
        match spec_peer_of_datagram(datagrams.last()) {
            Some(peer) => rest.push(peer),
            None => rest,
        }
    }
}

/// Turn the datagrams one seeking round received into its peer list:
/// unordered in meaning, arrival order in fact, duplicates preserved,
/// undecodable datagrams silently dropped.
pub fn collect_peers(datagrams: &Vec<Vec<u8>>) -> (peers: Vec<SocketAddr>)
    ensures
        peers@ == spec_collect_peers(datagrams.deep_view()),
{
    let ghost all = datagrams.deep_view();
    let mut peers: Vec<SocketAddr> = Vec::new();
    let mut i: usize = 0;
    while i < datagrams.len()
        invariant
            i <= datagrams@.len(),
            all == datagrams.deep_view(),
            peers@ == spec_collect_peers(all.take(i as int)),
        decreases datagrams@.len() - i,
    {
        let datagram: &Vec<u8> = &datagrams[i];
        proof {
            assert(all[i as int] == datagram@);
            assert(all.take(i + 1).drop_last() =~= all.take(i as int));
            assert(all.take(i + 1).last() == all[i as int]);
        }
        if datagram.len() == 27 {
            match parse_address(datagram.as_slice()) {
                Some(peer) => peers.push(peer),
                None => (),
            }
        }
        i = i + 1;
    }
    proof {
        assert(all.take(datagrams@.len() as int) =~= all);
    }
    peers
}

} // verus!
