//! The two-phase rendezvous: a UDP ping answered with a TCP port, then a
//! direct TCP connection to that port.
//!
//! Each side is a state machine.  The caller owns the sockets, the worker
//! threads and the channels; after every blocking operation it feeds the
//! outcome in as an event and performs the returned action.  Every I/O
//! failure on the critical path, and a worker that ends without publishing
//! its result, drives the machine into its terminal failed state, so a call
//! always delivers a connected transport or a concrete cause — it never
//! hangs on a channel that will never receive a value.

use vstd::prelude::*;
use crate::codec::{SocketAddr, SocketAddrV4, SocketAddrV6, u16_lo, u16_hi, spec_serialise_port};

verus! {

/// Why a rendezvous call failed.  Each variant is one critical-path
/// operation; the caller keeps the underlying cause alongside.
#[derive(Clone, Copy, PartialEq, Eq, Structural, Debug)]
pub enum BeaconError {
    /// Binding a socket or creating the listener failed.
    BindFailure,
    /// Sending a datagram failed.
    SendFailure,
    /// Receiving a datagram failed.
    ReceiveFailure,
    /// Accepting the inbound TCP connection failed.
    AcceptFailure,
    /// Dialing the announced TCP endpoint failed.
    ConnectFailure,
    /// A worker thread ended without publishing its result.
    ThreadJoinFailure,
}

/// The 2-byte port reply as a pair: low byte first, as on the wire.
pub open spec fn spec_port_reply(port: u16) -> (u8, u8) {
    (u16_lo(port), u16_hi(port))
}

/// The reply pair holds the same bytes, in the same order, as the wire form
/// of the port.
pub proof fn lemma_port_reply_matches_wire(port: u16)
    ensures
        spec_serialise_port(port) == seq![spec_port_reply(port).0, spec_port_reply(port).1],
{
    assert(spec_serialise_port(port) =~= seq![spec_port_reply(port).0, spec_port_reply(port).1]);
}

/// The endpoint to dial when a reply for `port` arrived from `source`: the
/// source's address with the announced port.  For a V6 source the flow
/// information and scope identifier are not carried over; they reset to zero.
pub open spec fn spec_endpoint_for(source: SocketAddr, port: u16) -> SocketAddr {
    match source {
        SocketAddr::V4(v4) => SocketAddr::V4(SocketAddrV4 { ip: v4.ip, port }),
        SocketAddr::V6(v6) => SocketAddr::V6(
            SocketAddrV6 { segments: v6.segments, port, flowinfo: 0, scope_id: 0 },
        ),
    }
}

/// Combine a reply's source address with the announced port into the TCP
/// endpoint to dial.
pub fn endpoint_for(source: &SocketAddr, port: u16) -> (endpoint: SocketAddr)
    ensures
        endpoint == spec_endpoint_for(*source, port),
{
    match source {
        SocketAddr::V4(v4) => SocketAddr::V4(SocketAddrV4 { ip: v4.ip, port }),
        SocketAddr::V6(v6) => SocketAddr::V6(
            SocketAddrV6 { segments: v6.segments, port, flowinfo: 0, scope_id: 0 },
        ),
    }
}

/// Where an accepting call stands.  `Established` and `Failed` are terminal.
#[derive(Clone, Copy, PartialEq, Eq, Debug)]
pub enum AcceptorState {
    /// Nothing has happened yet; the listener worker is being started.
    Init,
    /// The listener worker published its OS-assigned TCP port.
    ListenerReady { tcp_port: u16 },
    /// Blocked on the discovery socket for exactly one inbound ping.
    AwaitingPing { tcp_port: u16 },
    /// A ping arrived; the port reply is owed to its source.
    PingReceived { tcp_port: u16, source: SocketAddr },
    /// The port reply went out; the listener worker is owed a transport.
    PortSent { tcp_port: u16 },
    /// Blocked on the listener worker's inbound TCP connection.
    AwaitingTcpAccept { tcp_port: u16 },
    /// The inbound transport was delivered; the call is done.
    Established,
    /// A critical-path operation failed; the call is done.
    Failed { error: BeaconError },
}

/// What the accepting caller observed since the last step.
#[derive(Clone, Copy, PartialEq, Eq, Debug)]
pub enum AcceptorEvent {
    /// The listener worker bound its TCP listener and published the port.
    ListenerBound { tcp_port: u16 },
    /// The listener worker could not create the listener.
    ListenerFailed,
    /// The caller began blocking on the discovery socket.
    PingAwaited,
    /// One inbound ping datagram arrived from `source`.
    PingArrived { source: SocketAddr },
    /// Receiving on the discovery socket failed.
    ReceiveFailed,
    /// The port reply was sent to the ping's source.
    ReplySent,
    /// The fresh reply socket could not be bound.
    ReplySocketFailed,
    /// Sending the port reply failed.
    SendFailed,
    /// The caller began waiting on the listener worker's transport.
    AcceptAwaited,
    /// The listener worker delivered the inbound transport.
    TransportAccepted,
    /// The listener worker's TCP accept failed.
    AcceptFailed,
    /// A worker ended without publishing its expected result.
    WorkerLost,
}

/// What the accepting caller must do next.
#[derive(Clone, Copy, PartialEq, Eq, Debug)]
pub enum AcceptorAction {
    /// Block on the discovery socket for one inbound ping.
    AwaitPing,
    /// Bind a fresh UDP socket and send the 2-byte reply, low byte first,
    /// to the ping's source.
    SendPortReply { reply: (u8, u8), to: SocketAddr },
    /// Join the listener worker and take its transport.
    AwaitTransport,
    /// Return the delivered transport to the caller.
    DeliverTransport,
    /// Return the failure to the caller.
    Abort { error: BeaconError },
    /// The event changes nothing; keep going.
    Ignore,
}

/// One step of the accepting side.  The causal chain is fixed: the listener
/// is ready (its port published) before any ping is answered, and the reply
/// always carries exactly that port; only then is the inbound connection
/// awaited.  An event that a state cannot take is ignored.
pub open spec fn spec_acceptor_step(state: AcceptorState, event: AcceptorEvent) -> (AcceptorState,
    AcceptorAction) {
    match (state, event) {
        (AcceptorState::Init, AcceptorEvent::ListenerBound { tcp_port }) => (
            AcceptorState::ListenerReady { tcp_port },
            AcceptorAction::AwaitPing,
        ),
        (AcceptorState::Init, AcceptorEvent::ListenerFailed) => (
            AcceptorState::Failed { error: BeaconError::BindFailure },
            AcceptorAction::Abort { error: BeaconError::BindFailure },
        ),
        (AcceptorState::Init, AcceptorEvent::WorkerLost) => (
            AcceptorState::Failed { error: BeaconError::ThreadJoinFailure },
            AcceptorAction::Abort { error: BeaconError::ThreadJoinFailure },
        ),
        (AcceptorState::ListenerReady { tcp_port }, AcceptorEvent::PingAwaited) => (
            AcceptorState::AwaitingPing { tcp_port },
            AcceptorAction::Ignore,
        ),
        (AcceptorState::AwaitingPing { tcp_port }, AcceptorEvent::PingArrived { source }) => (
            AcceptorState::PingReceived { tcp_port, source },
            AcceptorAction::SendPortReply { reply: spec_port_reply(tcp_port), to: source },
        ),
        (AcceptorState::AwaitingPing { .. }, AcceptorEvent::ReceiveFailed) => (
            AcceptorState::Failed { error: BeaconError::ReceiveFailure },
            AcceptorAction::Abort { error: BeaconError::ReceiveFailure },
        ),
        (AcceptorState::PingReceived { tcp_port, .. }, AcceptorEvent::ReplySent) => (
            AcceptorState::PortSent { tcp_port },
            AcceptorAction::AwaitTransport,
        ),
        (AcceptorState::PingReceived { .. }, AcceptorEvent::ReplySocketFailed) => (
            AcceptorState::Failed { error: BeaconError::BindFailure },
            AcceptorAction::Abort { error: BeaconError::BindFailure },
        ),
        (AcceptorState::PingReceived { .. }, AcceptorEvent::SendFailed) => (
            AcceptorState::Failed { error: BeaconError::SendFailure },
            AcceptorAction::Abort { error: BeaconError::SendFailure },
        ),
        (AcceptorState::PortSent { tcp_port }, AcceptorEvent::AcceptAwaited) => (
            AcceptorState::AwaitingTcpAccept { tcp_port },
            AcceptorAction::Ignore,
        ),
        (AcceptorState::AwaitingTcpAccept { .. }, AcceptorEvent::TransportAccepted) => (
            AcceptorState::Established,
            AcceptorAction::DeliverTransport,
        ),
        (AcceptorState::AwaitingTcpAccept { .. }, AcceptorEvent::AcceptFailed) => (
            AcceptorState::Failed { error: BeaconError::AcceptFailure },
            AcceptorAction::Abort { error: BeaconError::AcceptFailure },
        ),
        (AcceptorState::AwaitingTcpAccept { .. }, AcceptorEvent::WorkerLost) => (
            AcceptorState::Failed { error: BeaconError::ThreadJoinFailure },
            AcceptorAction::Abort { error: BeaconError::ThreadJoinFailure },
        ),
        (AcceptorState::PortSent { .. }, AcceptorEvent::WorkerLost) => (
            AcceptorState::Failed { error: BeaconError::ThreadJoinFailure },
            AcceptorAction::Abort { error: BeaconError::ThreadJoinFailure },
        ),
        _ => (state, AcceptorAction::Ignore),
    }
}

/// Take one step of the accepting side's state machine.
pub fn acceptor_step(state: &AcceptorState, event: &AcceptorEvent) -> (step: (AcceptorState,
    AcceptorAction))
    ensures
        step == spec_acceptor_step(*state, *event),
{
    match (state, event) {
        (AcceptorState::Init, AcceptorEvent::ListenerBound { tcp_port }) => (
            AcceptorState::ListenerReady { tcp_port: *tcp_port },
            AcceptorAction::AwaitPing,
        ),
        (AcceptorState::Init, AcceptorEvent::ListenerFailed) => (
            AcceptorState::Failed { error: BeaconError::BindFailure },
            AcceptorAction::Abort { error: BeaconError::BindFailure },
        ),
        (AcceptorState::Init, AcceptorEvent::WorkerLost) => (
            AcceptorState::Failed { error: BeaconError::ThreadJoinFailure },
            AcceptorAction::Abort { error: BeaconError::ThreadJoinFailure },
        ),
        (AcceptorState::ListenerReady { tcp_port }, AcceptorEvent::PingAwaited) => (
            AcceptorState::AwaitingPing { tcp_port: *tcp_port },
            AcceptorAction::Ignore,
        ),
        (AcceptorState::AwaitingPing { tcp_port }, AcceptorEvent::PingArrived { source }) => (
            AcceptorState::PingReceived { tcp_port: *tcp_port, source: *source },
            AcceptorAction::SendPortReply {
                reply: ((*tcp_port % 256) as u8, (*tcp_port / 256) as u8),
                to: *source,
            },
        ),
        (AcceptorState::AwaitingPing { .. }, AcceptorEvent::ReceiveFailed) => (
            AcceptorState::Failed { error: BeaconError::ReceiveFailure },
            AcceptorAction::Abort { error: BeaconError::ReceiveFailure },
        ),
        (AcceptorState::PingReceived { tcp_port, .. }, AcceptorEvent::ReplySent) => (
            AcceptorState::PortSent { tcp_port: *tcp_port },
            AcceptorAction::AwaitTransport,
        ),
        (AcceptorState::PingReceived { .. }, AcceptorEvent::ReplySocketFailed) => (
            AcceptorState::Failed { error: BeaconError::BindFailure },
            AcceptorAction::Abort { error: BeaconError::BindFailure },
        ),
        (AcceptorState::PingReceived { .. }, AcceptorEvent::SendFailed) => (
            AcceptorState::Failed { error: BeaconError::SendFailure },
            AcceptorAction::Abort { error: BeaconError::SendFailure },
        ),
        (AcceptorState::PortSent { tcp_port }, AcceptorEvent::AcceptAwaited) => (
            AcceptorState::AwaitingTcpAccept { tcp_port: *tcp_port },
            AcceptorAction::Ignore,
        ),
        (AcceptorState::AwaitingTcpAccept { .. }, AcceptorEvent::TransportAccepted) => (
            AcceptorState::Established,
            AcceptorAction::DeliverTransport,
        ),
        (AcceptorState::AwaitingTcpAccept { .. }, AcceptorEvent::AcceptFailed) => (
            AcceptorState::Failed { error: BeaconError::AcceptFailure },
            AcceptorAction::Abort { error: BeaconError::AcceptFailure },
        ),
        (AcceptorState::AwaitingTcpAccept { .. }, AcceptorEvent::WorkerLost) => (
            AcceptorState::Failed { error: BeaconError::ThreadJoinFailure },
            AcceptorAction::Abort { error: BeaconError::ThreadJoinFailure },
        ),
        (AcceptorState::PortSent { .. }, AcceptorEvent::WorkerLost) => (
            AcceptorState::Failed { error: BeaconError::ThreadJoinFailure },
            AcceptorAction::Abort { error: BeaconError::ThreadJoinFailure },
        ),
        _ => (*state, AcceptorAction::Ignore),
    }
}

/// A port reply is only ever emitted out of the state that follows a
/// published listener port, in answer to exactly one ping, and its bytes are
/// the wire form of that published port, addressed to the ping's source.
pub proof fn lemma_reply_follows_listener(state: AcceptorState, event: AcceptorEvent)
    ensures
        match spec_acceptor_step(state, event).1 {
            AcceptorAction::SendPortReply { reply, to } => {
                &&& state matches AcceptorState::AwaitingPing { tcp_port } && reply
                    == spec_port_reply(tcp_port)
                &&& event matches AcceptorEvent::PingArrived { source } && to == source
                &&& spec_acceptor_step(state, event).0 matches AcceptorState::PingReceived {
                    tcp_port,
                    source,
                }
            },
            _ => true,
        },
{
}

/// The TCP port an accepting call's state carries, once its listener has
/// published one.
pub open spec fn spec_acceptor_port(state: AcceptorState) -> Option<u16> {
    match state {
        AcceptorState::Init => None,
        AcceptorState::ListenerReady { tcp_port } => Some(tcp_port),
        AcceptorState::AwaitingPing { tcp_port } => Some(tcp_port),
        AcceptorState::PingReceived { tcp_port, .. } => Some(tcp_port),
        AcceptorState::PortSent { tcp_port } => Some(tcp_port),
        AcceptorState::AwaitingTcpAccept { tcp_port } => Some(tcp_port),
        AcceptorState::Established => None,
        AcceptorState::Failed { .. } => None,
    }
}

/// Once the listener's port is published it never changes: every later
/// non-terminal state carries exactly the port the listener bound, so the
/// reply can only ever announce that port.
pub proof fn lemma_acceptor_port_stable(state: AcceptorState, event: AcceptorEvent)
    ensures
        match spec_acceptor_port(spec_acceptor_step(state, event).0) {
            Some(after) => match spec_acceptor_port(state) {
                Some(before) => after == before,
                None => state is Init && (event matches AcceptorEvent::ListenerBound { tcp_port }
                    && after == tcp_port),
            },
            None => true,
        },
{
}

/// The accepting side's terminal states take no further step: whatever
/// arrives afterwards changes nothing and asks for nothing.
pub proof fn lemma_acceptor_terminal_states_stable(state: AcceptorState, event: AcceptorEvent)
    requires
        state is Established || state is Failed,
    ensures
        spec_acceptor_step(state, event) == (state, AcceptorAction::Ignore),
{
}

/// Where a dialing call stands.  `Established` and `Failed` are terminal.
#[derive(Clone, Copy, PartialEq, Eq, Debug)]
pub enum ConnectorState {
    /// Nothing has happened yet; the broadcast socket is being bound.
    Init { discovery_port: u16 },
    /// The socket is bound and may broadcast; the ping is owed.
    BroadcastReady { discovery_port: u16 },
    /// The ping went out; exactly one 2-byte port reply is awaited.
    AwaitingPortReply,
    /// The reply arrived; the announced endpoint is being dialed.
    Dialing { endpoint: SocketAddr },
    /// The outbound transport is connected; the call is done.
    Established,
    /// A critical-path operation failed; the call is done.
    Failed { error: BeaconError },
}

/// What the dialing caller observed since the last step.
#[derive(Clone, Copy, PartialEq, Eq, Debug)]
pub enum ConnectorEvent {
    /// The UDP socket is bound with broadcast enabled.
    SocketReady,
    /// Binding the UDP socket, or enabling broadcast, failed.
    BindFailed,
    /// The ping was broadcast to the discovery port.
    BroadcastSent,
    /// Broadcasting the ping failed.
    SendFailed,
    /// A 2-byte reply arrived from `source`, low byte first.
    ReplyReceived { reply: (u8, u8), source: SocketAddr },
    /// Receiving the reply failed.
    ReceiveFailed,
    /// The TCP connection to the announced endpoint is established.
    Connected,
    /// Dialing the announced endpoint failed.
    ConnectFailed,
}

/// What the dialing caller must do next.
#[derive(Clone, Copy, PartialEq, Eq, Debug)]
pub enum ConnectorAction {
    /// Broadcast the 4-byte discovery ping to the discovery port.  The
    /// payload's content is never interpreted; only its arrival matters.
    SendPing { payload: (u8, u8, u8, u8), discovery_port: u16 },
    /// Block for exactly one 2-byte port reply.
    AwaitReply,
    /// Open a TCP connection to the announced endpoint.
    Dial { endpoint: SocketAddr },
    /// Return the connected transport to the caller.
    DeliverTransport,
    /// Return the failure to the caller.
    Abort { error: BeaconError },
    /// The event changes nothing; keep going.
    Ignore,
}

/// The port a reply pair announces: low byte first.
pub open spec fn spec_announced_port(reply: (u8, u8)) -> u16 {
    (reply.0 as u16 + reply.1 as u16 * 256) as u16
}

/// One step of the dialing side.  The endpoint dialed is always the reply's
/// source address carrying the announced port.  An event that a state cannot
/// take is ignored.
pub open spec fn spec_connector_step(state: ConnectorState, event: ConnectorEvent) -> (
    ConnectorState, ConnectorAction) {
    match (state, event) {
        (ConnectorState::Init { discovery_port }, ConnectorEvent::SocketReady) => (
            ConnectorState::BroadcastReady { discovery_port },
            ConnectorAction::SendPing { payload: (1, 2, 3, 4), discovery_port },
        ),
        (ConnectorState::Init { .. }, ConnectorEvent::BindFailed) => (
            ConnectorState::Failed { error: BeaconError::BindFailure },
            ConnectorAction::Abort { error: BeaconError::BindFailure },
        ),
        (ConnectorState::BroadcastReady { .. }, ConnectorEvent::BroadcastSent) => (
            ConnectorState::AwaitingPortReply,
            ConnectorAction::AwaitReply,
        ),
        (ConnectorState::BroadcastReady { .. }, ConnectorEvent::SendFailed) => (
            ConnectorState::Failed { error: BeaconError::SendFailure },
            ConnectorAction::Abort { error: BeaconError::SendFailure },
        ),
        (ConnectorState::AwaitingPortReply, ConnectorEvent::ReplyReceived { reply, source }) => (
            ConnectorState::Dialing {
                endpoint: spec_endpoint_for(source, spec_announced_port(reply)),
            },
            ConnectorAction::Dial {
                endpoint: spec_endpoint_for(source, spec_announced_port(reply)),
            },
        ),
        (ConnectorState::AwaitingPortReply, ConnectorEvent::ReceiveFailed) => (
            ConnectorState::Failed { error: BeaconError::ReceiveFailure },
            ConnectorAction::Abort { error: BeaconError::ReceiveFailure },
        ),
        (ConnectorState::Dialing { .. }, ConnectorEvent::Connected) => (
            ConnectorState::Established,
            ConnectorAction::DeliverTransport,
        ),
        (ConnectorState::Dialing { .. }, ConnectorEvent::ConnectFailed) => (
            ConnectorState::Failed { error: BeaconError::ConnectFailure },
            ConnectorAction::Abort { error: BeaconError::ConnectFailure },
        ),
        _ => (state, ConnectorAction::Ignore),
    }
}

/// Take one step of the dialing side's state machine.
pub fn connector_step(state: &ConnectorState, event: &ConnectorEvent) -> (step: (ConnectorState,
    ConnectorAction))
    ensures
        step == spec_connector_step(*state, *event),
{
    match (state, event) {
        (ConnectorState::Init { discovery_port }, ConnectorEvent::SocketReady) => (
            ConnectorState::BroadcastReady { discovery_port: *discovery_port },
            ConnectorAction::SendPing {
                payload: (1, 2, 3, 4),
                discovery_port: *discovery_port,
            },
        ),
        (ConnectorState::Init { .. }, ConnectorEvent::BindFailed) => (
            ConnectorState::Failed { error: BeaconError::BindFailure },
            ConnectorAction::Abort { error: BeaconError::BindFailure },
        ),
        (ConnectorState::BroadcastReady { .. }, ConnectorEvent::BroadcastSent) => (
            ConnectorState::AwaitingPortReply,
            ConnectorAction::AwaitReply,
        ),
        (ConnectorState::BroadcastReady { .. }, ConnectorEvent::SendFailed) => (
            ConnectorState::Failed { error: BeaconError::SendFailure },
            ConnectorAction::Abort { error: BeaconError::SendFailure },
        ),
        (ConnectorState::AwaitingPortReply, ConnectorEvent::ReplyReceived { reply, source }) => {
            let announced: u16 = (reply.0 as u16) + (reply.1 as u16) * 256;
            let endpoint = endpoint_for(source, announced);
            (ConnectorState::Dialing { endpoint }, ConnectorAction::Dial { endpoint })
        },
        (ConnectorState::AwaitingPortReply, ConnectorEvent::ReceiveFailed) => (
            ConnectorState::Failed { error: BeaconError::ReceiveFailure },
            ConnectorAction::Abort { error: BeaconError::ReceiveFailure },
        ),
        (ConnectorState::Dialing { .. }, ConnectorEvent::Connected) => (
            ConnectorState::Established,
            ConnectorAction::DeliverTransport,
        ),
        (ConnectorState::Dialing { .. }, ConnectorEvent::ConnectFailed) => (
            ConnectorState::Failed { error: BeaconError::ConnectFailure },
            ConnectorAction::Abort { error: BeaconError::ConnectFailure },
        ),
        _ => (*state, ConnectorAction::Ignore),
    }
}

/// The dialing side only ever dials the endpoint made of the reply's source
/// address and the port those two bytes announce, low byte first.
pub proof fn lemma_dial_targets_reply_source(state: ConnectorState, event: ConnectorEvent)
    ensures
        match spec_connector_step(state, event).1 {
            ConnectorAction::Dial { endpoint } => {
                &&& state is AwaitingPortReply
                &&& event matches ConnectorEvent::ReplyReceived { reply, source } && endpoint
                    == spec_endpoint_for(source, spec_announced_port(reply))
            },
            _ => true,
        },
{
}

/// The dialing side's terminal states take no further step.
pub proof fn lemma_connector_terminal_states_stable(state: ConnectorState, event: ConnectorEvent)
    requires
        state is Established || state is Failed,
    ensures
        spec_connector_step(state, event) == (state, ConnectorAction::Ignore),
{
}

/// The port the acceptor's reply announces is the port its listener
/// published: what the acceptor encodes, the connector decodes back.
pub proof fn lemma_announced_port_round_trip(port: u16)
    by (bit_vector)
    ensures
        spec_announced_port(spec_port_reply(port)) == port,
{
}

/// The two sides converge: when a waiting connector receives the reply an
/// acceptor built for its published TCP port, from whatever address that
/// acceptor replied from, the connector dials exactly that address carrying
/// exactly that port.
pub proof fn lemma_rendezvous_sides_converge(tcp_port: u16, reply_source: SocketAddr)
    ensures
        spec_connector_step(
            ConnectorState::AwaitingPortReply,
            ConnectorEvent::ReplyReceived { reply: spec_port_reply(tcp_port), source: reply_source },
        ) == (
            ConnectorState::Dialing { endpoint: spec_endpoint_for(reply_source, tcp_port) },
            ConnectorAction::Dial { endpoint: spec_endpoint_for(reply_source, tcp_port) },
        ),
{
    lemma_announced_port_round_trip(tcp_port);
}

} // verus!
