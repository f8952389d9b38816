use beacon::codec::{serialise_port, SocketAddr, SocketAddrV4, SocketAddrV6};
use beacon::rendezvous::{acceptor_step, connector_step, endpoint_for, AcceptorAction,
    AcceptorEvent, AcceptorState, BeaconError, ConnectorAction, ConnectorEvent, ConnectorState};

fn v4(a: u8, b: u8, c: u8, d: u8, port: u16) -> SocketAddr {
    SocketAddr::V4(SocketAddrV4 { ip: (a, b, c, d), port })
}

#[test]
fn acceptor_happy_path() {
    let source = v4(172, 16, 0, 5, 53211);
    let tcp_port: u16 = 0xabcd;

    let (state, action) = acceptor_step(
        &AcceptorState::Init,
        &AcceptorEvent::ListenerBound { tcp_port },
    );
    assert_eq!(state, AcceptorState::ListenerReady { tcp_port });
    assert_eq!(action, AcceptorAction::AwaitPing);

    let (state, action) = acceptor_step(&state, &AcceptorEvent::PingAwaited);
    assert_eq!(state, AcceptorState::AwaitingPing { tcp_port });
    assert_eq!(action, AcceptorAction::Ignore);

    let (state, action) = acceptor_step(&state, &AcceptorEvent::PingArrived { source });
    assert_eq!(state, AcceptorState::PingReceived { tcp_port, source });
    let wire = serialise_port(tcp_port);
    assert_eq!(action, AcceptorAction::SendPortReply { reply: (wire[0], wire[1]), to: source });
    assert_eq!(action, AcceptorAction::SendPortReply { reply: (0xcd, 0xab), to: source });

    let (state, action) = acceptor_step(&state, &AcceptorEvent::ReplySent);
    assert_eq!(state, AcceptorState::PortSent { tcp_port });
    assert_eq!(action, AcceptorAction::AwaitTransport);

    let (state, action) = acceptor_step(&state, &AcceptorEvent::AcceptAwaited);
    assert_eq!(state, AcceptorState::AwaitingTcpAccept { tcp_port });
    assert_eq!(action, AcceptorAction::Ignore);

    let (state, action) = acceptor_step(&state, &AcceptorEvent::TransportAccepted);
    assert_eq!(state, AcceptorState::Established);
    assert_eq!(action, AcceptorAction::DeliverTransport);
}

#[test]
fn acceptor_failures_surface_their_cause() {
    let source = v4(172, 16, 0, 5, 53211);
    let cases = [
        (AcceptorState::Init, AcceptorEvent::ListenerFailed, BeaconError::BindFailure),
        (AcceptorState::Init, AcceptorEvent::WorkerLost, BeaconError::ThreadJoinFailure),
        (
            AcceptorState::AwaitingPing { tcp_port: 80 },
            AcceptorEvent::ReceiveFailed,
            BeaconError::ReceiveFailure,
        ),
        (
            AcceptorState::PingReceived { tcp_port: 80, source },
            AcceptorEvent::ReplySocketFailed,
            BeaconError::BindFailure,
        ),
        (
            AcceptorState::PingReceived { tcp_port: 80, source },
            AcceptorEvent::SendFailed,
            BeaconError::SendFailure,
        ),
        (
            AcceptorState::AwaitingTcpAccept { tcp_port: 80 },
            AcceptorEvent::AcceptFailed,
            BeaconError::AcceptFailure,
        ),
        (
            AcceptorState::AwaitingTcpAccept { tcp_port: 80 },
            AcceptorEvent::WorkerLost,
            BeaconError::ThreadJoinFailure,
        ),
        (
            AcceptorState::PortSent { tcp_port: 80 },
            AcceptorEvent::WorkerLost,
            BeaconError::ThreadJoinFailure,
        ),
    ];
    for (state, event, error) in cases {
        let (next, action) = acceptor_step(&state, &event);
        assert_eq!(next, AcceptorState::Failed { error });
        assert_eq!(action, AcceptorAction::Abort { error });
    }
}

#[test]
fn acceptor_terminal_states_ignore_everything() {
    let (next, action) = acceptor_step(&AcceptorState::Established, &AcceptorEvent::PingAwaited);
    assert_eq!(next, AcceptorState::Established);
    assert_eq!(action, AcceptorAction::Ignore);

    let failed = AcceptorState::Failed { error: BeaconError::SendFailure };
    let (next, action) = acceptor_step(&failed, &AcceptorEvent::TransportAccepted);
    assert_eq!(next, failed);
    assert_eq!(action, AcceptorAction::Ignore);
}

#[test]
fn connector_happy_path_dials_the_announced_endpoint() {
    let responder = v4(192, 168, 7, 7, 61234);

    let (state, action) = connector_step(
        &ConnectorState::Init { discovery_port: 5493 },
        &ConnectorEvent::SocketReady,
    );
    assert_eq!(state, ConnectorState::BroadcastReady { discovery_port: 5493 });
    assert_eq!(action, ConnectorAction::SendPing { payload: (1, 2, 3, 4), discovery_port: 5493 });

    let (state, action) = connector_step(&state, &ConnectorEvent::BroadcastSent);
    assert_eq!(state, ConnectorState::AwaitingPortReply);
    assert_eq!(action, ConnectorAction::AwaitReply);

    let wire = serialise_port(0x1f90);
    let (state, action) = connector_step(
        &state,
        &ConnectorEvent::ReplyReceived { reply: (wire[0], wire[1]), source: responder },
    );
    let endpoint = v4(192, 168, 7, 7, 0x1f90);
    assert_eq!(state, ConnectorState::Dialing { endpoint });
    assert_eq!(action, ConnectorAction::Dial { endpoint });

    let (state, action) = connector_step(&state, &ConnectorEvent::Connected);
    assert_eq!(state, ConnectorState::Established);
    assert_eq!(action, ConnectorAction::DeliverTransport);
}

#[test]
fn connector_failures_surface_their_cause() {
    let endpoint = v4(10, 0, 0, 1, 80);
    let cases = [
        (
            ConnectorState::Init { discovery_port: 5483 },
            ConnectorEvent::BindFailed,
            BeaconError::BindFailure,
        ),
        (
            ConnectorState::BroadcastReady { discovery_port: 5483 },
            ConnectorEvent::SendFailed,
            BeaconError::SendFailure,
        ),
        (
            ConnectorState::AwaitingPortReply,
            ConnectorEvent::ReceiveFailed,
            BeaconError::ReceiveFailure,
        ),
        (ConnectorState::Dialing { endpoint }, ConnectorEvent::ConnectFailed,
            BeaconError::ConnectFailure),
    ];
    for (state, event, error) in cases {
        let (next, action) = connector_step(&state, &event);
        assert_eq!(next, ConnectorState::Failed { error });
        assert_eq!(action, ConnectorAction::Abort { error });
    }
}

#[test]
fn v6_endpoint_resets_flow_and_scope() {
    let source = SocketAddr::V6(SocketAddrV6 {
        segments: (0xfe80, 0, 0, 0, 1, 2, 3, 4),
        port: 40000,
        flowinfo: 77,
        scope_id: 3,
    });
    let endpoint = endpoint_for(&source, 8080);
    assert_eq!(
        endpoint,
        SocketAddr::V6(SocketAddrV6 {
            segments: (0xfe80, 0, 0, 0, 1, 2, 3, 4),
            port: 8080,
            flowinfo: 0,
            scope_id: 0,
        })
    );
}
