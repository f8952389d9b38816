use beacon::codec::{serialise_address, SocketAddr, SocketAddrV4};
use beacon::discovery::{collect_peers, resolve_discovery_port, responder_step, Port,
    ResponderAction, ResponderEvent, DEFAULT_DISCOVERY_PORT};

fn v4(a: u8, b: u8, c: u8, d: u8, port: u16) -> SocketAddr {
    SocketAddr::V4(SocketAddrV4 { ip: (a, b, c, d), port })
}

#[test]
fn named_port_is_used() {
    assert_eq!(resolve_discovery_port(Some(Port::Tcp(5493))), 5493);
}

#[test]
fn missing_port_falls_back_to_default() {
    assert_eq!(resolve_discovery_port(None), 5483);
    assert_eq!(DEFAULT_DISCOVERY_PORT, 5483);
}

#[test]
fn responder_replies_with_own_encoded_address_to_the_source() {
    let own = v4(10, 0, 0, 7, 4000);
    let source = v4(10, 0, 0, 8, 61000);
    let action = responder_step(&own, &ResponderEvent::DatagramReceived { source });
    assert_eq!(action, ResponderAction::Reply { payload: serialise_address(own), to: source });
}

#[test]
fn responder_keeps_waiting_after_a_failed_receive() {
    let own = v4(10, 0, 0, 7, 4000);
    let action = responder_step(&own, &ResponderEvent::ReceiveFailed);
    assert_eq!(action, ResponderAction::KeepWaiting);
}

#[test]
fn collect_peers_keeps_order_and_duplicates_and_drops_bad_datagrams() {
    let a = v4(192, 168, 1, 2, 5000);
    let b = v4(192, 168, 1, 3, 5001);
    let mut bad_tag = serialise_address(a).to_vec();
    bad_tag[0] = 9;
    let datagrams = vec![
        serialise_address(a).to_vec(),
        bad_tag,
        vec![0u8; 4],
        serialise_address(a).to_vec(),
        serialise_address(b).to_vec(),
        vec![],
    ];
    assert_eq!(collect_peers(&datagrams), vec![a, a, b]);
}

#[test]
fn collect_peers_of_nothing_is_empty() {
    let datagrams: Vec<Vec<u8>> = Vec::new();
    assert_eq!(collect_peers(&datagrams), Vec::<SocketAddr>::new());
}
