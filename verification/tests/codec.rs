use beacon::codec::{parse_address, parse_port, serialise_address, serialise_port, SocketAddr,
    SocketAddrV4, SocketAddrV6};

fn v4(a: u8, b: u8, c: u8, d: u8, port: u16) -> SocketAddr {
    SocketAddr::V4(SocketAddrV4 { ip: (a, b, c, d), port })
}

fn v6(
    segments: (u16, u16, u16, u16, u16, u16, u16, u16),
    port: u16,
    flowinfo: u32,
    scope_id: u32,
) -> SocketAddr {
    SocketAddr::V6(SocketAddrV6 { segments, port, flowinfo, scope_id })
}

#[test]
fn v4_round_trip() {
    let addr = v4(10, 1, 2, 3, 0x1234);
    let wire = serialise_address(addr);
    assert_eq!(parse_address(&wire), Some(addr));
}

#[test]
fn v6_round_trip() {
    let addr = v6(
        (0xfe80, 0, 0x12, 0x3456, 0x789a, 0xbcde, 0xf011, 1),
        0xffff,
        0xdead_beef,
        0x0102_0304,
    );
    let wire = serialise_address(addr);
    assert_eq!(parse_address(&wire), Some(addr));
}

#[test]
fn v4_wire_layout_is_big_endian_and_padded() {
    let wire = serialise_address(v4(192, 168, 0, 9, 0x1f90));
    let mut expected = [0u8; 27];
    expected[1] = 192;
    expected[2] = 168;
    expected[3] = 0;
    expected[4] = 9;
    expected[5] = 0x1f;
    expected[6] = 0x90;
    assert_eq!(wire, expected);
    assert_eq!(wire.len(), 27);
}

#[test]
fn v6_wire_layout_is_big_endian() {
    let wire = serialise_address(v6(
        (0x0102, 0x0304, 0x0506, 0x0708, 0x090a, 0x0b0c, 0x0d0e, 0x0f10),
        0xabcd,
        0x11223344,
        0x55667788,
    ));
    let expected: [u8; 27] = [
        1, 0x01, 0x02, 0x03, 0x04, 0x05, 0x06, 0x07, 0x08, 0x09, 0x0a, 0x0b, 0x0c, 0x0d, 0x0e,
        0x0f, 0x10, 0xab, 0xcd, 0x11, 0x22, 0x33, 0x44, 0x55, 0x66, 0x77, 0x88,
    ];
    assert_eq!(wire, expected);
    assert_eq!(wire.len(), 27);
}

#[test]
fn unknown_tag_yields_no_value() {
    let mut buffer = [0u8; 27];
    buffer[0] = 2;
    assert_eq!(parse_address(&buffer), None);
    buffer[0] = 255;
    assert_eq!(parse_address(&buffer), None);
}

#[test]
fn zero_address_decodes() {
    let buffer = [0u8; 27];
    assert_eq!(parse_address(&buffer), Some(v4(0, 0, 0, 0, 0)));
}

#[test]
fn port_reply_is_low_byte_first() {
    assert_eq!(serialise_port(0x1234), [0x34, 0x12]);
    assert_eq!(parse_port([0x34, 0x12]), 0x1234);
}

#[test]
fn port_round_trip() {
    for port in [0u16, 1, 0x00ff, 0x0100, 0x1234, 0xfffe, 0xffff] {
        assert_eq!(parse_port(serialise_port(port)), port);
    }
}
