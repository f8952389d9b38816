//! The address codec: a socket address to and from its fixed 27-byte wire
//! form, and a bare 16-bit port to and from its 2-byte reply form.
//!
//! Wire layout (multi-byte fields big-endian): byte 0 is the family tag,
//! 0 for V4 and 1 for V6.  For V4, bytes 1-4 hold the address octets and
//! bytes 5-6 the port; the rest is zero padding.  For V6, bytes 1-16 hold the
//! eight 16-bit segments, bytes 17-18 the port, bytes 19-22 the flow
//! information and bytes 23-26 the scope identifier.
//!
//! The port reply is deliberately the other byte order: byte 0 is the low
//! half, byte 1 the high half.  Existing peers on the wire depend on the
//! asymmetry, so it is kept.

use vstd::prelude::*;

verus! {

/// An IPv4 socket address: four address octets and a port.
#[derive(Clone, Copy, PartialEq, Eq, Debug)]
pub struct SocketAddrV4 {
    /// The four address octets, most significant first.
    pub ip: (u8, u8, u8, u8),
    /// The port.
    pub port: u16,
}

/// An IPv6 socket address: eight 16-bit segments, a port, flow information
/// and a scope identifier.
#[derive(Clone, Copy, PartialEq, Eq, Debug)]
pub struct SocketAddrV6 {
    /// The eight address segments, most significant first.
    pub segments: (u16, u16, u16, u16, u16, u16, u16, u16),
    /// The port.
    pub port: u16,
    /// The flow information field.
    pub flowinfo: u32,
    /// The scope identifier.
    pub scope_id: u32,
}

/// A socket address of either family.
#[derive(Clone, Copy, PartialEq, Eq, Debug)]
pub enum SocketAddr {
    V4(SocketAddrV4),
    V6(SocketAddrV6),
}

/// The high (most significant) byte of a 16-bit value.
pub open spec fn u16_hi(x: u16) -> u8 {
    (x / 256) as u8
}

/// The low (least significant) byte of a 16-bit value.
pub open spec fn u16_lo(x: u16) -> u8 {
    (x % 256) as u8
}

/// The 16-bit value with the given high and low bytes.
pub open spec fn u16_of_be(hi: u8, lo: u8) -> u16 {
    (hi as u16 * 256 + lo as u16) as u16
}

/// Byte `i` of a 32-bit value, most significant first (`i` in 0..4).
pub open spec fn u32_byte(x: u32, i: int) -> u8 {
    if i == 0 {
        (x / 0x1000000) as u8
    } else if i == 1 {
        ((x / 0x10000) % 256) as u8
    } else if i == 2 {
        ((x / 256) % 256) as u8
    } else {
        (x % 256) as u8
    }
}

/// The 32-bit value with the given four bytes, most significant first.
pub open spec fn u32_of_be(b0: u8, b1: u8, b2: u8, b3: u8) -> u32 {
    (b0 as u32 * 0x1000000 + b1 as u32 * 0x10000 + b2 as u32 * 256 + b3 as u32) as u32
}

/// The 27-byte wire form of a socket address.
pub open spec fn spec_serialise_address(a: SocketAddr) -> Seq<u8> {
    match a {
        SocketAddr::V4(v4) => seq![
            0u8,
            v4.ip.0,
            v4.ip.1,
            v4.ip.2,
            v4.ip.3,
            u16_hi(v4.port),
            u16_lo(v4.port),
            0u8, 0u8, 0u8, 0u8, 0u8, 0u8, 0u8, 0u8, 0u8, 0u8,
            0u8, 0u8, 0u8, 0u8, 0u8, 0u8, 0u8, 0u8, 0u8, 0u8,
        ],
        SocketAddr::V6(v6) => seq![
            1u8,
            u16_hi(v6.segments.0),
            u16_lo(v6.segments.0),
            u16_hi(v6.segments.1),
            u16_lo(v6.segments.1),
            u16_hi(v6.segments.2),
            u16_lo(v6.segments.2),
            u16_hi(v6.segments.3),
            u16_lo(v6.segments.3),
            u16_hi(v6.segments.4),
            u16_lo(v6.segments.4),
            u16_hi(v6.segments.5),
            u16_lo(v6.segments.5),
            u16_hi(v6.segments.6),
            u16_lo(v6.segments.6),
            u16_hi(v6.segments.7),
            u16_lo(v6.segments.7),
            u16_hi(v6.port),
            u16_lo(v6.port),
            u32_byte(v6.flowinfo, 0),
            u32_byte(v6.flowinfo, 1),
            u32_byte(v6.flowinfo, 2),
            u32_byte(v6.flowinfo, 3),
            u32_byte(v6.scope_id, 0),
            u32_byte(v6.scope_id, 1),
            u32_byte(v6.scope_id, 2),
            u32_byte(v6.scope_id, 3),
        ],
    }
}

/// The socket address a 27-byte buffer decodes to, or nothing when the tag
/// byte is neither 0 nor 1.
pub open spec fn spec_parse_address(buffer: Seq<u8>) -> Option<SocketAddr>
    recommends
        buffer.len() == 27,
{
    if buffer[0] == 0 {
        Some(SocketAddr::V4(SocketAddrV4 {
            ip: (buffer[1], buffer[2], buffer[3], buffer[4]),
            port: u16_of_be(buffer[5], buffer[6]),
        }))
    } else if buffer[0] == 1 {
        Some(SocketAddr::V6(SocketAddrV6 {
            segments: (
                u16_of_be(buffer[1], buffer[2]),
                u16_of_be(buffer[3], buffer[4]),
                u16_of_be(buffer[5], buffer[6]),
                u16_of_be(buffer[7], buffer[8]),
                u16_of_be(buffer[9], buffer[10]),
                u16_of_be(buffer[11], buffer[12]),
                u16_of_be(buffer[13], buffer[14]),
                u16_of_be(buffer[15], buffer[16]),
            ),
            port: u16_of_be(buffer[17], buffer[18]),
            flowinfo: u32_of_be(buffer[19], buffer[20], buffer[21], buffer[22]),
            scope_id: u32_of_be(buffer[23], buffer[24], buffer[25], buffer[26]),
        }))
    } else {
        None
    }
}

/// The 2-byte port reply: low byte first.
pub open spec fn spec_serialise_port(port: u16) -> Seq<u8> {
    seq![u16_lo(port), u16_hi(port)]
}

/// The port a 2-byte reply decodes to.
pub open spec fn spec_parse_port(data: Seq<u8>) -> u16
    recommends
        data.len() == 2,
{
    u16_of_be(data[1], data[0])
}

/// Encode a socket address into its 27-byte wire form.
pub fn serialise_address(our_listening_address: SocketAddr) -> (wire: [u8; 27])
    ensures
        wire@ == spec_serialise_address(our_listening_address),
        wire@.len() == 27,
{
    let mut wire: [u8; 27] = [0u8; 27];
    match our_listening_address {
        SocketAddr::V4(v4) => {
            wire[1] = v4.ip.0;
            wire[2] = v4.ip.1;
            wire[3] = v4.ip.2;
            wire[4] = v4.ip.3;
            wire[5] = (v4.port / 256) as u8;
            wire[6] = (v4.port % 256) as u8;
        }
        SocketAddr::V6(v6) => {
            wire[0] = 1;
            wire[1] = (v6.segments.0 / 256) as u8;
            wire[2] = (v6.segments.0 % 256) as u8;
            wire[3] = (v6.segments.1 / 256) as u8;
            wire[4] = (v6.segments.1 % 256) as u8;
            wire[5] = (v6.segments.2 / 256) as u8;
            wire[6] = (v6.segments.2 % 256) as u8;
            wire[7] = (v6.segments.3 / 256) as u8;
            wire[8] = (v6.segments.3 % 256) as u8;
            wire[9] = (v6.segments.4 / 256) as u8;
            wire[10] = (v6.segments.4 % 256) as u8;
            wire[11] = (v6.segments.5 / 256) as u8;
            wire[12] = (v6.segments.5 % 256) as u8;
            wire[13] = (v6.segments.6 / 256) as u8;
            wire[14] = (v6.segments.6 % 256) as u8;
            wire[15] = (v6.segments.7 / 256) as u8;
            wire[16] = (v6.segments.7 % 256) as u8;
            wire[17] = (v6.port / 256) as u8;
            wire[18] = (v6.port % 256) as u8;
            wire[19] = (v6.flowinfo / 0x1000000) as u8;
            wire[20] = ((v6.flowinfo / 0x10000) % 256) as u8;
            wire[21] = ((v6.flowinfo / 256) % 256) as u8;
            wire[22] = (v6.flowinfo % 256) as u8;
            wire[23] = (v6.scope_id / 0x1000000) as u8;
            wire[24] = ((v6.scope_id / 0x10000) % 256) as u8;
            wire[25] = ((v6.scope_id / 256) % 256) as u8;
            wire[26] = (v6.scope_id % 256) as u8;
        }
    }
    proof {
        assert(wire@ =~= spec_serialise_address(our_listening_address));
    }
    wire
}

/// Decode a 27-byte buffer into a socket address.  A buffer whose tag byte
/// is neither 0 nor 1 yields no value; it is never an error.
pub fn parse_address(buffer: &[u8]) -> (peer: Option<SocketAddr>)
    requires
        buffer@.len() == 27,
    ensures
        peer == spec_parse_address(buffer@),
        peer is Some <==> (buffer@[0] == 0 || buffer@[0] == 1),
{
    if buffer[0] == 0 {
        let port: u16 = (buffer[5] as u16) * 256 + (buffer[6] as u16);
        Some(SocketAddr::V4(SocketAddrV4 {
            ip: (buffer[1], buffer[2], buffer[3], buffer[4]),
            port,
        }))
    } else if buffer[0] == 1 {
        let s0: u16 = (buffer[1] as u16) * 256 + (buffer[2] as u16);
        let s1: u16 = (buffer[3] as u16) * 256 + (buffer[4] as u16);
        let s2: u16 = (buffer[5] as u16) * 256 + (buffer[6] as u16);
        let s3: u16 = (buffer[7] as u16) * 256 + (buffer[8] as u16);
        let s4: u16 = (buffer[9] as u16) * 256 + (buffer[10] as u16);
        let s5: u16 = (buffer[11] as u16) * 256 + (buffer[12] as u16);
        let s6: u16 = (buffer[13] as u16) * 256 + (buffer[14] as u16);
        let s7: u16 = (buffer[15] as u16) * 256 + (buffer[16] as u16);
        let port: u16 = (buffer[17] as u16) * 256 + (buffer[18] as u16);
        let flowinfo: u32 = (buffer[19] as u32) * 0x1000000 + (buffer[20] as u32) * 0x10000
            + (buffer[21] as u32) * 256 + (buffer[22] as u32);
        let scope_id: u32 = (buffer[23] as u32) * 0x1000000 + (buffer[24] as u32) * 0x10000
            + (buffer[25] as u32) * 256 + (buffer[26] as u32);
        Some(SocketAddr::V6(SocketAddrV6 {
            segments: (s0, s1, s2, s3, s4, s5, s6, s7),
            port,
            flowinfo,
            scope_id,
        }))
    } else {
        None
    }
}

/// Encode a 16-bit port into its 2-byte reply form, low byte first.
pub fn serialise_port(port: u16) -> (reply: [u8; 2])
    ensures
        reply@ == spec_serialise_port(port),
{
    let reply: [u8; 2] = [(port % 256) as u8, (port / 256) as u8];
    proof {
        assert(reply@ =~= spec_serialise_port(port));
    }
    reply
}

/// Decode a 2-byte reply, low byte first, into a 16-bit port.
pub fn parse_port(data: [u8; 2]) -> (port: u16)
    ensures
        port == spec_parse_port(data@),
{
    (data[0] as u16) + (data[1] as u16) * 256
}

/// Splitting a 16-bit value into its big-endian bytes and recombining them
/// gives the value back.
pub proof fn lemma_u16_round_trip(x: u16)
    by (bit_vector)
    ensures
        u16_of_be(u16_hi(x), u16_lo(x)) == x,
{
}

/// Splitting a 32-bit value into its big-endian bytes and recombining them
/// gives the value back.
pub proof fn lemma_u32_round_trip(x: u32)
    by (bit_vector)
    ensures
        u32_of_be(u32_byte(x, 0), u32_byte(x, 1), u32_byte(x, 2), u32_byte(x, 3)) == x,
{
}

/// The wire form of any socket address, of either family, is exactly 27
/// bytes.
pub proof fn lemma_serialised_address_len(a: SocketAddr)
    ensures
        spec_serialise_address(a).len() == 27,
{
}

/// Decoding the wire form of any socket address, of either family,
/// reproduces that address exactly.
pub proof fn lemma_address_round_trip(a: SocketAddr)
    ensures
        spec_parse_address(spec_serialise_address(a)) == Some(a),
{
    let w = spec_serialise_address(a);
    match a {
        SocketAddr::V4(v4) => {
            lemma_u16_round_trip(v4.port);
        }
        SocketAddr::V6(v6) => {
            lemma_u16_round_trip(v6.segments.0);
            lemma_u16_round_trip(v6.segments.1);
            lemma_u16_round_trip(v6.segments.2);
            lemma_u16_round_trip(v6.segments.3);
            lemma_u16_round_trip(v6.segments.4);
            lemma_u16_round_trip(v6.segments.5);
            lemma_u16_round_trip(v6.segments.6);
            lemma_u16_round_trip(v6.segments.7);
            lemma_u16_round_trip(v6.port);
            lemma_u32_round_trip(v6.flowinfo);
            lemma_u32_round_trip(v6.scope_id);
        }
    }
}

/// Decoding the reply form of any 16-bit port reproduces that port exactly.
pub proof fn lemma_port_round_trip(port: u16)
    ensures
        spec_parse_port(spec_serialise_port(port)) == port,
{
    lemma_u16_round_trip(port);
}

} // verus!
