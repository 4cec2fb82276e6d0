//! Frame parser: a pure function from the bytes of a link-layer frame to the
//! transport-level 5-tuple, or to a typed rejection.
//!
//! The parser walks an Ethernet II frame: it reads the EtherType, parses an
//! IPv4 or IPv6 fixed header, and extracts the ports from the TCP or UDP
//! header that follows.  The transport header is searched for inside the
//! payload that the IP header describes: for IPv4 the payload starts after
//! `header length * 4` bytes (at least 20) and runs for `total length -
//! header length * 4` bytes, clamped to the frame; for IPv6 it starts after
//! the 40-byte fixed header and runs for `payload length` bytes, clamped to
//! the frame.  No extension-header chain is walked: an IPv6 next-header that
//! is not TCP or UDP is a rejection.
//!
//! The `bytes` field of the result is the length of the whole input frame,
//! link-layer header included.

use vstd::prelude::*;
use crate::addr::{be_value_16, IpAddr};
use crate::error::WeirdsharkError;
use crate::TransportProtocols;

verus! {

/// EtherType of IPv4.
pub const ETHERTYPE_IPV4: u16 = 0x0800;

/// EtherType of IPv6.
pub const ETHERTYPE_IPV6: u16 = 0x86DD;

/// IP protocol number of TCP.
pub const IP_PROTO_TCP: u8 = 6;

/// IP protocol number of UDP.
pub const IP_PROTO_UDP: u8 = 17;

/// What the parser extracts from an accepted frame.
#[derive(Debug, Clone, Copy, PartialEq, Eq, Structural)]
pub struct TransportPacket {
    pub source_ip: IpAddr,
    pub destination_ip: IpAddr,
    pub transport_protocol: TransportProtocols,
    pub source_port: u16,
    pub destination_port: u16,
    pub bytes: usize,
}

/// The big-endian 16-bit value at offset `i` of `s`.
pub open spec fn spec_be16(s: Seq<u8>, i: int) -> u16
    recommends
        0 <= i,
        i + 2 <= s.len(),
{
    ((s[i] as int) * 0x100 + (s[i + 1] as int)) as u16
}

/// The big-endian 32-bit value at offset `i` of `s`.
pub open spec fn spec_be32(s: Seq<u8>, i: int) -> u32
    recommends
        0 <= i,
        i + 4 <= s.len(),
{
    ((s[i] as int) * 0x1000000 + (s[i + 1] as int) * 0x10000 + (s[i + 2] as int) * 0x100 + (s[i
        + 3] as int)) as u32
}

/// Offset, within the frame, of the first transport byte of an IPv4 packet
/// whose header starts at byte 14: past the options, at least past the
/// 20-byte fixed header.
pub open spec fn spec_v4_transport_start(data: Seq<u8>) -> int
    recommends
        data.len() >= 34,
{
    let ihl4: int = 4 * ((data[14] as int) % 16);
    if ihl4 < 20 {
        34
    } else {
        14 + ihl4
    }
}

/// Length of the transport slice of an IPv4 packet: the payload length that
/// the total-length field describes, clamped to the frame.
pub open spec fn spec_v4_transport_len(data: Seq<u8>) -> int
    recommends
        data.len() >= 34,
{
    let ihl4: int = 4 * ((data[14] as int) % 16);
    let total: int = spec_be16(data, 16) as int;
    let plen: int = if total >= ihl4 {
        total - ihl4
    } else {
        0
    };
    let start: int = spec_v4_transport_start(data);
    let end: int = if start + plen <= data.len() {
        start + plen
    } else {
        data.len() as int
    };
    if data.len() <= start {
        0
    } else {
        end - start
    }
}

/// Length of the transport slice of an IPv6 packet: the payload-length
/// field, clamped to the frame past the 40-byte fixed header.
pub open spec fn spec_v6_transport_len(data: Seq<u8>) -> int
    recommends
        data.len() >= 54,
{
    let plen: int = spec_be16(data, 18) as int;
    let start: int = 54;
    let end: int = if start + plen <= data.len() {
        start + plen
    } else {
        data.len() as int
    };
    if data.len() <= start {
        0
    } else {
        end - start
    }
}

/// The source and destination ports of the transport header that starts at
/// `start`, or the rejection for a transport slice of `tlen` bytes too short
/// for its protocol.  `proto` is 6 or 17.
pub open spec fn spec_transport_ports(data: Seq<u8>, start: int, tlen: int, proto: u8) -> Result<
    (u16, u16),
    WeirdsharkError,
> {
    if proto == IP_PROTO_TCP {
        if tlen < 20 {
            Err(WeirdsharkError::IncompleteTcpSegment)
        } else {
            Ok((spec_be16(data, start), spec_be16(data, start + 2)))
        }
    } else {
        if tlen < 8 {
            Err(WeirdsharkError::IncompleteUdpSegment)
        } else {
            Ok((spec_be16(data, start), spec_be16(data, start + 2)))
        }
    }
}

/// Parse of an IPv4 packet carried by the frame `data`.
pub open spec fn spec_parse_v4(data: Seq<u8>) -> Result<TransportPacket, WeirdsharkError>
    recommends
        data.len() >= 14,
{
    if data.len() < 34 {
        Err(WeirdsharkError::IncompleteIpPacket)
    } else {
        let proto: u8 = data[23];
        if proto != IP_PROTO_TCP && proto != IP_PROTO_UDP {
            Err(WeirdsharkError::UnsupportedTransportProtocol)
        } else {
            let start: int = spec_v4_transport_start(data);
            let tlen: int = spec_v4_transport_len(data);
            match spec_transport_ports(data, start, tlen, proto) {
                Ok(ports) => Ok(
                    TransportPacket {
                        source_ip: IpAddr::V4(spec_be32(data, 26)),
                        destination_ip: IpAddr::V4(spec_be32(data, 30)),
                        transport_protocol: if proto == IP_PROTO_TCP {
                            TransportProtocols::TCP
                        } else {
                            TransportProtocols::UDP
                        },
                        source_port: ports.0,
                        destination_port: ports.1,
                        bytes: data.len() as usize,
                    },
                ),
                Err(e) => Err(e),
            }
        }
    }
}

/// Parse of an IPv6 packet carried by the frame `data`.
pub open spec fn spec_parse_v6(data: Seq<u8>) -> Result<TransportPacket, WeirdsharkError>
    recommends
        data.len() >= 14,
{
    if data.len() < 54 {
        Err(WeirdsharkError::IncompleteIpPacket)
    } else {
        let proto: u8 = data[20];
        if proto != IP_PROTO_TCP && proto != IP_PROTO_UDP {
            Err(WeirdsharkError::UnsupportedTransportProtocol)
        } else {
            let tlen: int = spec_v6_transport_len(data);
            match spec_transport_ports(data, 54int, tlen, proto) {
                Ok(ports) => Ok(
                    TransportPacket {
                        source_ip: IpAddr::V6(be_value_16(data, 22)),
                        destination_ip: IpAddr::V6(be_value_16(data, 38)),
                        transport_protocol: if proto == IP_PROTO_TCP {
                            TransportProtocols::TCP
                        } else {
                            TransportProtocols::UDP
                        },
                        source_port: ports.0,
                        destination_port: ports.1,
                        bytes: data.len() as usize,
                    },
                ),
                Err(e) => Err(e),
            }
        }
    }
}

/// Full parse of a link-layer frame: what `parse_transport_packet` returns.
pub open spec fn spec_parse_frame(data: Seq<u8>) -> Result<TransportPacket, WeirdsharkError> {
    if data.len() < 14 {
        Err(WeirdsharkError::IncompleteEthernetFrame)
    } else if spec_be16(data, 12) == ETHERTYPE_IPV4 {
        spec_parse_v4(data)
    } else if spec_be16(data, 12) == ETHERTYPE_IPV6 {
        spec_parse_v6(data)
    } else {
        Err(WeirdsharkError::PacketIgnoredNonIp)
    }
}

fn read_be16(data: &Vec<u8>, i: usize) -> (r: u16)
    requires
        i + 2 <= data@.len(),
    ensures
        r == spec_be16(data@, i as int),
{
    let _n: usize = data.len();
    (data[i] as u16) * 0x100 + (data[i + 1] as u16)
}

fn read_be32(data: &Vec<u8>, i: usize) -> (r: u32)
    requires
        i + 4 <= data@.len(),
    ensures
        r == spec_be32(data@, i as int),
{
    let _n: usize = data.len();
    (data[i] as u32) * 0x1000000 + (data[i + 1] as u32) * 0x10000 + (data[i + 2] as u32) * 0x100
        + (data[i + 3] as u32)
}

fn read_be128(data: &Vec<u8>, i: usize) -> (r: u128)
    requires
        i + 16 <= data@.len(),
    ensures
        r == be_value_16(data@, i as int),
{
    let _n: usize = data.len();
    let hi: u64 = (data[i] as u64) * 0x100000000000000 + (data[i + 1] as u64) * 0x1000000000000
        + (data[i + 2] as u64) * 0x10000000000 + (data[i + 3] as u64) * 0x100000000 + (data[i
        + 4] as u64) * 0x1000000 + (data[i + 5] as u64) * 0x10000 + (data[i + 6] as u64) * 0x100
        + (data[i + 7] as u64);
    let lo: u64 = (data[i + 8] as u64) * 0x100000000000000 + (data[i + 9] as u64)
        * 0x1000000000000 + (data[i + 10] as u64) * 0x10000000000 + (data[i + 11] as u64)
        * 0x100000000 + (data[i + 12] as u64) * 0x1000000 + (data[i + 13] as u64) * 0x10000 + (
    data[i + 14] as u64) * 0x100 + (data[i + 15] as u64);
    (hi as u128) * 0x10000000000000000 + (lo as u128)
}

/// Parse a complete link-layer frame up to the transport header.
///
/// Returns the 5-tuple and the frame length, or the typed rejection that
/// says which header was missing or unsupported.  The result is exactly
/// `spec_parse_frame` of the input bytes.
pub fn parse_transport_packet(data: Vec<u8>) -> (r: Result<TransportPacket, WeirdsharkError>)
    ensures
        r == spec_parse_frame(data@),
{
    if data.len() < 14 {
        return Err(WeirdsharkError::IncompleteEthernetFrame);
    }
    let ethertype = read_be16(&data, 12);
    if ethertype == ETHERTYPE_IPV4 {
        parse_v4(data)
    } else if ethertype == ETHERTYPE_IPV6 {
        parse_v6(data)
    } else {
        Err(WeirdsharkError::PacketIgnoredNonIp)
    }
}

fn parse_v4(data: Vec<u8>) -> (r: Result<TransportPacket, WeirdsharkError>)
    requires
        data@.len() >= 14,
    ensures
        r == spec_parse_v4(data@),
{
    if data.len() < 34 {
        return Err(WeirdsharkError::IncompleteIpPacket);
    }
    let proto = data[14 + 9];
    if proto != IP_PROTO_TCP && proto != IP_PROTO_UDP {
        return Err(WeirdsharkError::UnsupportedTransportProtocol);
    }
    let ihl4: usize = 4 * ((data[14] % 16) as usize);
    let start: usize = if ihl4 < 20 {
        14 + 20
    } else {
        14 + ihl4
    };
    let total: usize = read_be16(&data, 14 + 2) as usize;
    let plen: usize = if total >= ihl4 {
        total - ihl4
    } else {
        0
    };
    let end: usize = if start + plen <= data.len() {
        start + plen
    } else {
        data.len()
    };
    let tlen: usize = if data.len() <= start {
        0
    } else {
        end - start
    };
    let ports = match transport_ports(&data, start, tlen, proto) {
        Ok(p) => p,
        Err(e) => {
            return Err(e);
        },
    };
    Ok(
        TransportPacket {
            source_ip: IpAddr::V4(read_be32(&data, 14 + 12)),
            destination_ip: IpAddr::V4(read_be32(&data, 14 + 16)),
            transport_protocol: if proto == IP_PROTO_TCP {
                TransportProtocols::TCP
            } else {
                TransportProtocols::UDP
            },
            source_port: ports.0,
            destination_port: ports.1,
            bytes: data.len(),
        },
    )
}

fn parse_v6(data: Vec<u8>) -> (r: Result<TransportPacket, WeirdsharkError>)
    requires
        data@.len() >= 14,
    ensures
        r == spec_parse_v6(data@),
{
    if data.len() < 54 {
        return Err(WeirdsharkError::IncompleteIpPacket);
    }
    let proto = data[14 + 6];
    if proto != IP_PROTO_TCP && proto != IP_PROTO_UDP {
        return Err(WeirdsharkError::UnsupportedTransportProtocol);
    }
    let plen: usize = read_be16(&data, 14 + 4) as usize;
    let start: usize = 54;
    let end: usize = if start + plen <= data.len() {
        start + plen
    } else {
        data.len()
    };
    let tlen: usize = if data.len() <= start {
        0
    } else {
        end - start
    };
    let ports = match transport_ports(&data, start, tlen, proto) {
        Ok(p) => p,
        Err(e) => {
            return Err(e);
        },
    };
    Ok(
        TransportPacket {
            source_ip: IpAddr::V6(read_be128(&data, 14 + 8)),
            destination_ip: IpAddr::V6(read_be128(&data, 14 + 24)),
            transport_protocol: if proto == IP_PROTO_TCP {
                TransportProtocols::TCP
            } else {
                TransportProtocols::UDP
            },
            source_port: ports.0,
            destination_port: ports.1,
            bytes: data.len(),
        },
    )
}

fn transport_ports(data: &Vec<u8>, start: usize, tlen: usize, proto: u8) -> (r: Result<
    (u16, u16),
    WeirdsharkError,
>)
    requires
        tlen > 0 ==> start + tlen <= data@.len(),
    ensures
        r == spec_transport_ports(data@, start as int, tlen as int, proto),
{
    let _n: usize = data.len();
    if proto == IP_PROTO_TCP {
        if tlen < 20 {
            Err(WeirdsharkError::IncompleteTcpSegment)
        } else {
            Ok((read_be16(data, start), read_be16(data, start + 2)))
        }
    } else {
        if tlen < 8 {
            Err(WeirdsharkError::IncompleteUdpSegment)
        } else {
            Ok((read_be16(data, start), read_be16(data, start + 2)))
        }
    }
}

/// A frame truncated below the minimum length of a header is rejected with
/// the matching `Incomplete` kind, and a frame that carries neither IPv4 nor
/// IPv6, or a transport other than TCP and UDP, is rejected as such.
pub proof fn lemma_parser_rejections(data: Seq<u8>)
    ensures
        data.len() < 14 ==> spec_parse_frame(data) == Err::<TransportPacket, _>(
            WeirdsharkError::IncompleteEthernetFrame,
        ),
        data.len() >= 14 && spec_be16(data, 12) != ETHERTYPE_IPV4 && spec_be16(data, 12)
            != ETHERTYPE_IPV6 ==> spec_parse_frame(data) == Err::<TransportPacket, _>(
            WeirdsharkError::PacketIgnoredNonIp,
        ),
        14 <= data.len() < 34 && spec_be16(data, 12) == ETHERTYPE_IPV4 ==> spec_parse_frame(data)
            == Err::<TransportPacket, _>(WeirdsharkError::IncompleteIpPacket),
        14 <= data.len() < 54 && spec_be16(data, 12) == ETHERTYPE_IPV6 ==> spec_parse_frame(data)
            == Err::<TransportPacket, _>(WeirdsharkError::IncompleteIpPacket),
        data.len() >= 34 && spec_be16(data, 12) == ETHERTYPE_IPV4 && data[23] != IP_PROTO_TCP
            && data[23] != IP_PROTO_UDP ==> spec_parse_frame(data) == Err::<TransportPacket, _>(
            WeirdsharkError::UnsupportedTransportProtocol,
        ),
        data.len() >= 54 && spec_be16(data, 12) == ETHERTYPE_IPV6 && data[20] != IP_PROTO_TCP
            && data[20] != IP_PROTO_UDP ==> spec_parse_frame(data) == Err::<TransportPacket, _>(
            WeirdsharkError::UnsupportedTransportProtocol,
        ),
        data.len() >= 34 && spec_be16(data, 12) == ETHERTYPE_IPV4 && data[23] == IP_PROTO_TCP
            && spec_v4_transport_len(data) < 20 ==> spec_parse_frame(data) == Err::<
            TransportPacket,
            _,
        >(WeirdsharkError::IncompleteTcpSegment),
        data.len() >= 34 && spec_be16(data, 12) == ETHERTYPE_IPV4 && data[23] == IP_PROTO_UDP
            && spec_v4_transport_len(data) < 8 ==> spec_parse_frame(data) == Err::<
            TransportPacket,
            _,
        >(WeirdsharkError::IncompleteUdpSegment),
{
}

/// A parsed packet always carries a TCP or UDP protocol, and its `bytes`
/// field is the length of the whole frame, which covers at least the
/// Ethernet header and an IP fixed header.
pub proof fn lemma_parsed_packet_shape(data: Seq<u8>, p: TransportPacket)
    requires
        data.len() <= usize::MAX,
        spec_parse_frame(data) == Ok::<_, WeirdsharkError>(p),
    ensures
        p.transport_protocol == TransportProtocols::TCP || p.transport_protocol
            == TransportProtocols::UDP,
        p.bytes == data.len(),
        p.bytes >= 34,
{
}

} // verus!
