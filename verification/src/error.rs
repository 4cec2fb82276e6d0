//! Error kinds of the library.
//!
//! Parser rejections (`Incomplete*`, `PacketIgnoredNonIp`,
//! `UnsupportedTransportProtocol`) are local to the capture worker: a rejected
//! frame is silently dropped and never enters the aggregation map.  The other
//! kinds surface to the caller at construction or at stop.

use vstd::prelude::*;

verus! {

#[derive(Debug, PartialEq, Eq)]
pub enum WeirdsharkError {
    GenericError,
    CapturerError(String),
    InterfaceNotSpecified,
    InterfaceNotFound,
    PacketIgnored,
    PacketIgnoredNonIp,
    IncompleteEthernetFrame,
    IncompleteIpPacket,
    IncompleteTcpSegment,
    IncompleteUdpSegment,
    UnsupportedTransportProtocol,
}

impl WeirdsharkError {
    /// True of exactly the parser rejections: the kinds that the worker drops
    /// silently instead of surfacing.
    pub open spec fn spec_is_parser_rejection(self) -> bool {
        match self {
            WeirdsharkError::IncompleteEthernetFrame => true,
            WeirdsharkError::IncompleteIpPacket => true,
            WeirdsharkError::IncompleteTcpSegment => true,
            WeirdsharkError::IncompleteUdpSegment => true,
            WeirdsharkError::PacketIgnoredNonIp => true,
            WeirdsharkError::UnsupportedTransportProtocol => true,
            _ => false,
        }
    }

    pub fn is_parser_rejection(&self) -> (r: bool)
        ensures
            r == self.spec_is_parser_rejection(),
    {
        match self {
            WeirdsharkError::IncompleteEthernetFrame => true,
            WeirdsharkError::IncompleteIpPacket => true,
            WeirdsharkError::IncompleteTcpSegment => true,
            WeirdsharkError::IncompleteUdpSegment => true,
            WeirdsharkError::PacketIgnoredNonIp => true,
            WeirdsharkError::UnsupportedTransportProtocol => true,
            _ => false,
        }
    }
}

} // verus!
