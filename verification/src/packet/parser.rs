//! Message assembly: splits a datagram into the fixed header and an
//! opaque body.

use crate::packet::header::{spec_header_result, DnsHeader, HeaderParseError};
use vstd::prelude::*;
use vstd::slice::slice_to_vec;

verus! {

/// One DNS message: the decoded fixed header and, verbatim and
/// uninterpreted, every byte of the datagram after it. The body is a
/// copy, so the message can outlive the receive buffer.
#[derive(Debug, PartialEq, Eq)]
pub struct DnsMessage {
    /// The decoded 12-octet prefix.
    pub header: DnsHeader,
    /// All bytes after the header: the question, answer, authority and
    /// additional sections, carried opaquely.
    pub body: Vec<u8>,
}

/// Splits a datagram into the fixed header and the opaque body.
pub struct DnsPacketParser;

impl DnsPacketParser {
    /// The largest datagram the unextended transport can carry.
    pub const MAX_DNS_PACKET_SIZE: usize = 512;

    /// Decodes the fixed header from the first 12 octets of a datagram
    /// and packages the remainder verbatim as the message body.
    ///
    /// A datagram shorter than the fixed header fails with
    /// `InvalidLength`; otherwise a failure of the header decode is
    /// propagated unchanged, and no reading of the body is attempted.
    pub fn parse(&self, packet_buffer: &[u8]) -> (r: Result<DnsMessage, HeaderParseError>)
        ensures
            packet_buffer@.len() < 12 ==> r == Err::<DnsMessage, HeaderParseError>(
                HeaderParseError::InvalidLength,
            ),
            packet_buffer@.len() >= 12 ==> match spec_header_result(
                packet_buffer@.subrange(0, 12),
            ) {
                Ok(h) => r matches Ok(m) && m.header == h && m.body@ == packet_buffer@.subrange(
                    12,
                    packet_buffer@.len() as int,
                ),
                Err(e) => r == Err::<DnsMessage, HeaderParseError>(e),
            },
    {
        if packet_buffer.len() < 12 {
            return Err(HeaderParseError::InvalidLength);
        }
        let (header_raw, body_raw) = packet_buffer.split_at(12);
        let header = DnsHeader::from_bytes(header_raw)?;
        Ok(DnsMessage { header, body: slice_to_vec(body_raw) })
    }
}

} // verus!
