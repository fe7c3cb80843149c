//! Common protocol types: addresses, parsed segments, validation verdicts,
//! dispatcher actions and the error taxonomy.

use vstd::prelude::*;
use crate::tcp_proto;

verus! {

/// An IPv4 address, in host order.
#[derive(Debug, Clone, Copy, PartialEq, Eq, Structural)]
pub struct IpAddr {
    pub addr: u32,
}

/// TCP flags, unpacked from the header's flag bits.
#[derive(Debug, Clone, Copy, PartialEq, Eq, Structural)]
pub struct TcpFlags {
    pub fin: bool,
    pub syn: bool,
    pub rst: bool,
    pub psh: bool,
    pub ack: bool,
    pub urg: bool,
}

/// The flags encoded by the low six bits of a flag byte.
pub open spec fn spec_flags_of_byte(flags: u8) -> TcpFlags {
    TcpFlags {
        fin: flags & tcp_proto::TCP_FIN != 0,
        syn: flags & tcp_proto::TCP_SYN != 0,
        rst: flags & tcp_proto::TCP_RST != 0,
        psh: flags & tcp_proto::TCP_PSH != 0,
        ack: flags & tcp_proto::TCP_ACK != 0,
        urg: flags & tcp_proto::TCP_URG != 0,
    }
}

impl TcpFlags {
    /// Unpack the flag bits of a header's flag byte.
    pub fn from_tcphdr(flags: u8) -> (r: Self)
        ensures
            r == spec_flags_of_byte(flags),
    {
        Self {
            fin: (flags & tcp_proto::TCP_FIN) != 0,
            syn: (flags & tcp_proto::TCP_SYN) != 0,
            rst: (flags & tcp_proto::TCP_RST) != 0,
            psh: (flags & tcp_proto::TCP_PSH) != 0,
            ack: (flags & tcp_proto::TCP_ACK) != 0,
            urg: (flags & tcp_proto::TCP_URG) != 0,
        }
    }
}

/// Parsed view of a wire segment.  Sequence numbers are in host order.
#[derive(Debug, Clone, Copy, PartialEq, Eq, Structural)]
pub struct TcpSegment {
    pub seqno: u32,
    pub ackno: u32,
    pub flags: TcpFlags,
    pub wnd: u16,
    pub tcphdr_len: u16,
    pub payload_len: u16,
}

/// RST validation verdict (RFC 5961 section 3).
///
/// `Invalid` is reserved for a stricter future policy; the current rules
/// return only `Valid` or `Challenge`.
#[derive(Debug, Clone, Copy, PartialEq, Eq, Structural)]
pub enum RstValidation {
    Valid,
    Invalid,
    Challenge,
}

/// ACK validation verdict (RFC 5961 section 5).
///
/// `Invalid` is reserved; the current rules never return it.
#[derive(Debug, Clone, Copy, PartialEq, Eq, Structural)]
pub enum AckValidation {
    Valid,
    Invalid,
    Duplicate,
    Future,
    Old,
}

/// The dispatcher's single observable output per segment.
#[derive(Debug, Clone, Copy, PartialEq, Eq, Structural)]
pub enum InputAction {
    Accept,
    Drop,
    SendAck,
    SendSynAck,
    SendChallengeAck,
    SendRst,
    Abort,
}

/// The error taxonomy of the core.  Every error is recovered locally:
/// a handler that fails leaves its component untouched.
#[derive(Debug, Clone, Copy, PartialEq, Eq, Structural)]
pub enum TcpError {
    /// An operation was issued from an incompatible lifecycle state.
    WrongState,
    /// A handshake or teardown ACK whose number does not match the expected one.
    InvalidAckNumber,
    /// A FIN whose sequence number is not the next expected one.
    InvalidSequenceNumber,
    /// A port that is zero where a concrete port is needed.
    InvalidPort,
    /// A wire segment shorter than the fixed 20-byte header.
    ShortHeader,
}

} // verus!
