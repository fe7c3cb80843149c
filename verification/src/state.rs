//! The lifecycle enum and the complete per-connection state: one of each of
//! the disjoint components, aggregated behind a single value the dispatcher
//! and the API operate on.

use vstd::prelude::*;
use crate::connection_mgmt::ConnectionManagementState;
use crate::rod::ReliableOrderedDeliveryState;
use crate::flow_control::FlowControlState;
use crate::congestion_control::CongestionControlState;
use crate::tcp_types::IpAddr;

verus! {

/// The eleven lifecycle states of RFC 793 section 3.2.
#[derive(Debug, Clone, Copy, PartialEq, Eq, Structural)]
pub enum TcpState {
    Closed,
    Listen,
    SynSent,
    SynRcvd,
    Established,
    FinWait1,
    FinWait2,
    CloseWait,
    Closing,
    LastAck,
    TimeWait,
}

/// The numeric code of each lifecycle state.
pub open spec fn spec_state_to_u32(s: TcpState) -> u32 {
    match s {
        TcpState::Closed => 0,
        TcpState::Listen => 1,
        TcpState::SynSent => 2,
        TcpState::SynRcvd => 3,
        TcpState::Established => 4,
        TcpState::FinWait1 => 5,
        TcpState::FinWait2 => 6,
        TcpState::CloseWait => 7,
        TcpState::Closing => 8,
        TcpState::LastAck => 9,
        TcpState::TimeWait => 10,
    }
}

/// The lifecycle state of a numeric code, if the code names one.
pub open spec fn spec_state_from_u32(val: u32) -> Option<TcpState> {
    match val {
        0u32 => Some(TcpState::Closed),
        1u32 => Some(TcpState::Listen),
        2u32 => Some(TcpState::SynSent),
        3u32 => Some(TcpState::SynRcvd),
        4u32 => Some(TcpState::Established),
        5u32 => Some(TcpState::FinWait1),
        6u32 => Some(TcpState::FinWait2),
        7u32 => Some(TcpState::CloseWait),
        8u32 => Some(TcpState::Closing),
        9u32 => Some(TcpState::LastAck),
        10u32 => Some(TcpState::TimeWait),
        _ => None,
    }
}

/// The states at or past FinWait1, where a close is already under way.
pub open spec fn spec_is_closing(s: TcpState) -> bool {
    match s {
        TcpState::FinWait1
        | TcpState::FinWait2
        | TcpState::CloseWait
        | TcpState::Closing
        | TcpState::LastAck
        | TcpState::TimeWait => true,
        _ => false,
    }
}

impl TcpState {
    /// The lifecycle state named by a numeric code, if any.
    pub fn from_u32(val: u32) -> (r: Option<Self>)
        ensures
            r == spec_state_from_u32(val),
            r matches Some(s) ==> spec_state_to_u32(s) == val,
    {
        match val {
            0u32 => Some(TcpState::Closed),
            1u32 => Some(TcpState::Listen),
            2u32 => Some(TcpState::SynSent),
            3u32 => Some(TcpState::SynRcvd),
            4u32 => Some(TcpState::Established),
            5u32 => Some(TcpState::FinWait1),
            6u32 => Some(TcpState::FinWait2),
            7u32 => Some(TcpState::CloseWait),
            8u32 => Some(TcpState::Closing),
            9u32 => Some(TcpState::LastAck),
            10u32 => Some(TcpState::TimeWait),
            _ => None,
        }
    }

    /// The numeric code of this lifecycle state.
    pub fn to_u32(self) -> (r: u32)
        ensures
            r == spec_state_to_u32(self),
            spec_state_from_u32(r) == Some(self),
    {
        match self {
            TcpState::Closed => 0,
            TcpState::Listen => 1,
            TcpState::SynSent => 2,
            TcpState::SynRcvd => 3,
            TcpState::Established => 4,
            TcpState::FinWait1 => 5,
            TcpState::FinWait2 => 6,
            TcpState::CloseWait => 7,
            TcpState::Closing => 8,
            TcpState::LastAck => 9,
            TcpState::TimeWait => 10,
        }
    }

    /// Whether a close is already under way: FinWait1 and every state past it.
    pub fn is_closing(&self) -> (r: bool)
        ensures
            r == spec_is_closing(*self),
    {
        match *self {
            TcpState::FinWait1
            | TcpState::FinWait2
            | TcpState::CloseWait
            | TcpState::Closing
            | TcpState::LastAck
            | TcpState::TimeWait => true,
            _ => false,
        }
    }
}

/// Demultiplexing is stateless: a connection is identified by the 4-tuple
/// held by connection management.  The component exists to complete the
/// decomposition.
pub struct DemuxState {}

impl DemuxState {
    pub fn new() -> (r: Self)
        ensures
            r == (DemuxState {  }),
    {
        DemuxState {  }
    }

    /// The stateless 4-tuple match that demultiplexing keys on.  The table
    /// that holds many connections is the embedding's; the core only answers
    /// whether a connection's identity matches a segment's addresses.
    pub fn matches_tuple(
        conn_mgmt: &ConnectionManagementState,
        local_ip: IpAddr,
        local_port: u16,
        remote_ip: IpAddr,
        remote_port: u16,
    ) -> (r: bool)
        ensures
            r == (conn_mgmt.local_ip == local_ip && conn_mgmt.local_port == local_port
                && conn_mgmt.remote_ip == remote_ip && conn_mgmt.remote_port == remote_port),
    {
        conn_mgmt.local_ip == local_ip && conn_mgmt.local_port == local_port
            && conn_mgmt.remote_ip == remote_ip && conn_mgmt.remote_port == remote_port
    }
}

/// Complete per-connection state: one of each component.  The aggregation
/// enforces the write boundaries: each component is reached only through its
/// own typed event handlers.
pub struct TcpConnectionState {
    pub conn_mgmt: ConnectionManagementState,
    pub rod: ReliableOrderedDeliveryState,
    pub flow_ctrl: FlowControlState,
    pub cong_ctrl: CongestionControlState,
    pub demux: DemuxState,
}

impl TcpConnectionState {
    /// The freshly created connection: every component in its initial state,
    /// lifecycle Closed.
    pub open spec fn spec_new() -> Self {
        TcpConnectionState {
            conn_mgmt: ConnectionManagementState::spec_new(),
            rod: ReliableOrderedDeliveryState::spec_new(),
            flow_ctrl: FlowControlState::spec_new(),
            cong_ctrl: CongestionControlState::spec_new(),
            demux: DemuxState {  },
        }
    }

    pub fn new() -> (r: Self)
        ensures
            r == Self::spec_new(),
    {
        TcpConnectionState {
            conn_mgmt: ConnectionManagementState::new(),
            rod: ReliableOrderedDeliveryState::new(),
            flow_ctrl: FlowControlState::new(),
            cong_ctrl: CongestionControlState::new(),
            demux: DemuxState::new(),
        }
    }
}

} // verus!
