//! Core of a TCP transport-protocol engine: the per-connection state machine,
//! its segment-processing dispatcher, and the decomposition of connection
//! state into disjoint components (connection management, reliable ordered
//! delivery, flow control, congestion control, demultiplexing).
//!
//! The engine owns no sockets, timers or transport: every public entry point
//! is a pure transformation of a `TcpConnectionState` and a parsed segment
//! into a new state and a single observable `InputAction`.

pub mod seqnum;
pub mod tcp_types;
pub mod tcp_proto;
pub mod connection_mgmt;
pub mod rod;
pub mod flow_control;
pub mod congestion_control;
pub mod state;
pub mod transitions;
pub mod tcp_api;
pub mod control_path;
pub mod laws;

pub use seqnum::{seq_lt, seq_leq, seq_gt};
pub use tcp_api::{tcp_bind, tcp_listen, tcp_connect, tcp_abort, initiate_close, tcp_input};
pub use tcp_types::{IpAddr, TcpFlags, TcpSegment, RstValidation, AckValidation, InputAction,
    TcpError};
pub use state::{TcpState, TcpConnectionState, DemuxState};
pub use connection_mgmt::ConnectionManagementState;
pub use rod::ReliableOrderedDeliveryState;
pub use flow_control::FlowControlState;
pub use congestion_control::CongestionControlState;
