//! Whole-connection control-path handlers: each takes the complete
//! `TcpConnectionState`, validates the lifecycle state itself, and performs
//! one transition of the model in `transitions`.  They offer the same
//! behaviour as the dispatcher's per-state paths to embeddings that drive
//! transitions one event at a time.

use vstd::prelude::*;
use crate::state::{TcpState, TcpConnectionState};
use crate::tcp_types::{IpAddr, TcpSegment, TcpError, InputAction, RstValidation, AckValidation};
use crate::rod::{spec_valid_seq, spec_ack_validation, spec_rst_validation};
use crate::congestion_control::MSS_LIMIT;
use crate::transitions::{dispatch, reset_all, apply_syn_in_listen, apply_synack_in_synsent,
    apply_ack_in_synrcvd, apply_fin, apply_fin_ack};
use crate::connection_mgmt::cm_set_state;

verus! {

/// Handshake, teardown and reset transitions over the whole connection.
pub struct ControlPath {}

impl ControlPath {
    /// Listen to SynRcvd on an incoming SYN: materialize the remote half of
    /// the 4-tuple, install sequence numbers, windows and the initial
    /// congestion window.
    pub fn process_syn_in_listen(
        state: &mut TcpConnectionState,
        seg: &TcpSegment,
        remote_ip: IpAddr,
        remote_port: u16,
    ) -> (r: Result<(), TcpError>)
        requires
            old(state).conn_mgmt.mss <= MSS_LIMIT,
        ensures
            old(state).conn_mgmt.state != TcpState::Listen ==> r == Err::<(), TcpError>(
                TcpError::WrongState,
            ) && *final(state) == *old(state),
            old(state).conn_mgmt.state == TcpState::Listen ==> r == Ok::<(), TcpError>(())
                && *final(state) == apply_syn_in_listen(*old(state), *seg, remote_ip, remote_port),
    {
        if state.conn_mgmt.state != TcpState::Listen {
            return Err(TcpError::WrongState);
        }
        let _ = state.rod.on_syn_in_listen(seg);
        let _ = state.flow_ctrl.on_syn_in_listen(seg, &state.conn_mgmt);
        let _ = state.cong_ctrl.on_syn_in_listen(&state.conn_mgmt);
        let _ = state.conn_mgmt.on_syn_in_listen(remote_ip, remote_port);
        Ok(())
    }

    /// SynSent to Established on a SYN-ACK that acknowledges our SYN.
    pub fn process_synack_in_synsent(state: &mut TcpConnectionState, seg: &TcpSegment) -> (r:
        Result<(), TcpError>)
        requires
            old(state).conn_mgmt.mss <= MSS_LIMIT,
        ensures
            old(state).conn_mgmt.state != TcpState::SynSent ==> r == Err::<(), TcpError>(
                TcpError::WrongState,
            ) && *final(state) == *old(state),
            old(state).conn_mgmt.state == TcpState::SynSent && seg.ackno != old(state).rod.iss.wrapping_add(1) ==> r == Err::<(), TcpError>(TcpError::InvalidAckNumber)
                && *final(state) == *old(state),
            old(state).conn_mgmt.state == TcpState::SynSent && seg.ackno == old(state).rod.iss.wrapping_add(1) ==> r == Ok::<(), TcpError>(()) && *final(state)
                == apply_synack_in_synsent(*old(state), *seg),
    {
        if state.conn_mgmt.state != TcpState::SynSent {
            return Err(TcpError::WrongState);
        }
        match state.rod.on_synack_in_synsent(seg) {
            Ok(_) => {},
            Err(e) => {
                return Err(e);
            },
        }
        let _ = state.flow_ctrl.on_synack_in_synsent(seg);
        let _ = state.cong_ctrl.on_synack_in_synsent(&state.conn_mgmt);
        let _ = state.conn_mgmt.on_synack_in_synsent();
        Ok(())
    }

    /// SynRcvd to Established on the ACK of our SYN.
    pub fn process_ack_in_synrcvd(state: &mut TcpConnectionState, seg: &TcpSegment) -> (r: Result<
        (),
        TcpError,
    >)
        ensures
            old(state).conn_mgmt.state != TcpState::SynRcvd ==> r == Err::<(), TcpError>(
                TcpError::WrongState,
            ) && *final(state) == *old(state),
            old(state).conn_mgmt.state == TcpState::SynRcvd && seg.ackno != old(state).rod.iss.wrapping_add(1) ==> r == Err::<(), TcpError>(TcpError::InvalidAckNumber)
                && *final(state) == *old(state),
            old(state).conn_mgmt.state == TcpState::SynRcvd && seg.ackno == old(state).rod.iss.wrapping_add(1) ==> r == Ok::<(), TcpError>(()) && *final(state)
                == apply_ack_in_synrcvd(*old(state), *seg),
    {
        if state.conn_mgmt.state != TcpState::SynRcvd {
            return Err(TcpError::WrongState);
        }
        match state.rod.on_ack_in_synrcvd(seg) {
            Ok(_) => {},
            Err(e) => {
                return Err(e);
            },
        }
        let _ = state.flow_ctrl.on_ack_in_synrcvd(seg);
        let _ = state.cong_ctrl.on_ack_in_synrcvd();
        let _ = state.conn_mgmt.on_ack_in_synrcvd();
        Ok(())
    }

    /// A validated reset: every component cleared in the fixed order,
    /// lifecycle Closed.
    pub fn process_rst(state: &mut TcpConnectionState)
        ensures
            *final(state) == reset_all(*old(state)),
    {
        let _ = state.rod.on_rst();
        let _ = state.flow_ctrl.on_rst();
        let _ = state.cong_ctrl.on_rst();
        let _ = state.conn_mgmt.on_rst();
    }

    /// RFC 793 sequence-window check against the connection's receive state.
    pub fn validate_sequence_number(state: &TcpConnectionState, seg: &TcpSegment) -> (r: bool)
        ensures
            r == spec_valid_seq(state.rod.rcv_nxt, *seg, state.flow_ctrl.rcv_wnd),
    {
        state.rod.validate_sequence_number(seg, state.flow_ctrl.rcv_wnd)
    }

    /// RFC 5961 RST check against the connection's receive state.
    pub fn validate_rst(state: &TcpConnectionState, seg: &TcpSegment) -> (r: RstValidation)
        ensures
            r == spec_rst_validation(state.rod.rcv_nxt, *seg, state.flow_ctrl.rcv_wnd),
    {
        state.rod.validate_rst(seg, state.flow_ctrl.rcv_wnd)
    }

    /// RFC 5961 ACK check against the connection's send state.
    pub fn validate_ack(state: &TcpConnectionState, seg: &TcpSegment) -> (r: AckValidation)
        ensures
            r == spec_ack_validation(state.rod.lastack, state.rod.snd_nxt, seg.ackno),
    {
        state.rod.validate_ack(seg)
    }

    /// Active close where a FIN is owed: Established to FinWait1 or
    /// CloseWait to LastAck, both answering true; any other state is
    /// rejected.  The FIN's sequence-number cost is booked by the
    /// transmitting collaborator when the FIN is actually sent.
    pub fn initiate_close(state: &mut TcpConnectionState) -> (r: Result<bool, TcpError>)
        ensures
            old(state).conn_mgmt.state == TcpState::Established ==> r == Ok::<bool, TcpError>(true)
                && *final(state) == (TcpConnectionState {
                conn_mgmt: cm_set_state(old(state).conn_mgmt, TcpState::FinWait1),
                ..*old(state)
            }),
            old(state).conn_mgmt.state == TcpState::CloseWait ==> r == Ok::<bool, TcpError>(true)
                && *final(state) == (TcpConnectionState {
                conn_mgmt: cm_set_state(old(state).conn_mgmt, TcpState::LastAck),
                ..*old(state)
            }),
            old(state).conn_mgmt.state != TcpState::Established && old(state).conn_mgmt.state
                != TcpState::CloseWait ==> r == Err::<bool, TcpError>(TcpError::WrongState)
                && *final(state) == *old(state),
    {
        match state.conn_mgmt.state {
            TcpState::Established => {
                let _ = state.conn_mgmt.on_close_in_established();
                Ok(true)
            },
            TcpState::CloseWait => {
                let _ = state.conn_mgmt.on_close_in_closewait();
                Ok(true)
            },
            _ => Err(TcpError::WrongState),
        }
    }

    /// Established to CloseWait on the peer's FIN at the expected sequence
    /// number.
    pub fn process_fin_in_established(state: &mut TcpConnectionState, seg: &TcpSegment) -> (r:
        Result<(), TcpError>)
        ensures
            old(state).conn_mgmt.state != TcpState::Established ==> r == Err::<(), TcpError>(
                TcpError::WrongState,
            ) && *final(state) == *old(state),
            old(state).conn_mgmt.state == TcpState::Established && seg.seqno != old(state).rod.rcv_nxt ==> r == Err::<(), TcpError>(TcpError::InvalidSequenceNumber) && *final(state) == *old(state),
            old(state).conn_mgmt.state == TcpState::Established && seg.seqno == old(state).rod.rcv_nxt ==> r == Ok::<(), TcpError>(()) && *final(state) == apply_fin(
                *old(state),
                TcpState::CloseWait,
            ),
    {
        if state.conn_mgmt.state != TcpState::Established {
            return Err(TcpError::WrongState);
        }
        match state.rod.on_fin_in_established(seg) {
            Ok(_) => {},
            Err(e) => {
                return Err(e);
            },
        }
        let _ = state.conn_mgmt.on_fin_in_established();
        Ok(())
    }

    /// FinWait1 to FinWait2 on the ACK of our FIN.
    pub fn process_ack_in_finwait1(state: &mut TcpConnectionState, seg: &TcpSegment) -> (r: Result<
        (),
        TcpError,
    >)
        ensures
            old(state).conn_mgmt.state != TcpState::FinWait1 ==> r == Err::<(), TcpError>(
                TcpError::WrongState,
            ) && *final(state) == *old(state),
            old(state).conn_mgmt.state == TcpState::FinWait1 && seg.ackno != old(state).rod.snd_nxt.wrapping_add(1) ==> r == Err::<(), TcpError>(TcpError::InvalidAckNumber)
                && *final(state) == *old(state),
            old(state).conn_mgmt.state == TcpState::FinWait1 && seg.ackno == old(state).rod.snd_nxt.wrapping_add(1) ==> r == Ok::<(), TcpError>(()) && *final(state)
                == apply_fin_ack(*old(state), seg.ackno, TcpState::FinWait2),
    {
        if state.conn_mgmt.state != TcpState::FinWait1 {
            return Err(TcpError::WrongState);
        }
        match state.rod.on_ack_in_finwait1(seg) {
            Ok(_) => {},
            Err(e) => {
                return Err(e);
            },
        }
        let _ = state.conn_mgmt.on_ack_in_finwait1();
        Ok(())
    }

    /// FinWait1 to Closing on a crossing FIN (simultaneous close).
    pub fn process_fin_in_finwait1(state: &mut TcpConnectionState, seg: &TcpSegment) -> (r: Result<
        (),
        TcpError,
    >)
        ensures
            old(state).conn_mgmt.state != TcpState::FinWait1 ==> r == Err::<(), TcpError>(
                TcpError::WrongState,
            ) && *final(state) == *old(state),
            old(state).conn_mgmt.state == TcpState::FinWait1 && seg.seqno != old(state).rod.rcv_nxt
                ==> r == Err::<(), TcpError>(TcpError::InvalidSequenceNumber) && *final(state)
                == *old(state),
            old(state).conn_mgmt.state == TcpState::FinWait1 && seg.seqno == old(state).rod.rcv_nxt
                ==> r == Ok::<(), TcpError>(()) && *final(state) == apply_fin(
                *old(state),
                TcpState::Closing,
            ),
    {
        if state.conn_mgmt.state != TcpState::FinWait1 {
            return Err(TcpError::WrongState);
        }
        match state.rod.on_fin_in_finwait1(seg) {
            Ok(_) => {},
            Err(e) => {
                return Err(e);
            },
        }
        let _ = state.conn_mgmt.on_fin_in_finwait1();
        Ok(())
    }

    /// FinWait2 to TimeWait on the peer's FIN.
    pub fn process_fin_in_finwait2(state: &mut TcpConnectionState, seg: &TcpSegment) -> (r: Result<
        (),
        TcpError,
    >)
        ensures
            old(state).conn_mgmt.state != TcpState::FinWait2 ==> r == Err::<(), TcpError>(
                TcpError::WrongState,
            ) && *final(state) == *old(state),
            old(state).conn_mgmt.state == TcpState::FinWait2 && seg.seqno != old(state).rod.rcv_nxt
                ==> r == Err::<(), TcpError>(TcpError::InvalidSequenceNumber) && *final(state)
                == *old(state),
            old(state).conn_mgmt.state == TcpState::FinWait2 && seg.seqno == old(state).rod.rcv_nxt
                ==> r == Ok::<(), TcpError>(()) && *final(state) == apply_fin(
                *old(state),
                TcpState::TimeWait,
            ),
    {
        if state.conn_mgmt.state != TcpState::FinWait2 {
            return Err(TcpError::WrongState);
        }
        match state.rod.on_fin_in_finwait2(seg) {
            Ok(_) => {},
            Err(e) => {
                return Err(e);
            },
        }
        let _ = state.conn_mgmt.on_fin_in_finwait2();
        Ok(())
    }

    /// Closing to TimeWait on the ACK of our FIN.
    pub fn process_ack_in_closing(state: &mut TcpConnectionState, seg: &TcpSegment) -> (r: Result<
        (),
        TcpError,
    >)
        ensures
            old(state).conn_mgmt.state != TcpState::Closing ==> r == Err::<(), TcpError>(
                TcpError::WrongState,
            ) && *final(state) == *old(state),
            old(state).conn_mgmt.state == TcpState::Closing && seg.ackno != old(state).rod.snd_nxt.wrapping_add(1) ==> r == Err::<(), TcpError>(TcpError::InvalidAckNumber)
                && *final(state) == *old(state),
            old(state).conn_mgmt.state == TcpState::Closing && seg.ackno == old(state).rod.snd_nxt.wrapping_add(1) ==> r == Ok::<(), TcpError>(()) && *final(state)
                == apply_fin_ack(*old(state), seg.ackno, TcpState::TimeWait),
    {
        if state.conn_mgmt.state != TcpState::Closing {
            return Err(TcpError::WrongState);
        }
        match state.rod.on_ack_in_closing(seg) {
            Ok(_) => {},
            Err(e) => {
                return Err(e);
            },
        }
        let _ = state.conn_mgmt.on_ack_in_closing();
        Ok(())
    }

    /// LastAck to Closed on the ACK of our FIN.
    pub fn process_ack_in_lastack(state: &mut TcpConnectionState, seg: &TcpSegment) -> (r: Result<
        (),
        TcpError,
    >)
        ensures
            old(state).conn_mgmt.state != TcpState::LastAck ==> r == Err::<(), TcpError>(
                TcpError::WrongState,
            ) && *final(state) == *old(state),
            old(state).conn_mgmt.state == TcpState::LastAck && seg.ackno != old(state).rod.snd_nxt.wrapping_add(1) ==> r == Err::<(), TcpError>(TcpError::InvalidAckNumber)
                && *final(state) == *old(state),
            old(state).conn_mgmt.state == TcpState::LastAck && seg.ackno == old(state).rod.snd_nxt.wrapping_add(1) ==> r == Ok::<(), TcpError>(()) && *final(state)
                == apply_fin_ack(*old(state), seg.ackno, TcpState::Closed),
    {
        if state.conn_mgmt.state != TcpState::LastAck {
            return Err(TcpError::WrongState);
        }
        match state.rod.on_ack_in_lastack(seg) {
            Ok(_) => {},
            Err(e) => {
                return Err(e);
            },
        }
        let _ = state.conn_mgmt.on_ack_in_lastack();
        Ok(())
    }

    /// Bind the local half of the 4-tuple.
    pub fn tcp_bind(state: &mut TcpConnectionState, local_ip: IpAddr, local_port: u16) -> (r:
        Result<u16, TcpError>)
        ensures
            r == Ok::<u16, TcpError>(local_port) <==> (old(state).conn_mgmt.state
                == TcpState::Closed && local_port != 0),
            r is Ok ==> *final(state) == (TcpConnectionState {
                conn_mgmt: crate::connection_mgmt::cm_bind(
                    old(state).conn_mgmt,
                    local_ip,
                    local_port,
                ),
                ..*old(state)
            }),
            r is Err ==> *final(state) == *old(state),
    {
        crate::tcp_api::tcp_bind(state, local_ip, local_port)
    }

    /// Closed to Listen.
    pub fn tcp_listen(state: &mut TcpConnectionState) -> (r: Result<(), TcpError>)
        ensures
            r == Ok::<(), TcpError>(()) <==> (old(state).conn_mgmt.state == TcpState::Closed && old(state).conn_mgmt.local_port != 0),
            r is Ok ==> *final(state) == (TcpConnectionState {
                conn_mgmt: cm_set_state(old(state).conn_mgmt, TcpState::Listen),
                ..*old(state)
            }),
            r is Err ==> *final(state) == *old(state),
    {
        crate::tcp_api::tcp_listen(state)
    }

    /// Active open: Closed to SynSent.
    pub fn tcp_connect(state: &mut TcpConnectionState, remote_ip: IpAddr, remote_port: u16) -> (r:
        Result<(), TcpError>)
        ensures
            r == Ok::<(), TcpError>(()) <==> old(state).conn_mgmt.state == TcpState::Closed,
            r is Ok ==> *final(state) == crate::tcp_api::apply_connect(
                *old(state),
                remote_ip,
                remote_port,
            ),
            r is Err ==> *final(state) == *old(state),
    {
        crate::tcp_api::tcp_connect(state, remote_ip, remote_port)
    }

    /// Abort: any state to Closed, every component cleared; answers whether
    /// an RST is owed.
    pub fn tcp_abort(state: &mut TcpConnectionState) -> (r: Result<bool, TcpError>)
        ensures
            r == Ok::<bool, TcpError>(
                crate::connection_mgmt::abort_sends_rst(old(state).conn_mgmt.state),
            ),
            *final(state) == reset_all(*old(state)),
    {
        crate::tcp_api::tcp_abort(state)
    }

    /// The input dispatcher over the whole connection.
    pub fn tcp_input(
        state: &mut TcpConnectionState,
        seg: &TcpSegment,
        remote_ip: IpAddr,
        remote_port: u16,
    ) -> (r: Result<InputAction, TcpError>)
        requires
            old(state).conn_mgmt.mss <= MSS_LIMIT,
        ensures
            ({
                let (post, action) = dispatch(*old(state), *seg, remote_ip, remote_port);
                *final(state) == post && r == Ok::<InputAction, TcpError>(action)
            }),
    {
        crate::tcp_api::tcp_input(state, seg, remote_ip, remote_port)
    }
}

} // verus!
