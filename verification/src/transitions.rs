//! The specification-level transition function of the input dispatcher:
//! for every connection state and every inbound segment, the exact next
//! state and the single observable action.  The executable dispatcher in
//! `tcp_api` is proved to compute precisely this function, and the laws in
//! `laws` are proved of it.

use vstd::prelude::*;
use crate::state::{TcpState, TcpConnectionState};
use crate::tcp_types::{IpAddr, TcpSegment, InputAction, RstValidation, AckValidation};
use crate::connection_mgmt::{cm_set_state, cm_syn_in_listen};
use crate::rod::{rod_syn_in_listen, rod_synack_in_synsent, rod_ack_in_synrcvd, rod_fin_advance,
    rod_ack_of_fin, rod_reset, spec_valid_seq, spec_ack_validation, spec_rst_validation};
use crate::flow_control::{fc_syn_in_listen, fc_synack_in_synsent, fc_ack_in_synrcvd, fc_reset};
use crate::congestion_control::{cc_initial_window, cc_reset};

verus! {

/// The whole connection after a validated reset or an abort: every component
/// cleared in the fixed order ROD, FC, CC, CM, ending Closed.
pub open spec fn reset_all(pre: TcpConnectionState) -> TcpConnectionState {
    TcpConnectionState {
        rod: rod_reset(pre.rod),
        flow_ctrl: fc_reset(pre.flow_ctrl),
        cong_ctrl: cc_reset(pre.cong_ctrl),
        conn_mgmt: cm_set_state(pre.conn_mgmt, TcpState::Closed),
        ..pre
    }
}

/// The whole connection after a SYN accepted in Listen: sequence numbers,
/// windows, congestion window and lifecycle written in the fixed order.
pub open spec fn apply_syn_in_listen(
    pre: TcpConnectionState,
    seg: TcpSegment,
    remote_ip: IpAddr,
    remote_port: u16,
) -> TcpConnectionState {
    TcpConnectionState {
        rod: rod_syn_in_listen(pre.rod, seg),
        flow_ctrl: fc_syn_in_listen(pre.flow_ctrl, seg),
        cong_ctrl: cc_initial_window(pre.cong_ctrl, pre.conn_mgmt.mss),
        conn_mgmt: cm_syn_in_listen(pre.conn_mgmt, remote_ip, remote_port),
        ..pre
    }
}

/// The whole connection after a SYN-ACK accepted in SynSent.
pub open spec fn apply_synack_in_synsent(pre: TcpConnectionState, seg: TcpSegment)
    -> TcpConnectionState {
    TcpConnectionState {
        rod: rod_synack_in_synsent(pre.rod, seg),
        flow_ctrl: fc_synack_in_synsent(pre.flow_ctrl, seg),
        cong_ctrl: cc_initial_window(pre.cong_ctrl, pre.conn_mgmt.mss),
        conn_mgmt: cm_set_state(pre.conn_mgmt, TcpState::Established),
        ..pre
    }
}

/// The whole connection after the handshake-completing ACK in SynRcvd.
pub open spec fn apply_ack_in_synrcvd(pre: TcpConnectionState, seg: TcpSegment)
    -> TcpConnectionState {
    TcpConnectionState {
        rod: rod_ack_in_synrcvd(pre.rod, seg),
        flow_ctrl: fc_ack_in_synrcvd(pre.flow_ctrl, seg),
        conn_mgmt: cm_set_state(pre.conn_mgmt, TcpState::Established),
        ..pre
    }
}

/// The whole connection after a FIN is consumed and the lifecycle moves to
/// the given state; flow and congestion control are untouched.
pub open spec fn apply_fin(pre: TcpConnectionState, next: TcpState) -> TcpConnectionState {
    TcpConnectionState {
        rod: rod_fin_advance(pre.rod),
        conn_mgmt: cm_set_state(pre.conn_mgmt, next),
        ..pre
    }
}

/// The whole connection after the peer acknowledges our FIN and the
/// lifecycle moves to the given state.
pub open spec fn apply_fin_ack(pre: TcpConnectionState, ackno: u32, next: TcpState)
    -> TcpConnectionState {
    TcpConnectionState {
        rod: rod_ack_of_fin(pre.rod, ackno),
        conn_mgmt: cm_set_state(pre.conn_mgmt, next),
        ..pre
    }
}

/// Whether the segment's sequence number is acceptable against the
/// connection's receive state.
pub open spec fn seg_in_window(pre: TcpConnectionState, seg: TcpSegment) -> bool {
    spec_valid_seq(pre.rod.rcv_nxt, seg, pre.flow_ctrl.rcv_wnd)
}

/// Listen accepts a SYN alone and answers anything else with an RST,
/// as RFC 793 mandates.
pub open spec fn step_listen(
    pre: TcpConnectionState,
    seg: TcpSegment,
    remote_ip: IpAddr,
    remote_port: u16,
) -> (TcpConnectionState, InputAction) {
    if seg.flags.syn && !seg.flags.ack {
        (apply_syn_in_listen(pre, seg, remote_ip, remote_port), InputAction::SendSynAck)
    } else {
        (pre, InputAction::SendRst)
    }
}

/// SynSent accepts the SYN-ACK of our SYN; a lone SYN (simultaneous open) is
/// accepted without materializing state, anything else is dropped.
pub open spec fn step_synsent(pre: TcpConnectionState, seg: TcpSegment) -> (
    TcpConnectionState,
    InputAction,
) {
    if seg.flags.syn && seg.flags.ack {
        if seg.ackno == pre.rod.iss.wrapping_add(1) {
            (apply_synack_in_synsent(pre, seg), InputAction::Accept)
        } else {
            (pre, InputAction::Drop)
        }
    } else if seg.flags.syn {
        (pre, InputAction::Accept)
    } else {
        (pre, InputAction::Drop)
    }
}

/// SynRcvd accepts an in-window ACK of our SYN.
pub open spec fn step_synrcvd(pre: TcpConnectionState, seg: TcpSegment) -> (
    TcpConnectionState,
    InputAction,
) {
    if !seg_in_window(pre, seg) {
        (pre, InputAction::Drop)
    } else if seg.flags.ack {
        if seg.ackno == pre.rod.iss.wrapping_add(1) {
            (apply_ack_in_synrcvd(pre, seg), InputAction::Accept)
        } else {
            (pre, InputAction::Drop)
        }
    } else {
        (pre, InputAction::Drop)
    }
}

/// Established validates the window and the ACK (RFC 5961: a future ACK
/// draws a challenge, an old one is dropped), consumes a FIN at the exact
/// next sequence number, and accepts everything else as data path.
pub open spec fn step_established(pre: TcpConnectionState, seg: TcpSegment) -> (
    TcpConnectionState,
    InputAction,
) {
    if !seg_in_window(pre, seg) {
        (pre, InputAction::Drop)
    } else {
        let ackval = spec_ack_validation(pre.rod.lastack, pre.rod.snd_nxt, seg.ackno);
        if seg.flags.ack && ackval == AckValidation::Future {
            (pre, InputAction::SendChallengeAck)
        } else if seg.flags.ack && (ackval == AckValidation::Old || ackval
            == AckValidation::Invalid) {
            (pre, InputAction::Drop)
        } else if seg.flags.fin {
            if seg.seqno == pre.rod.rcv_nxt {
                (apply_fin(pre, TcpState::CloseWait), InputAction::SendAck)
            } else {
                (pre, InputAction::Drop)
            }
        } else {
            (pre, InputAction::Accept)
        }
    }
}

/// FinWait1 takes the ACK of our FIN to FinWait2, a crossing FIN to Closing,
/// and both together straight to TimeWait.
pub open spec fn step_finwait1(pre: TcpConnectionState, seg: TcpSegment) -> (
    TcpConnectionState,
    InputAction,
) {
    if !seg_in_window(pre, seg) {
        (pre, InputAction::Drop)
    } else {
        let acks_our_fin = seg.flags.ack && seg.ackno == pre.rod.snd_nxt.wrapping_add(1);
        let fin_in_order = seg.flags.fin && seg.seqno == pre.rod.rcv_nxt;
        if acks_our_fin && fin_in_order {
            (
                apply_fin(apply_fin_ack(pre, seg.ackno, TcpState::TimeWait), TcpState::TimeWait),
                InputAction::Accept,
            )
        } else if acks_our_fin {
            (apply_fin_ack(pre, seg.ackno, TcpState::FinWait2), InputAction::Accept)
        } else if fin_in_order {
            (apply_fin(pre, TcpState::Closing), InputAction::Accept)
        } else {
            (pre, InputAction::Drop)
        }
    }
}

/// FinWait2 consumes the peer's FIN into TimeWait and goes on accepting
/// anything else in window.
pub open spec fn step_finwait2(pre: TcpConnectionState, seg: TcpSegment) -> (
    TcpConnectionState,
    InputAction,
) {
    if !seg_in_window(pre, seg) {
        (pre, InputAction::Drop)
    } else if seg.flags.fin {
        if seg.seqno == pre.rod.rcv_nxt {
            (apply_fin(pre, TcpState::TimeWait), InputAction::Accept)
        } else {
            (pre, InputAction::Drop)
        }
    } else {
        (pre, InputAction::Accept)
    }
}

/// CloseWait accepts anything in window; the connection waits for the
/// application to close.
pub open spec fn step_closewait(pre: TcpConnectionState, seg: TcpSegment) -> (
    TcpConnectionState,
    InputAction,
) {
    if !seg_in_window(pre, seg) {
        (pre, InputAction::Drop)
    } else {
        (pre, InputAction::Accept)
    }
}

/// Closing takes the ACK of our FIN to TimeWait.
pub open spec fn step_closing(pre: TcpConnectionState, seg: TcpSegment) -> (
    TcpConnectionState,
    InputAction,
) {
    if !seg_in_window(pre, seg) {
        (pre, InputAction::Drop)
    } else if seg.flags.ack {
        if seg.ackno == pre.rod.snd_nxt.wrapping_add(1) {
            (apply_fin_ack(pre, seg.ackno, TcpState::TimeWait), InputAction::Accept)
        } else {
            (pre, InputAction::Drop)
        }
    } else {
        (pre, InputAction::Drop)
    }
}

/// LastAck takes the ACK of our FIN to Closed.
pub open spec fn step_lastack(pre: TcpConnectionState, seg: TcpSegment) -> (
    TcpConnectionState,
    InputAction,
) {
    if !seg_in_window(pre, seg) {
        (pre, InputAction::Drop)
    } else if seg.flags.ack {
        if seg.ackno == pre.rod.snd_nxt.wrapping_add(1) {
            (apply_fin_ack(pre, seg.ackno, TcpState::Closed), InputAction::Accept)
        } else {
            (pre, InputAction::Drop)
        }
    } else {
        (pre, InputAction::Drop)
    }
}

/// TimeWait re-acknowledges a retransmitted FIN and otherwise absorbs
/// in-window segments; only the 2MSL timer collaborator may demote it.
pub open spec fn step_timewait(pre: TcpConnectionState, seg: TcpSegment) -> (
    TcpConnectionState,
    InputAction,
) {
    if !seg_in_window(pre, seg) {
        (pre, InputAction::Drop)
    } else if seg.flags.fin {
        (pre, InputAction::SendAck)
    } else {
        (pre, InputAction::Accept)
    }
}

/// The dispatcher: the RFC 5961 reset short-circuit first (no other flag is
/// processed when RST is set), then the per-state table.  Total: for every
/// state and segment it yields the next state and one action, and a segment
/// that fails any check leaves the connection exactly as it was.
pub open spec fn dispatch(
    pre: TcpConnectionState,
    seg: TcpSegment,
    remote_ip: IpAddr,
    remote_port: u16,
) -> (TcpConnectionState, InputAction) {
    if seg.flags.rst {
        if spec_rst_validation(pre.rod.rcv_nxt, seg, pre.flow_ctrl.rcv_wnd)
            == RstValidation::Valid {
            (reset_all(pre), InputAction::Abort)
        } else {
            (pre, InputAction::SendChallengeAck)
        }
    } else {
        match pre.conn_mgmt.state {
            TcpState::Closed => (pre, InputAction::SendRst),
            TcpState::Listen => step_listen(pre, seg, remote_ip, remote_port),
            TcpState::SynSent => step_synsent(pre, seg),
            TcpState::SynRcvd => step_synrcvd(pre, seg),
            TcpState::Established => step_established(pre, seg),
            TcpState::FinWait1 => step_finwait1(pre, seg),
            TcpState::FinWait2 => step_finwait2(pre, seg),
            TcpState::CloseWait => step_closewait(pre, seg),
            TcpState::Closing => step_closing(pre, seg),
            TcpState::LastAck => step_lastack(pre, seg),
            TcpState::TimeWait => step_timewait(pre, seg),
        }
    }
}

} // verus!
