//! The public API orchestrator: bind, listen, connect, close, abort, and the
//! input dispatcher.  Each call composes the component handlers in the
//! documented order (ROD, then FC, then CC, then CM for inbound segments)
//! and is proved to realize the transition model of `transitions`.
//!
//! The returned booleans of `initiate_close` and `tcp_abort` are requests,
//! not side effects: the embedding turns them into wire packets through its
//! transmit collaborator.

use vstd::prelude::*;
use crate::state::{TcpState, TcpConnectionState};
use crate::tcp_types::{IpAddr, TcpSegment, TcpError, InputAction, RstValidation, AckValidation};
use crate::connection_mgmt::{cm_bind, cm_set_state, cm_connect, close_next_state, close_sends_fin,
    abort_sends_rst};
use crate::rod::rod_connect;
use crate::flow_control::fc_connect;
use crate::congestion_control::{cc_connect, MSS_LIMIT};
use crate::transitions::{dispatch, reset_all, step_listen, step_synsent, step_synrcvd,
    step_established, step_finwait1, step_finwait2, step_closewait, step_closing, step_lastack,
    step_timewait};

verus! {

/// The whole connection after an abort: every component cleared, Closed.
/// An abort and a validated reset leave the same state behind.
pub open spec fn abort_all(pre: TcpConnectionState) -> TcpConnectionState {
    reset_all(pre)
}

/// The whole connection after an active open: sequence numbers, receive
/// window, one-MSS congestion window, then the lifecycle move to SynSent.
pub open spec fn apply_connect(pre: TcpConnectionState, remote_ip: IpAddr, remote_port: u16)
    -> TcpConnectionState {
    TcpConnectionState {
        rod: rod_connect(pre.rod),
        flow_ctrl: fc_connect(pre.flow_ctrl),
        cong_ctrl: cc_connect(pre.cong_ctrl, pre.conn_mgmt.mss),
        conn_mgmt: cm_connect(pre.conn_mgmt, remote_ip, remote_port),
        ..pre
    }
}

/// Bind the local half of the 4-tuple.  Permitted only in Closed; port 0 is
/// rejected.  On success returns the bound port.
pub fn tcp_bind(state: &mut TcpConnectionState, local_ip: IpAddr, local_port: u16) -> (r: Result<
    u16,
    TcpError,
>)
    ensures
        old(state).conn_mgmt.state != TcpState::Closed ==> r == Err::<u16, TcpError>(
            TcpError::WrongState,
        ) && *final(state) == *old(state),
        old(state).conn_mgmt.state == TcpState::Closed && local_port == 0 ==> r == Err::<
            u16,
            TcpError,
        >(TcpError::InvalidPort) && *final(state) == *old(state),
        old(state).conn_mgmt.state == TcpState::Closed && local_port != 0 ==> r == Ok::<
            u16,
            TcpError,
        >(local_port) && *final(state) == (TcpConnectionState {
            conn_mgmt: cm_bind(old(state).conn_mgmt, local_ip, local_port),
            ..*old(state)
        }),
{
    state.conn_mgmt.on_bind(local_ip, local_port)
}

/// Closed to Listen.  Requires a bound (nonzero) local port.
pub fn tcp_listen(state: &mut TcpConnectionState) -> (r: Result<(), TcpError>)
    ensures
        old(state).conn_mgmt.state != TcpState::Closed ==> r == Err::<(), TcpError>(
            TcpError::WrongState,
        ) && *final(state) == *old(state),
        old(state).conn_mgmt.state == TcpState::Closed && old(state).conn_mgmt.local_port == 0
            ==> r == Err::<(), TcpError>(TcpError::InvalidPort) && *final(state) == *old(state),
        old(state).conn_mgmt.state == TcpState::Closed && old(state).conn_mgmt.local_port != 0
            ==> r == Ok::<(), TcpError>(()) && *final(state) == (TcpConnectionState {
            conn_mgmt: cm_set_state(old(state).conn_mgmt, TcpState::Listen),
            ..*old(state)
        }),
{
    state.conn_mgmt.on_listen()
}

/// Active open: Closed to SynSent.  A fresh initial sequence number is
/// chosen, the receive window opens at its initial size, and the congestion
/// window starts at one MSS.  Emitting the SYN is the transmit
/// collaborator's job.
pub fn tcp_connect(state: &mut TcpConnectionState, remote_ip: IpAddr, remote_port: u16) -> (r:
    Result<(), TcpError>)
    ensures
        old(state).conn_mgmt.state != TcpState::Closed ==> r == Err::<(), TcpError>(
            TcpError::WrongState,
        ) && *final(state) == *old(state),
        old(state).conn_mgmt.state == TcpState::Closed ==> r == Ok::<(), TcpError>(())
            && *final(state) == apply_connect(*old(state), remote_ip, remote_port),
{
    if state.conn_mgmt.state != TcpState::Closed {
        return Err(TcpError::WrongState);
    }
    let _ = state.rod.on_connect();
    let _ = state.flow_ctrl.on_connect();
    let _ = state.cong_ctrl.on_connect(&state.conn_mgmt);
    let _ = state.conn_mgmt.on_connect(remote_ip, remote_port);
    Ok(())
}

/// Graceful close.  Returns whether a FIN must be sent: true exactly from
/// Established and CloseWait; a terminal or still-opening state needs none.
pub fn initiate_close(state: &mut TcpConnectionState) -> (r: Result<bool, TcpError>)
    ensures
        r == Ok::<bool, TcpError>(close_sends_fin(old(state).conn_mgmt.state)),
        *final(state) == (TcpConnectionState {
            conn_mgmt: cm_set_state(
                old(state).conn_mgmt,
                close_next_state(old(state).conn_mgmt.state),
            ),
            ..*old(state)
        }),
{
    state.conn_mgmt.on_close()
}

/// Abort: any state to Closed, every component cleared.  Returns whether an
/// RST must be sent: true exactly when the prior state was neither Closed
/// nor Listen.
pub fn tcp_abort(state: &mut TcpConnectionState) -> (r: Result<bool, TcpError>)
    ensures
        r == Ok::<bool, TcpError>(abort_sends_rst(old(state).conn_mgmt.state)),
        *final(state) == abort_all(*old(state)),
{
    let should_send_rst = match state.conn_mgmt.state {
        TcpState::Closed => false,
        TcpState::Listen => false,
        _ => true,
    };
    let _ = state.rod.on_abort();
    let _ = state.flow_ctrl.on_abort();
    let _ = state.cong_ctrl.on_abort();
    let _ = state.conn_mgmt.on_abort();
    Ok(should_send_rst)
}

/// The input dispatcher: one parsed inbound segment against the current
/// connection, realizing exactly the transition model `dispatch`.  A
/// validated RST clears every component and yields `Abort`; otherwise the
/// per-state table decides, and a segment that fails any check leaves the
/// connection unchanged.
pub fn tcp_input(
    state: &mut TcpConnectionState,
    seg: &TcpSegment,
    remote_ip: IpAddr,
    remote_port: u16,
) -> (r: Result<InputAction, TcpError>)
    requires
        old(state).conn_mgmt.mss <= MSS_LIMIT,
    ensures
        ({
            let (post, action) = dispatch(*old(state), *seg, remote_ip, remote_port);
            *final(state) == post && r == Ok::<InputAction, TcpError>(action)
        }),
{
    if seg.flags.rst {
        let verdict = state.rod.validate_rst(seg, state.flow_ctrl.rcv_wnd);
        match verdict {
            RstValidation::Valid => {
                let _ = state.rod.on_rst();
                let _ = state.flow_ctrl.on_rst();
                let _ = state.cong_ctrl.on_rst();
                let _ = state.conn_mgmt.on_rst();
                return Ok(InputAction::Abort);
            },
            _ => {
                return Ok(InputAction::SendChallengeAck);
            },
        }
    }
    match state.conn_mgmt.state {
        TcpState::Closed => Ok(InputAction::SendRst),
        TcpState::Listen => input_listen(state, seg, remote_ip, remote_port),
        TcpState::SynSent => input_synsent(state, seg),
        TcpState::SynRcvd => input_synrcvd(state, seg),
        TcpState::Established => input_established(state, seg),
        TcpState::FinWait1 => input_finwait1(state, seg),
        TcpState::FinWait2 => input_finwait2(state, seg),
        TcpState::CloseWait => input_closewait(state, seg),
        TcpState::Closing => input_closing(state, seg),
        TcpState::LastAck => input_lastack(state, seg),
        TcpState::TimeWait => input_timewait(state, seg),
    }
}

fn input_listen(
    state: &mut TcpConnectionState,
    seg: &TcpSegment,
    remote_ip: IpAddr,
    remote_port: u16,
) -> (r: Result<InputAction, TcpError>)
    requires
        old(state).conn_mgmt.state == TcpState::Listen,
        old(state).conn_mgmt.mss <= MSS_LIMIT,
    ensures
        ({
            let (post, action) = step_listen(*old(state), *seg, remote_ip, remote_port);
            *final(state) == post && r == Ok::<InputAction, TcpError>(action)
        }),
{
    if seg.flags.syn && !seg.flags.ack {
        let _ = state.rod.on_syn_in_listen(seg);
        let _ = state.flow_ctrl.on_syn_in_listen(seg, &state.conn_mgmt);
        let _ = state.cong_ctrl.on_syn_in_listen(&state.conn_mgmt);
        let _ = state.conn_mgmt.on_syn_in_listen(remote_ip, remote_port);
        Ok(InputAction::SendSynAck)
    } else {
        Ok(InputAction::SendRst)
    }
}

fn input_synsent(state: &mut TcpConnectionState, seg: &TcpSegment) -> (r: Result<
    InputAction,
    TcpError,
>)
    requires
        old(state).conn_mgmt.state == TcpState::SynSent,
        old(state).conn_mgmt.mss <= MSS_LIMIT,
    ensures
        ({
            let (post, action) = step_synsent(*old(state), *seg);
            *final(state) == post && r == Ok::<InputAction, TcpError>(action)
        }),
{
    if seg.flags.syn && seg.flags.ack {
        match state.rod.on_synack_in_synsent(seg) {
            Ok(_) => {},
            Err(_) => {
                return Ok(InputAction::Drop);
            },
        }
        let _ = state.flow_ctrl.on_synack_in_synsent(seg);
        let _ = state.cong_ctrl.on_synack_in_synsent(&state.conn_mgmt);
        let _ = state.conn_mgmt.on_synack_in_synsent();
        Ok(InputAction::Accept)
    } else if seg.flags.syn {
        // Simultaneous open: accepted, no state materialized.
        Ok(InputAction::Accept)
    } else {
        Ok(InputAction::Drop)
    }
}

fn input_synrcvd(state: &mut TcpConnectionState, seg: &TcpSegment) -> (r: Result<
    InputAction,
    TcpError,
>)
    requires
        old(state).conn_mgmt.state == TcpState::SynRcvd,
    ensures
        ({
            let (post, action) = step_synrcvd(*old(state), *seg);
            *final(state) == post && r == Ok::<InputAction, TcpError>(action)
        }),
{
    if !state.rod.validate_sequence_number(seg, state.flow_ctrl.rcv_wnd) {
        return Ok(InputAction::Drop);
    }
    if seg.flags.ack {
        match state.rod.on_ack_in_synrcvd(seg) {
            Ok(_) => {},
            Err(_) => {
                return Ok(InputAction::Drop);
            },
        }
        let _ = state.flow_ctrl.on_ack_in_synrcvd(seg);
        let _ = state.cong_ctrl.on_ack_in_synrcvd();
        let _ = state.conn_mgmt.on_ack_in_synrcvd();
        Ok(InputAction::Accept)
    } else {
        Ok(InputAction::Drop)
    }
}

fn input_established(state: &mut TcpConnectionState, seg: &TcpSegment) -> (r: Result<
    InputAction,
    TcpError,
>)
    requires
        old(state).conn_mgmt.state == TcpState::Established,
    ensures
        ({
            let (post, action) = step_established(*old(state), *seg);
            *final(state) == post && r == Ok::<InputAction, TcpError>(action)
        }),
{
    if !state.rod.validate_sequence_number(seg, state.flow_ctrl.rcv_wnd) {
        return Ok(InputAction::Drop);
    }
    if seg.flags.ack {
        match state.rod.validate_ack(seg) {
            AckValidation::Valid | AckValidation::Duplicate => {},
            AckValidation::Future => {
                return Ok(InputAction::SendChallengeAck);
            },
            AckValidation::Old | AckValidation::Invalid => {
                return Ok(InputAction::Drop);
            },
        }
    }
    if seg.flags.fin {
        match state.rod.on_fin_in_established(seg) {
            Ok(_) => {},
            Err(_) => {
                return Ok(InputAction::Drop);
            },
        }
        let _ = state.flow_ctrl.on_fin_in_established(seg);
        let _ = state.cong_ctrl.on_fin_in_established(seg);
        let _ = state.conn_mgmt.on_fin_in_established();
        Ok(InputAction::SendAck)
    } else {
        Ok(InputAction::Accept)
    }
}

fn input_finwait1(state: &mut TcpConnectionState, seg: &TcpSegment) -> (r: Result<
    InputAction,
    TcpError,
>)
    requires
        old(state).conn_mgmt.state == TcpState::FinWait1,
    ensures
        ({
            let (post, action) = step_finwait1(*old(state), *seg);
            *final(state) == post && r == Ok::<InputAction, TcpError>(action)
        }),
{
    if !state.rod.validate_sequence_number(seg, state.flow_ctrl.rcv_wnd) {
        return Ok(InputAction::Drop);
    }
    let acks_our_fin = seg.flags.ack && seg.ackno == state.rod.snd_nxt.wrapping_add(1);
    let fin_in_order = seg.flags.fin && seg.seqno == state.rod.rcv_nxt;
    if acks_our_fin {
        let _ = state.rod.on_ack_in_finwait1(seg);
        let _ = state.flow_ctrl.on_ack_in_finwait1(seg);
        let _ = state.cong_ctrl.on_ack_in_finwait1(seg);
        let _ = state.conn_mgmt.on_ack_in_finwait1();
        if fin_in_order {
            // FIN and the ACK of our FIN together: straight to TimeWait.
            let _ = state.rod.on_fin_in_finwait2(seg);
            let _ = state.flow_ctrl.on_fin_in_finwait2(seg);
            let _ = state.cong_ctrl.on_fin_in_finwait2(seg);
            let _ = state.conn_mgmt.on_fin_in_finwait2();
        }
        Ok(InputAction::Accept)
    } else if fin_in_order {
        let _ = state.rod.on_fin_in_finwait1(seg);
        let _ = state.flow_ctrl.on_fin_in_finwait1(seg);
        let _ = state.cong_ctrl.on_fin_in_finwait1(seg);
        let _ = state.conn_mgmt.on_fin_in_finwait1();
        Ok(InputAction::Accept)
    } else {
        Ok(InputAction::Drop)
    }
}

fn input_finwait2(state: &mut TcpConnectionState, seg: &TcpSegment) -> (r: Result<
    InputAction,
    TcpError,
>)
    requires
        old(state).conn_mgmt.state == TcpState::FinWait2,
    ensures
        ({
            let (post, action) = step_finwait2(*old(state), *seg);
            *final(state) == post && r == Ok::<InputAction, TcpError>(action)
        }),
{
    if !state.rod.validate_sequence_number(seg, state.flow_ctrl.rcv_wnd) {
        return Ok(InputAction::Drop);
    }
    if seg.flags.fin {
        match state.rod.on_fin_in_finwait2(seg) {
            Ok(_) => {},
            Err(_) => {
                return Ok(InputAction::Drop);
            },
        }
        let _ = state.flow_ctrl.on_fin_in_finwait2(seg);
        let _ = state.cong_ctrl.on_fin_in_finwait2(seg);
        let _ = state.conn_mgmt.on_fin_in_finwait2();
        Ok(InputAction::Accept)
    } else {
        Ok(InputAction::Accept)
    }
}

fn input_closewait(state: &mut TcpConnectionState, seg: &TcpSegment) -> (r: Result<
    InputAction,
    TcpError,
>)
    requires
        old(state).conn_mgmt.state == TcpState::CloseWait,
    ensures
        ({
            let (post, action) = step_closewait(*old(state), *seg);
            *final(state) == post && r == Ok::<InputAction, TcpError>(action)
        }),
{
    if !state.rod.validate_sequence_number(seg, state.flow_ctrl.rcv_wnd) {
        return Ok(InputAction::Drop);
    }
    Ok(InputAction::Accept)
}

fn input_closing(state: &mut TcpConnectionState, seg: &TcpSegment) -> (r: Result<
    InputAction,
    TcpError,
>)
    requires
        old(state).conn_mgmt.state == TcpState::Closing,
    ensures
        ({
            let (post, action) = step_closing(*old(state), *seg);
            *final(state) == post && r == Ok::<InputAction, TcpError>(action)
        }),
{
    if !state.rod.validate_sequence_number(seg, state.flow_ctrl.rcv_wnd) {
        return Ok(InputAction::Drop);
    }
    if seg.flags.ack {
        match state.rod.on_ack_in_closing(seg) {
            Ok(_) => {},
            Err(_) => {
                return Ok(InputAction::Drop);
            },
        }
        let _ = state.flow_ctrl.on_ack_in_closing(seg);
        let _ = state.cong_ctrl.on_ack_in_closing(seg);
        let _ = state.conn_mgmt.on_ack_in_closing();
        Ok(InputAction::Accept)
    } else {
        Ok(InputAction::Drop)
    }
}

fn input_lastack(state: &mut TcpConnectionState, seg: &TcpSegment) -> (r: Result<
    InputAction,
    TcpError,
>)
    requires
        old(state).conn_mgmt.state == TcpState::LastAck,
    ensures
        ({
            let (post, action) = step_lastack(*old(state), *seg);
            *final(state) == post && r == Ok::<InputAction, TcpError>(action)
        }),
{
    if !state.rod.validate_sequence_number(seg, state.flow_ctrl.rcv_wnd) {
        return Ok(InputAction::Drop);
    }
    if seg.flags.ack {
        match state.rod.on_ack_in_lastack(seg) {
            Ok(_) => {},
            Err(_) => {
                return Ok(InputAction::Drop);
            },
        }
        let _ = state.flow_ctrl.on_ack_in_lastack(seg);
        let _ = state.cong_ctrl.on_ack_in_lastack(seg);
        let _ = state.conn_mgmt.on_ack_in_lastack();
        Ok(InputAction::Accept)
    } else {
        Ok(InputAction::Drop)
    }
}

fn input_timewait(state: &mut TcpConnectionState, seg: &TcpSegment) -> (r: Result<
    InputAction,
    TcpError,
>)
    requires
        old(state).conn_mgmt.state == TcpState::TimeWait,
    ensures
        ({
            let (post, action) = step_timewait(*old(state), *seg);
            *final(state) == post && r == Ok::<InputAction, TcpError>(action)
        }),
{
    if !state.rod.validate_sequence_number(seg, state.flow_ctrl.rcv_wnd) {
        return Ok(InputAction::Drop);
    }
    if seg.flags.fin {
        Ok(InputAction::SendAck)
    } else {
        Ok(InputAction::Accept)
    }
}

} // verus!
