//! The protocol laws, proved of the transition model: every dispatch step is
//! atomic and walks at most one RFC 793 edge, the next expected sequence
//! number never moves backward, the send-side ordering between `lastack` and
//! `snd_nxt` is preserved, a reset is all-or-nothing, and abort and close
//! behave idempotently.

use vstd::prelude::*;
use crate::state::{TcpState, TcpConnectionState};
use crate::tcp_types::{IpAddr, TcpSegment, InputAction, RstValidation};
use crate::seqnum::{spec_seq_leq, lemma_seq_leq_succ};
use crate::rod::spec_rst_validation;
use crate::connection_mgmt::{close_next_state, close_sends_fin, abort_sends_rst};
use crate::transitions::{dispatch, reset_all, apply_syn_in_listen, apply_synack_in_synsent,
    apply_ack_in_synrcvd, apply_fin, apply_fin_ack};
use crate::tcp_api::abort_all;

verus! {

/// The lifecycle edges of RFC 793 section 3.2 that an inbound segment can
/// drive: the handshake and teardown moves, and the move to Closed that a
/// validated reset or the final ACK performs.
pub open spec fn rfc793_inbound_edge(s1: TcpState, s2: TcpState) -> bool {
    ||| (s2 == TcpState::Closed && s1 != TcpState::Closed)
    ||| (s1 == TcpState::Listen && s2 == TcpState::SynRcvd)
    ||| (s1 == TcpState::SynSent && s2 == TcpState::Established)
    ||| (s1 == TcpState::SynRcvd && s2 == TcpState::Established)
    ||| (s1 == TcpState::Established && s2 == TcpState::CloseWait)
    ||| (s1 == TcpState::FinWait1 && s2 == TcpState::FinWait2)
    ||| (s1 == TcpState::FinWait1 && s2 == TcpState::Closing)
    ||| (s1 == TcpState::FinWait1 && s2 == TcpState::TimeWait)
    ||| (s1 == TcpState::FinWait2 && s2 == TcpState::TimeWait)
    ||| (s1 == TcpState::Closing && s2 == TcpState::TimeWait)
}

/// Every dispatch step is atomic: either the lifecycle advances along
/// exactly one RFC 793 edge and the whole connection is exactly the state
/// that edge prescribes for every component, or the connection is left
/// exactly as it was.
pub proof fn lemma_dispatch_single_edge(
    pre: TcpConnectionState,
    seg: TcpSegment,
    remote_ip: IpAddr,
    remote_port: u16,
)
    ensures
        ({
            let (post, action) = dispatch(pre, seg, remote_ip, remote_port);
            &&& (post.conn_mgmt.state == pre.conn_mgmt.state || rfc793_inbound_edge(
                pre.conn_mgmt.state,
                post.conn_mgmt.state,
            ))
            &&& (post == pre || post == reset_all(pre) || post == apply_syn_in_listen(
                pre,
                seg,
                remote_ip,
                remote_port,
            ) || post == apply_synack_in_synsent(pre, seg) || post == apply_ack_in_synrcvd(pre, seg)
                || post == apply_fin(pre, TcpState::CloseWait) || post == apply_fin(
                pre,
                TcpState::Closing,
            ) || post == apply_fin(pre, TcpState::TimeWait) || post == apply_fin_ack(
                pre,
                seg.ackno,
                TcpState::FinWait2,
            ) || post == apply_fin_ack(pre, seg.ackno, TcpState::TimeWait) || post == apply_fin_ack(
                pre,
                seg.ackno,
                TcpState::Closed,
            ) || post == apply_fin(
                apply_fin_ack(pre, seg.ackno, TcpState::TimeWait),
                TcpState::TimeWait,
            ))
        }),
{
}

/// Once the peer's initial sequence number is installed (any state past
/// SynSent), no segment other than a reset ever moves `rcv_nxt` backward:
/// each dispatch step leaves it in place or advances it by one, modulo 2^32.
/// Along a handshake trace the statement chains step by step.
pub proof fn lemma_rcv_nxt_monotone(
    pre: TcpConnectionState,
    seg: TcpSegment,
    remote_ip: IpAddr,
    remote_port: u16,
)
    requires
        !seg.flags.rst,
        pre.conn_mgmt.state != TcpState::Listen,
        pre.conn_mgmt.state != TcpState::SynSent,
    ensures
        ({
            let (post, action) = dispatch(pre, seg, remote_ip, remote_port);
            &&& spec_seq_leq(pre.rod.rcv_nxt, post.rod.rcv_nxt)
            &&& (post.rod.rcv_nxt == pre.rod.rcv_nxt || post.rod.rcv_nxt
                == pre.rod.rcv_nxt.wrapping_add(1))
        }),
{
    lemma_seq_leq_succ(pre.rod.rcv_nxt);
}

/// The send-side ordering `lastack <= snd_nxt` (under signed modular
/// comparison) holds in every non-Closed state and is preserved by dispatch.
/// FinWait1 and Closing are left out: there the core accepts an ACK one past
/// `snd_nxt`, because booking the FIN's own sequence number is the transmit
/// collaborator's job.
pub open spec fn send_seq_invariant(s: TcpConnectionState) -> bool {
    s.conn_mgmt.state != TcpState::Closed ==> spec_seq_leq(s.rod.lastack, s.rod.snd_nxt)
}

pub proof fn lemma_send_seq_invariant_preserved(
    pre: TcpConnectionState,
    seg: TcpSegment,
    remote_ip: IpAddr,
    remote_port: u16,
)
    requires
        send_seq_invariant(pre),
        pre.conn_mgmt.state != TcpState::FinWait1,
        pre.conn_mgmt.state != TcpState::Closing,
    ensures
        ({
            let (post, action) = dispatch(pre, seg, remote_ip, remote_port);
            send_seq_invariant(post)
        }),
{
}

/// A valid in-window RST closes the connection atomically, clearing every
/// component; an out-of-window RST changes nothing and draws a challenge
/// ACK.
pub proof fn lemma_rst_all_or_nothing(
    pre: TcpConnectionState,
    seg: TcpSegment,
    remote_ip: IpAddr,
    remote_port: u16,
)
    requires
        seg.flags.rst,
    ensures
        ({
            let (post, action) = dispatch(pre, seg, remote_ip, remote_port);
            &&& spec_rst_validation(pre.rod.rcv_nxt, seg, pre.flow_ctrl.rcv_wnd)
                == RstValidation::Valid ==> action == InputAction::Abort && post == reset_all(pre)
                && post.conn_mgmt.state == TcpState::Closed && post.rod.snd_nxt == 0
                && post.rod.rcv_nxt == 0 && post.rod.lastack == 0 && post.cong_ctrl.cwnd == 0
                && post.flow_ctrl.snd_wnd == 0 && post.flow_ctrl.rcv_wnd == 0
            &&& spec_rst_validation(pre.rod.rcv_nxt, seg, pre.flow_ctrl.rcv_wnd)
                != RstValidation::Valid ==> action == InputAction::SendChallengeAck && post == pre
        }),
{
}

/// Abort is idempotent: aborting an already-aborted connection changes
/// nothing, and the second abort owes no RST.
pub proof fn lemma_abort_idempotent(s: TcpConnectionState)
    ensures
        abort_all(abort_all(s)) == abort_all(s),
        !abort_sends_rst(abort_all(s).conn_mgmt.state),
{
}

/// The congestion window is cleared only together with the lifecycle: in any
/// state other than Closed and Listen it is nonzero, and dispatch preserves
/// that for every connection with a nonzero MSS.
pub open spec fn cwnd_invariant(s: TcpConnectionState) -> bool {
    s.cong_ctrl.cwnd == 0 ==> s.conn_mgmt.state == TcpState::Closed || s.conn_mgmt.state
        == TcpState::Listen
}

pub proof fn lemma_cwnd_invariant_preserved(
    pre: TcpConnectionState,
    seg: TcpSegment,
    remote_ip: IpAddr,
    remote_port: u16,
)
    requires
        cwnd_invariant(pre),
        pre.conn_mgmt.mss >= 1,
        pre.conn_mgmt.mss <= crate::congestion_control::MSS_LIMIT,
    ensures
        ({
            let (post, action) = dispatch(pre, seg, remote_ip, remote_port);
            cwnd_invariant(post)
        }),
{
}

/// A graceful close in a state that is already closing (FinWait1, FinWait2,
/// Closing, LastAck, TimeWait) owes no FIN and moves nowhere.
pub proof fn lemma_close_in_terminal_state(s: TcpState)
    requires
        s == TcpState::FinWait1 || s == TcpState::FinWait2 || s == TcpState::Closing || s
            == TcpState::LastAck || s == TcpState::TimeWait,
    ensures
        !close_sends_fin(s),
        close_next_state(s) == s,
{
}

} // verus!
