//! Flow Control: the component that mirrors the peer's advertised window and
//! keeps our own receive window.  Teardown events leave it untouched; a
//! reset clears the windows.

use vstd::prelude::*;
use crate::connection_mgmt::ConnectionManagementState;
use crate::tcp_types::{TcpSegment, TcpError};

verus! {

/// Send and receive windows and their bookkeeping.
/// Only its own event handlers write to this state.
pub struct FlowControlState {
    /// Window the remote peer advertised.
    pub snd_wnd: u16,
    /// Largest window seen from the peer.
    pub snd_wnd_max: u16,
    /// Sequence number of the last window update (validation).
    pub snd_wl1: u32,
    /// Ack number of the last window update (validation).
    pub snd_wl2: u32,
    /// Our available receive buffer space.
    pub rcv_wnd: u16,
    /// Window we will advertise.
    pub rcv_ann_wnd: u16,
    /// Right edge of the advertised window.
    pub rcv_ann_right_edge: u32,
    /// Scale factor for our advertisements.
    pub snd_scale: u8,
    /// Scale factor for the peer's advertisements.
    pub rcv_scale: u8,
    /// Zero-window probe counters.
    pub persist_cnt: u8,
    pub persist_backoff: u8,
    pub persist_probe: u8,
}

/// The receive window installed at connection setup.  Real buffer sizing is
/// a collaborator responsibility.
pub const INITIAL_RCV_WND: u16 = 4096;

/// Windows after a SYN in Listen: the peer's advertisement is mirrored and
/// our receive window takes its initial size.
pub open spec fn fc_syn_in_listen(pre: FlowControlState, seg: TcpSegment) -> FlowControlState {
    FlowControlState {
        snd_wnd: seg.wnd,
        snd_wnd_max: seg.wnd,
        rcv_wnd: INITIAL_RCV_WND,
        rcv_ann_wnd: INITIAL_RCV_WND,
        ..pre
    }
}

/// Windows after a SYN-ACK in SynSent: the peer's advertisement is mirrored.
pub open spec fn fc_synack_in_synsent(pre: FlowControlState, seg: TcpSegment) -> FlowControlState {
    FlowControlState { snd_wnd: seg.wnd, snd_wnd_max: seg.wnd, ..pre }
}

/// Windows after the handshake-completing ACK: the peer's advertisement is
/// refreshed.
pub open spec fn fc_ack_in_synrcvd(pre: FlowControlState, seg: TcpSegment) -> FlowControlState {
    FlowControlState { snd_wnd: seg.wnd, ..pre }
}

/// Windows after a reset or an abort: both cleared.
pub open spec fn fc_reset(pre: FlowControlState) -> FlowControlState {
    FlowControlState { snd_wnd: 0, rcv_wnd: 0, ..pre }
}

/// Windows after an active open: our receive window takes its initial size.
pub open spec fn fc_connect(pre: FlowControlState) -> FlowControlState {
    FlowControlState { rcv_wnd: INITIAL_RCV_WND, rcv_ann_wnd: INITIAL_RCV_WND, ..pre }
}

impl FlowControlState {
    /// The freshly created component: every window and counter zero.
    pub open spec fn spec_new() -> Self {
        FlowControlState {
            snd_wnd: 0,
            snd_wnd_max: 0,
            snd_wl1: 0,
            snd_wl2: 0,
            rcv_wnd: 0,
            rcv_ann_wnd: 0,
            rcv_ann_right_edge: 0,
            snd_scale: 0,
            rcv_scale: 0,
            persist_cnt: 0,
            persist_backoff: 0,
            persist_probe: 0,
        }
    }

    pub fn new() -> (r: Self)
        ensures
            r == Self::spec_new(),
    {
        FlowControlState {
            snd_wnd: 0,
            snd_wnd_max: 0,
            snd_wl1: 0,
            snd_wl2: 0,
            rcv_wnd: 0,
            rcv_ann_wnd: 0,
            rcv_ann_right_edge: 0,
            snd_scale: 0,
            rcv_scale: 0,
            persist_cnt: 0,
            persist_backoff: 0,
            persist_probe: 0,
        }
    }

    /// Listen, SYN received: mirror the peer's window and open ours.
    pub fn on_syn_in_listen(&mut self, seg: &TcpSegment, _conn_mgmt: &ConnectionManagementState)
        -> (r: Result<(), TcpError>)
        ensures
            r == Ok::<(), TcpError>(()),
            *final(self) == fc_syn_in_listen(*old(self), *seg),
    {
        self.snd_wnd = seg.wnd;
        self.snd_wnd_max = seg.wnd;
        self.rcv_wnd = INITIAL_RCV_WND;
        self.rcv_ann_wnd = self.rcv_wnd;
        Ok(())
    }

    /// SynSent, SYN-ACK received: mirror the peer's window.
    pub fn on_synack_in_synsent(&mut self, seg: &TcpSegment) -> (r: Result<(), TcpError>)
        ensures
            r == Ok::<(), TcpError>(()),
            *final(self) == fc_synack_in_synsent(*old(self), *seg),
    {
        self.snd_wnd = seg.wnd;
        self.snd_wnd_max = seg.wnd;
        Ok(())
    }

    /// SynRcvd, ACK received: refresh the peer's window.
    pub fn on_ack_in_synrcvd(&mut self, seg: &TcpSegment) -> (r: Result<(), TcpError>)
        ensures
            r == Ok::<(), TcpError>(()),
            *final(self) == fc_ack_in_synrcvd(*old(self), *seg),
    {
        self.snd_wnd = seg.wnd;
        Ok(())
    }

    /// Close from Established: no window change.
    pub fn on_close_in_established(&mut self) -> (r: Result<(), TcpError>)
        ensures
            r == Ok::<(), TcpError>(()),
            *final(self) == *old(self),
    {
        Ok(())
    }

    /// Close from CloseWait: no window change.
    pub fn on_close_in_closewait(&mut self) -> (r: Result<(), TcpError>)
        ensures
            r == Ok::<(), TcpError>(()),
            *final(self) == *old(self),
    {
        Ok(())
    }

    /// Established, FIN received: no window change.
    pub fn on_fin_in_established(&mut self, _seg: &TcpSegment) -> (r: Result<(), TcpError>)
        ensures
            r == Ok::<(), TcpError>(()),
            *final(self) == *old(self),
    {
        Ok(())
    }

    /// FinWait1, ACK received: no window change.
    pub fn on_ack_in_finwait1(&mut self, _seg: &TcpSegment) -> (r: Result<(), TcpError>)
        ensures
            r == Ok::<(), TcpError>(()),
            *final(self) == *old(self),
    {
        Ok(())
    }

    /// FinWait1, FIN received: no window change.
    pub fn on_fin_in_finwait1(&mut self, _seg: &TcpSegment) -> (r: Result<(), TcpError>)
        ensures
            r == Ok::<(), TcpError>(()),
            *final(self) == *old(self),
    {
        Ok(())
    }

    /// FinWait2, FIN received: no window change.
    pub fn on_fin_in_finwait2(&mut self, _seg: &TcpSegment) -> (r: Result<(), TcpError>)
        ensures
            r == Ok::<(), TcpError>(()),
            *final(self) == *old(self),
    {
        Ok(())
    }

    /// Closing, ACK received: no window change.
    pub fn on_ack_in_closing(&mut self, _seg: &TcpSegment) -> (r: Result<(), TcpError>)
        ensures
            r == Ok::<(), TcpError>(()),
            *final(self) == *old(self),
    {
        Ok(())
    }

    /// LastAck, ACK received: no window change.
    pub fn on_ack_in_lastack(&mut self, _seg: &TcpSegment) -> (r: Result<(), TcpError>)
        ensures
            r == Ok::<(), TcpError>(()),
            *final(self) == *old(self),
    {
        Ok(())
    }

    /// TimeWait, retransmitted FIN: no window change.
    pub fn on_fin_in_timewait(&mut self, _seg: &TcpSegment) -> (r: Result<(), TcpError>)
        ensures
            r == Ok::<(), TcpError>(()),
            *final(self) == *old(self),
    {
        Ok(())
    }

    /// Reset: clear both windows.
    pub fn on_rst(&mut self) -> (r: Result<(), TcpError>)
        ensures
            r == Ok::<(), TcpError>(()),
            *final(self) == fc_reset(*old(self)),
    {
        self.snd_wnd = 0;
        self.rcv_wnd = 0;
        Ok(())
    }

    /// Abort: clear both windows.
    pub fn on_abort(&mut self) -> (r: Result<(), TcpError>)
        ensures
            r == Ok::<(), TcpError>(()),
            *final(self) == fc_reset(*old(self)),
    {
        self.snd_wnd = 0;
        self.rcv_wnd = 0;
        Ok(())
    }

    /// Active open: open our receive window.
    pub fn on_connect(&mut self) -> (r: Result<(), TcpError>)
        ensures
            r == Ok::<(), TcpError>(()),
            *final(self) == fc_connect(*old(self)),
    {
        self.rcv_wnd = INITIAL_RCV_WND;
        self.rcv_ann_wnd = self.rcv_wnd;
        Ok(())
    }
}

} // verus!
