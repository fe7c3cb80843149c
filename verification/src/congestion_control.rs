//! Congestion Control: the component that owns `cwnd` and `ssthresh` and
//! applies the initial-window rule of RFC 5681 section 3.1.

use vstd::prelude::*;
use crate::connection_mgmt::ConnectionManagementState;
use crate::tcp_types::{TcpSegment, TcpError};

verus! {

/// Largest MSS the initial-window rule accepts: for anything up to this
/// bound `min(4 * MSS, max(2 * MSS, 4380))` still fits the 16-bit `cwnd`.
pub const MSS_LIMIT: u16 = 32767;

/// Congestion window and slow-start threshold.
/// Only its own event handlers write to this state.
pub struct CongestionControlState {
    /// Congestion window.
    pub cwnd: u16,
    /// Slow-start threshold.
    pub ssthresh: u16,
}

/// The initial congestion window of RFC 5681 section 3.1:
/// `IW = min(4 * MSS, max(2 * MSS, 4380 bytes))`.
pub open spec fn initial_window(mss: u16) -> u16
    recommends
        mss <= MSS_LIMIT,
{
    let lower = if 2 * mss > 4380 {
        2 * mss as int
    } else {
        4380int
    };
    let iw = if 4 * mss < lower {
        4 * mss as int
    } else {
        lower
    };
    iw as u16
}

/// The component with the initial window installed for the given MSS.
pub open spec fn cc_initial_window(pre: CongestionControlState, mss: u16) -> CongestionControlState {
    CongestionControlState { cwnd: initial_window(mss), ..pre }
}

/// The component after an active open: one MSS, expanded to the full
/// initial window when the SYN-ACK arrives.
pub open spec fn cc_connect(pre: CongestionControlState, mss: u16) -> CongestionControlState {
    CongestionControlState { cwnd: mss, ..pre }
}

/// The component after a reset or an abort: the window is cleared.
pub open spec fn cc_reset(pre: CongestionControlState) -> CongestionControlState {
    CongestionControlState { cwnd: 0, ..pre }
}

impl CongestionControlState {
    /// The freshly created component: no window yet, threshold wide open.
    pub open spec fn spec_new() -> Self {
        CongestionControlState { cwnd: 0, ssthresh: 0xFFFF }
    }

    pub fn new() -> (r: Self)
        ensures
            r == Self::spec_new(),
    {
        CongestionControlState { cwnd: 0, ssthresh: 0xFFFF }
    }

    /// Listen, SYN received (passive open): install the RFC 5681 initial
    /// window for the connection's MSS.
    pub fn on_syn_in_listen(&mut self, conn_mgmt: &ConnectionManagementState) -> (r: Result<
        (),
        TcpError,
    >)
        requires
            conn_mgmt.mss <= MSS_LIMIT,
        ensures
            r == Ok::<(), TcpError>(()),
            *final(self) == cc_initial_window(*old(self), conn_mgmt.mss),
            final(self).cwnd == initial_window(conn_mgmt.mss),
    {
        let mss: u32 = conn_mgmt.mss as u32;
        let lower: u32 = if 2 * mss > 4380 {
            2 * mss
        } else {
            4380
        };
        let iw: u32 = if 4 * mss < lower {
            4 * mss
        } else {
            lower
        };
        self.cwnd = iw as u16;
        Ok(())
    }

    /// SynSent, SYN-ACK received (active open): expand the window to the
    /// RFC 5681 initial window.
    pub fn on_synack_in_synsent(&mut self, conn_mgmt: &ConnectionManagementState) -> (r: Result<
        (),
        TcpError,
    >)
        requires
            conn_mgmt.mss <= MSS_LIMIT,
        ensures
            r == Ok::<(), TcpError>(()),
            *final(self) == cc_initial_window(*old(self), conn_mgmt.mss),
            final(self).cwnd == initial_window(conn_mgmt.mss),
    {
        let mss: u32 = conn_mgmt.mss as u32;
        let lower: u32 = if 2 * mss > 4380 {
            2 * mss
        } else {
            4380
        };
        let iw: u32 = if 4 * mss < lower {
            4 * mss
        } else {
            lower
        };
        self.cwnd = iw as u16;
        Ok(())
    }

    /// SynRcvd, ACK received: the window was installed on the SYN already.
    pub fn on_ack_in_synrcvd(&mut self) -> (r: Result<(), TcpError>)
        ensures
            r == Ok::<(), TcpError>(()),
            *final(self) == *old(self),
    {
        Ok(())
    }

    /// Close from Established: no window change.
    pub fn on_close_in_established(&mut self) -> (r: Result<(), TcpError>)
        ensures
            r == Ok::<(), TcpError>(()),
            *final(self) == *old(self),
    {
        Ok(())
    }

    /// Close from CloseWait: no window change.
    pub fn on_close_in_closewait(&mut self) -> (r: Result<(), TcpError>)
        ensures
            r == Ok::<(), TcpError>(()),
            *final(self) == *old(self),
    {
        Ok(())
    }

    /// Established, FIN received: no window change.
    pub fn on_fin_in_established(&mut self, _seg: &TcpSegment) -> (r: Result<(), TcpError>)
        ensures
            r == Ok::<(), TcpError>(()),
            *final(self) == *old(self),
    {
        Ok(())
    }

    /// FinWait1, ACK received: no window change.
    pub fn on_ack_in_finwait1(&mut self, _seg: &TcpSegment) -> (r: Result<(), TcpError>)
        ensures
            r == Ok::<(), TcpError>(()),
            *final(self) == *old(self),
    {
        Ok(())
    }

    /// FinWait1, FIN received: no window change.
    pub fn on_fin_in_finwait1(&mut self, _seg: &TcpSegment) -> (r: Result<(), TcpError>)
        ensures
            r == Ok::<(), TcpError>(()),
            *final(self) == *old(self),
    {
        Ok(())
    }

    /// FinWait2, FIN received: no window change.
    pub fn on_fin_in_finwait2(&mut self, _seg: &TcpSegment) -> (r: Result<(), TcpError>)
        ensures
            r == Ok::<(), TcpError>(()),
            *final(self) == *old(self),
    {
        Ok(())
    }

    /// Closing, ACK received: no window change.
    pub fn on_ack_in_closing(&mut self, _seg: &TcpSegment) -> (r: Result<(), TcpError>)
        ensures
            r == Ok::<(), TcpError>(()),
            *final(self) == *old(self),
    {
        Ok(())
    }

    /// LastAck, ACK received: no window change.
    pub fn on_ack_in_lastack(&mut self, _seg: &TcpSegment) -> (r: Result<(), TcpError>)
        ensures
            r == Ok::<(), TcpError>(()),
            *final(self) == *old(self),
    {
        Ok(())
    }

    /// TimeWait, retransmitted FIN: no window change.
    pub fn on_fin_in_timewait(&mut self, _seg: &TcpSegment) -> (r: Result<(), TcpError>)
        ensures
            r == Ok::<(), TcpError>(()),
            *final(self) == *old(self),
    {
        Ok(())
    }

    /// Reset: clear the window.
    pub fn on_rst(&mut self) -> (r: Result<(), TcpError>)
        ensures
            r == Ok::<(), TcpError>(()),
            *final(self) == cc_reset(*old(self)),
    {
        self.cwnd = 0;
        Ok(())
    }

    /// Abort: clear the window.
    pub fn on_abort(&mut self) -> (r: Result<(), TcpError>)
        ensures
            r == Ok::<(), TcpError>(()),
            *final(self) == cc_reset(*old(self)),
    {
        self.cwnd = 0;
        Ok(())
    }

    /// Active open: start at one MSS.
    pub fn on_connect(&mut self, conn_mgmt: &ConnectionManagementState) -> (r: Result<
        (),
        TcpError,
    >)
        ensures
            r == Ok::<(), TcpError>(()),
            *final(self) == cc_connect(*old(self), conn_mgmt.mss),
    {
        self.cwnd = conn_mgmt.mss;
        Ok(())
    }
}

} // verus!
