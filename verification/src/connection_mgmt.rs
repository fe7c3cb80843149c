//! Connection Management: the component that owns the lifecycle state, the
//! 4-tuple and the static connection parameters.  It alone advances the
//! lifecycle; every handler validates the current state first and either
//! performs the single RFC 793 move it stands for or leaves the component
//! untouched.

use vstd::prelude::*;
use crate::state::TcpState;
use crate::tcp_types::{IpAddr, TcpError};

verus! {

/// Lifecycle state, connection identity and static parameters.
/// Only its own event handlers write to this state.
pub struct ConnectionManagementState {
    /// Local half of the 4-tuple.
    pub local_ip: IpAddr,
    /// Remote half of the 4-tuple; unused while listening.
    pub remote_ip: IpAddr,
    pub local_port: u16,
    pub remote_port: u16,
    /// The one authoritative lifecycle marker.
    pub state: TcpState,
    /// Timer counter placeholder.
    pub tmr: u32,
    pub polltmr: u8,
    pub pollinterval: u8,
    /// Keep-alive idle time, milliseconds.
    pub keep_idle: u32,
    /// Keep-alive probe interval, milliseconds.
    pub keep_intvl: u32,
    /// Keep-alive probe count.
    pub keep_cnt: u32,
    pub keep_cnt_sent: u8,
    /// Maximum segment size.
    pub mss: u16,
    pub so_options: u8,
    pub tos: u8,
    pub ttl: u8,
    pub prio: u8,
    /// 16-bit flags word.
    pub flags: u16,
    /// Network interface index.
    pub netif_idx: u8,
}

/// The component with only its lifecycle state replaced.
pub open spec fn cm_set_state(pre: ConnectionManagementState, s: TcpState)
    -> ConnectionManagementState {
    ConnectionManagementState { state: s, ..pre }
}

/// The component after a SYN in Listen: the remote half of the 4-tuple is
/// materialized from the segment's source and the lifecycle moves to SynRcvd.
pub open spec fn cm_syn_in_listen(
    pre: ConnectionManagementState,
    remote_ip: IpAddr,
    remote_port: u16,
) -> ConnectionManagementState {
    ConnectionManagementState {
        remote_ip: remote_ip,
        remote_port: remote_port,
        state: TcpState::SynRcvd,
        ..pre
    }
}

/// The component after a bind: the local half of the 4-tuple is set, the
/// lifecycle stays Closed.
pub open spec fn cm_bind(pre: ConnectionManagementState, local_ip: IpAddr, local_port: u16)
    -> ConnectionManagementState {
    ConnectionManagementState { local_ip: local_ip, local_port: local_port, ..pre }
}

/// The component after an active open: the remote half is stored and the
/// lifecycle moves to SynSent.
pub open spec fn cm_connect(pre: ConnectionManagementState, remote_ip: IpAddr, remote_port: u16)
    -> ConnectionManagementState {
    ConnectionManagementState {
        remote_ip: remote_ip,
        remote_port: remote_port,
        state: TcpState::SynSent,
        ..pre
    }
}

/// The lifecycle state after a graceful close from the given state.
pub open spec fn close_next_state(s: TcpState) -> TcpState {
    match s {
        TcpState::Closed => TcpState::Closed,
        TcpState::Listen => TcpState::Closed,
        TcpState::SynSent => TcpState::Closed,
        TcpState::SynRcvd => TcpState::Closed,
        TcpState::Established => TcpState::FinWait1,
        TcpState::CloseWait => TcpState::LastAck,
        // Already closing: FinWait1/2, Closing, LastAck, TimeWait stay put.
        _ => s,
    }
}

/// A graceful close must emit a FIN exactly from Established and CloseWait.
pub open spec fn close_sends_fin(s: TcpState) -> bool {
    s == TcpState::Established || s == TcpState::CloseWait
}

/// An abort must emit an RST from every state that ever spoke to a peer:
/// all but Closed and Listen.
pub open spec fn abort_sends_rst(s: TcpState) -> bool {
    s != TcpState::Closed && s != TcpState::Listen
}

impl ConnectionManagementState {
    /// The freshly created component: Closed, empty 4-tuple, and the default
    /// parameters (MSS 536, TTL 255, normal priority, keep-alive of two
    /// hours idle, 75-second probes, nine probes).
    pub open spec fn spec_new() -> Self {
        ConnectionManagementState {
            local_ip: IpAddr { addr: 0 },
            remote_ip: IpAddr { addr: 0 },
            local_port: 0,
            remote_port: 0,
            state: TcpState::Closed,
            tmr: 0,
            polltmr: 0,
            pollinterval: 0,
            keep_idle: 7200000,
            keep_intvl: 75000,
            keep_cnt: 9,
            keep_cnt_sent: 0,
            mss: 536,
            so_options: 0,
            tos: 0,
            ttl: 255,
            prio: 64,
            flags: 0,
            netif_idx: 0,
        }
    }

    pub fn new() -> (r: Self)
        ensures
            r == Self::spec_new(),
    {
        ConnectionManagementState {
            local_ip: IpAddr { addr: 0 },
            remote_ip: IpAddr { addr: 0 },
            local_port: 0,
            remote_port: 0,
            state: TcpState::Closed,
            tmr: 0,
            polltmr: 0,
            pollinterval: 0,
            keep_idle: 7200000,
            keep_intvl: 75000,
            keep_cnt: 9,
            keep_cnt_sent: 0,
            mss: 536,
            so_options: 0,
            tos: 0,
            ttl: 255,
            prio: 64,
            flags: 0,
            netif_idx: 0,
        }
    }

    /// Listen to SynRcvd on an incoming SYN, storing the remote endpoint.
    pub fn on_syn_in_listen(&mut self, remote_ip: IpAddr, remote_port: u16) -> (r: Result<
        (),
        TcpError,
    >)
        ensures
            old(self).state == TcpState::Listen ==> r == Ok::<(), TcpError>(()) && *final(self)
                == cm_syn_in_listen(*old(self), remote_ip, remote_port),
            old(self).state != TcpState::Listen ==> r == Err::<(), TcpError>(TcpError::WrongState)
                && *final(self) == *old(self),
    {
        if self.state != TcpState::Listen {
            return Err(TcpError::WrongState);
        }
        self.remote_ip = remote_ip;
        self.remote_port = remote_port;
        self.state = TcpState::SynRcvd;
        Ok(())
    }

    /// SynSent to Established on an incoming SYN-ACK (active open).
    pub fn on_synack_in_synsent(&mut self) -> (r: Result<(), TcpError>)
        ensures
            old(self).state == TcpState::SynSent ==> r == Ok::<(), TcpError>(()) && *final(self)
                == cm_set_state(*old(self), TcpState::Established),
            old(self).state != TcpState::SynSent ==> r == Err::<(), TcpError>(TcpError::WrongState)
                && *final(self) == *old(self),
    {
        if self.state != TcpState::SynSent {
            return Err(TcpError::WrongState);
        }
        self.state = TcpState::Established;
        Ok(())
    }

    /// SynRcvd to Established on the ACK of our SYN (passive open).
    pub fn on_ack_in_synrcvd(&mut self) -> (r: Result<(), TcpError>)
        ensures
            old(self).state == TcpState::SynRcvd ==> r == Ok::<(), TcpError>(()) && *final(self)
                == cm_set_state(*old(self), TcpState::Established),
            old(self).state != TcpState::SynRcvd ==> r == Err::<(), TcpError>(TcpError::WrongState)
                && *final(self) == *old(self),
    {
        if self.state != TcpState::SynRcvd {
            return Err(TcpError::WrongState);
        }
        self.state = TcpState::Established;
        Ok(())
    }

    /// Established to FinWait1 when the application starts a close.
    pub fn on_close_in_established(&mut self) -> (r: Result<(), TcpError>)
        ensures
            old(self).state == TcpState::Established ==> r == Ok::<(), TcpError>(()) && *final(self) == cm_set_state(*old(self), TcpState::FinWait1),
            old(self).state != TcpState::Established ==> r == Err::<(), TcpError>(
                TcpError::WrongState,
            ) && *final(self) == *old(self),
    {
        if self.state != TcpState::Established {
            return Err(TcpError::WrongState);
        }
        self.state = TcpState::FinWait1;
        Ok(())
    }

    /// CloseWait to LastAck when the application closes after the peer's FIN.
    pub fn on_close_in_closewait(&mut self) -> (r: Result<(), TcpError>)
        ensures
            old(self).state == TcpState::CloseWait ==> r == Ok::<(), TcpError>(()) && *final(self)
                == cm_set_state(*old(self), TcpState::LastAck),
            old(self).state != TcpState::CloseWait ==> r == Err::<(), TcpError>(
                TcpError::WrongState,
            ) && *final(self) == *old(self),
    {
        if self.state != TcpState::CloseWait {
            return Err(TcpError::WrongState);
        }
        self.state = TcpState::LastAck;
        Ok(())
    }

    /// Established to CloseWait on the peer's FIN (passive close).
    pub fn on_fin_in_established(&mut self) -> (r: Result<(), TcpError>)
        ensures
            old(self).state == TcpState::Established ==> r == Ok::<(), TcpError>(()) && *final(self) == cm_set_state(*old(self), TcpState::CloseWait),
            old(self).state != TcpState::Established ==> r == Err::<(), TcpError>(
                TcpError::WrongState,
            ) && *final(self) == *old(self),
    {
        if self.state != TcpState::Established {
            return Err(TcpError::WrongState);
        }
        self.state = TcpState::CloseWait;
        Ok(())
    }

    /// FinWait1 to FinWait2 when our FIN is acknowledged.
    pub fn on_ack_in_finwait1(&mut self) -> (r: Result<(), TcpError>)
        ensures
            old(self).state == TcpState::FinWait1 ==> r == Ok::<(), TcpError>(()) && *final(self)
                == cm_set_state(*old(self), TcpState::FinWait2),
            old(self).state != TcpState::FinWait1 ==> r == Err::<(), TcpError>(TcpError::WrongState)
                && *final(self) == *old(self),
    {
        if self.state != TcpState::FinWait1 {
            return Err(TcpError::WrongState);
        }
        self.state = TcpState::FinWait2;
        Ok(())
    }

    /// FinWait1 to Closing on the peer's FIN (simultaneous close).
    pub fn on_fin_in_finwait1(&mut self) -> (r: Result<(), TcpError>)
        ensures
            old(self).state == TcpState::FinWait1 ==> r == Ok::<(), TcpError>(()) && *final(self)
                == cm_set_state(*old(self), TcpState::Closing),
            old(self).state != TcpState::FinWait1 ==> r == Err::<(), TcpError>(TcpError::WrongState)
                && *final(self) == *old(self),
    {
        if self.state != TcpState::FinWait1 {
            return Err(TcpError::WrongState);
        }
        self.state = TcpState::Closing;
        Ok(())
    }

    /// FinWait2 to TimeWait on the peer's FIN.
    pub fn on_fin_in_finwait2(&mut self) -> (r: Result<(), TcpError>)
        ensures
            old(self).state == TcpState::FinWait2 ==> r == Ok::<(), TcpError>(()) && *final(self)
                == cm_set_state(*old(self), TcpState::TimeWait),
            old(self).state != TcpState::FinWait2 ==> r == Err::<(), TcpError>(TcpError::WrongState)
                && *final(self) == *old(self),
    {
        if self.state != TcpState::FinWait2 {
            return Err(TcpError::WrongState);
        }
        self.state = TcpState::TimeWait;
        Ok(())
    }

    /// Closing to TimeWait when our FIN is acknowledged.
    pub fn on_ack_in_closing(&mut self) -> (r: Result<(), TcpError>)
        ensures
            old(self).state == TcpState::Closing ==> r == Ok::<(), TcpError>(()) && *final(self)
                == cm_set_state(*old(self), TcpState::TimeWait),
            old(self).state != TcpState::Closing ==> r == Err::<(), TcpError>(TcpError::WrongState)
                && *final(self) == *old(self),
    {
        if self.state != TcpState::Closing {
            return Err(TcpError::WrongState);
        }
        self.state = TcpState::TimeWait;
        Ok(())
    }

    /// LastAck to Closed when our FIN is acknowledged (passive close done).
    pub fn on_ack_in_lastack(&mut self) -> (r: Result<(), TcpError>)
        ensures
            old(self).state == TcpState::LastAck ==> r == Ok::<(), TcpError>(()) && *final(self)
                == cm_set_state(*old(self), TcpState::Closed),
            old(self).state != TcpState::LastAck ==> r == Err::<(), TcpError>(TcpError::WrongState)
                && *final(self) == *old(self),
    {
        if self.state != TcpState::LastAck {
            return Err(TcpError::WrongState);
        }
        self.state = TcpState::Closed;
        Ok(())
    }

    /// Any state to Closed on a validated reset.
    pub fn on_rst(&mut self) -> (r: Result<(), TcpError>)
        ensures
            r == Ok::<(), TcpError>(()),
            *final(self) == cm_set_state(*old(self), TcpState::Closed),
    {
        self.state = TcpState::Closed;
        Ok(())
    }

    /// Any state to Closed on an abort.
    pub fn on_abort(&mut self) -> (r: Result<(), TcpError>)
        ensures
            r == Ok::<(), TcpError>(()),
            *final(self) == cm_set_state(*old(self), TcpState::Closed),
    {
        self.state = TcpState::Closed;
        Ok(())
    }

    /// Bind the local half of the 4-tuple.  Permitted only in Closed; port 0
    /// is rejected (ephemeral allocation is a collaborator concern).
    pub fn on_bind(&mut self, local_ip: IpAddr, local_port: u16) -> (r: Result<u16, TcpError>)
        ensures
            old(self).state != TcpState::Closed ==> r == Err::<u16, TcpError>(TcpError::WrongState)
                && *final(self) == *old(self),
            old(self).state == TcpState::Closed && local_port == 0 ==> r == Err::<u16, TcpError>(
                TcpError::InvalidPort,
            ) && *final(self) == *old(self),
            old(self).state == TcpState::Closed && local_port != 0 ==> r == Ok::<u16, TcpError>(
                local_port,
            ) && *final(self) == cm_bind(*old(self), local_ip, local_port),
    {
        if self.state != TcpState::Closed {
            return Err(TcpError::WrongState);
        }
        if local_port == 0 {
            return Err(TcpError::InvalidPort);
        }
        self.local_ip = local_ip;
        self.local_port = local_port;
        Ok(local_port)
    }

    /// Closed to Listen.  Requires a bound (nonzero) local port.
    pub fn on_listen(&mut self) -> (r: Result<(), TcpError>)
        ensures
            old(self).state != TcpState::Closed ==> r == Err::<(), TcpError>(TcpError::WrongState)
                && *final(self) == *old(self),
            old(self).state == TcpState::Closed && old(self).local_port == 0 ==> r == Err::<
                (),
                TcpError,
            >(TcpError::InvalidPort) && *final(self) == *old(self),
            old(self).state == TcpState::Closed && old(self).local_port != 0 ==> r == Ok::<
                (),
                TcpError,
            >(()) && *final(self) == cm_set_state(*old(self), TcpState::Listen),
    {
        if self.state != TcpState::Closed {
            return Err(TcpError::WrongState);
        }
        if self.local_port == 0 {
            return Err(TcpError::InvalidPort);
        }
        self.state = TcpState::Listen;
        Ok(())
    }

    /// Closed to SynSent, storing the remote half.  Emitting the SYN is the
    /// transmit collaborator's job.
    pub fn on_connect(&mut self, remote_ip: IpAddr, remote_port: u16) -> (r: Result<(), TcpError>)
        ensures
            old(self).state != TcpState::Closed ==> r == Err::<(), TcpError>(TcpError::WrongState)
                && *final(self) == *old(self),
            old(self).state == TcpState::Closed ==> r == Ok::<(), TcpError>(()) && *final(self)
                == cm_connect(*old(self), remote_ip, remote_port),
    {
        if self.state != TcpState::Closed {
            return Err(TcpError::WrongState);
        }
        self.remote_ip = remote_ip;
        self.remote_port = remote_port;
        self.state = TcpState::SynSent;
        Ok(())
    }

    /// Graceful close from any state.  Returns whether a FIN must be sent:
    /// true exactly from Established and CloseWait; states that are already
    /// closing stay put and need none.
    pub fn on_close(&mut self) -> (r: Result<bool, TcpError>)
        ensures
            r == Ok::<bool, TcpError>(close_sends_fin(old(self).state)),
            *final(self) == cm_set_state(*old(self), close_next_state(old(self).state)),
    {
        match self.state {
            TcpState::Closed => Ok(false),
            TcpState::Listen => {
                self.state = TcpState::Closed;
                Ok(false)
            },
            TcpState::SynSent => {
                self.state = TcpState::Closed;
                Ok(false)
            },
            TcpState::SynRcvd => {
                self.state = TcpState::Closed;
                Ok(false)
            },
            TcpState::Established => {
                self.state = TcpState::FinWait1;
                Ok(true)
            },
            TcpState::CloseWait => {
                self.state = TcpState::LastAck;
                Ok(true)
            },
            _ => Ok(false),
        }
    }

    /// Established, data or plain ACK: no lifecycle change.
    pub fn on_data_in_established(&mut self) -> (r: Result<(), TcpError>)
        ensures
            r == Ok::<(), TcpError>(()),
            *final(self) == *old(self),
    {
        Ok(())
    }

    /// CloseWait, ACK: no lifecycle change.
    pub fn on_ack_in_closewait(&mut self) -> (r: Result<(), TcpError>)
        ensures
            r == Ok::<(), TcpError>(()),
            *final(self) == *old(self),
    {
        Ok(())
    }

    /// TimeWait, retransmitted FIN: stay in TimeWait; restarting the 2MSL
    /// timer is the timer collaborator's job.
    pub fn on_fin_in_timewait(&mut self) -> (r: Result<(), TcpError>)
        ensures
            r == Ok::<(), TcpError>(()),
            *final(self) == *old(self),
    {
        Ok(())
    }
}

} // verus!
