//! Reliable Ordered Delivery: the component that owns every 32-bit sequence
//! variable, its handshake and teardown event handlers, and the three
//! read-only validators the dispatcher consumes.

use vstd::prelude::*;
use crate::seqnum::{spec_seq_lt, spec_seq_leq, spec_seq_gt, spec_seq_in_window, seq_lt, seq_leq,
    seq_gt, seq_in_window};
use crate::tcp_types::{TcpSegment, TcpError, AckValidation, RstValidation};

verus! {

/// Sequence numbers, ACK bookkeeping and retransmission placeholders.
/// Only its own event handlers write to this state.
pub struct ReliableOrderedDeliveryState {
    /// Next sequence number to send.
    pub snd_nxt: u32,
    /// Next sequence number expected from the peer.
    pub rcv_nxt: u32,
    /// Highest cumulative ACK received (SND.UNA).
    pub lastack: u32,
    /// Our initial send sequence number.
    pub iss: u32,
    /// The peer's initial sequence number.
    pub irs: u32,
    /// Sequence number of the next byte to be buffered.
    pub snd_lbb: u32,
    /// Available space in the send buffer.
    pub snd_buf: u16,
    /// Number of buffers in the send queues.
    pub snd_queuelen: u16,
    /// Bytes acknowledged in the current round.
    pub bytes_acked: u16,
    /// Retransmission timer countdown.
    pub rtime: i16,
    /// RTT measurement start time.
    pub rttest: u32,
    /// Sequence number being timed for RTT.
    pub rtseq: u32,
    /// Smoothed RTT.
    pub sa: i16,
    /// RTT variance.
    pub sv: i16,
    /// Retransmission timeout, in milliseconds.
    pub rto: i16,
    /// Number of retransmissions.
    pub nrtx: u8,
    /// Duplicate-ACK counter.
    pub dupacks: u8,
    /// End of RTO recovery.
    pub rto_end: u32,
    /// Timestamp echoed in the last ACK sent.
    pub ts_lastacksent: u32,
    /// Most recent timestamp received.
    pub ts_recent: u32,
    /// Deterministic counter behind initial-sequence-number choice; a
    /// stand-in for an injected RFC 6528 generator, adequate for tests.
    pub iss_counter: u32,
}

/// A segment's sequence number is acceptable against the receive window
/// (RFC 793): with a zero window only the exact next number, otherwise the
/// first or the last payload byte must fall inside `[rcv_nxt, rcv_nxt + wnd)`.
pub open spec fn spec_valid_seq(rcv_nxt: u32, seg: TcpSegment, rcv_wnd: u16) -> bool {
    if rcv_wnd == 0 {
        seg.seqno == rcv_nxt
    } else {
        spec_seq_in_window(seg.seqno, rcv_nxt, rcv_wnd) || (seg.payload_len > 0
            && spec_seq_in_window(
            seg.seqno.wrapping_add(seg.payload_len as u32).wrapping_sub(1),
            rcv_nxt,
            rcv_wnd,
        ))
    }
}

/// The ACK verdict of RFC 5961 section 5: equal to the last ACK is a
/// duplicate; within `(lastack, snd_nxt]` valid; beyond `snd_nxt` an ACK of
/// unsent data; anything else old.  `Invalid` is never produced.
pub open spec fn spec_ack_validation(lastack: u32, snd_nxt: u32, ackno: u32) -> AckValidation {
    if ackno == lastack {
        AckValidation::Duplicate
    } else if spec_seq_lt(lastack, ackno) && spec_seq_leq(ackno, snd_nxt) {
        AckValidation::Valid
    } else if spec_seq_gt(ackno, snd_nxt) {
        AckValidation::Future
    } else {
        AckValidation::Old
    }
}

/// The RST verdict of RFC 5961 section 3: an in-window sequence number is
/// accepted, anything else draws a challenge ACK.  `Invalid` is never
/// produced.
pub open spec fn spec_rst_validation(rcv_nxt: u32, seg: TcpSegment, rcv_wnd: u16) -> RstValidation {
    if spec_valid_seq(rcv_nxt, seg, rcv_wnd) {
        RstValidation::Valid
    } else {
        RstValidation::Challenge
    }
}

/// Sequence state after a SYN arrives in Listen: the peer's initial number
/// is recorded, the next expected number is one past it, and a fresh initial
/// send number seeds `snd_nxt`, `snd_lbb` and `lastack`.
pub open spec fn rod_syn_in_listen(pre: ReliableOrderedDeliveryState, seg: TcpSegment)
    -> ReliableOrderedDeliveryState {
    let iss = pre.iss_counter.wrapping_add(1);
    ReliableOrderedDeliveryState {
        irs: seg.seqno,
        rcv_nxt: seg.seqno.wrapping_add(1),
        iss: iss,
        snd_nxt: iss,
        snd_lbb: iss,
        lastack: iss,
        iss_counter: iss,
        ..pre
    }
}

/// Sequence state after a SYN-ACK that acknowledges our SYN arrives in
/// SynSent.
pub open spec fn rod_synack_in_synsent(pre: ReliableOrderedDeliveryState, seg: TcpSegment)
    -> ReliableOrderedDeliveryState {
    ReliableOrderedDeliveryState {
        irs: seg.seqno,
        rcv_nxt: seg.seqno.wrapping_add(1),
        snd_nxt: pre.iss.wrapping_add(1),
        lastack: seg.ackno,
        ..pre
    }
}

/// Sequence state after the ACK that completes a passive open.
pub open spec fn rod_ack_in_synrcvd(pre: ReliableOrderedDeliveryState, seg: TcpSegment)
    -> ReliableOrderedDeliveryState {
    ReliableOrderedDeliveryState {
        snd_nxt: pre.iss.wrapping_add(1),
        lastack: seg.ackno,
        ..pre
    }
}

/// Sequence state after a FIN is consumed: the FIN takes one sequence
/// number, so the next expected number advances by one.
pub open spec fn rod_fin_advance(pre: ReliableOrderedDeliveryState)
    -> ReliableOrderedDeliveryState {
    ReliableOrderedDeliveryState { rcv_nxt: pre.rcv_nxt.wrapping_add(1), ..pre }
}

/// Sequence state after the peer acknowledges our FIN.
pub open spec fn rod_ack_of_fin(pre: ReliableOrderedDeliveryState, ackno: u32)
    -> ReliableOrderedDeliveryState {
    ReliableOrderedDeliveryState { lastack: ackno, ..pre }
}

/// Sequence state after a reset or an abort: the working sequence numbers
/// are cleared atomically with the move to Closed.
pub open spec fn rod_reset(pre: ReliableOrderedDeliveryState) -> ReliableOrderedDeliveryState {
    ReliableOrderedDeliveryState { snd_nxt: 0, rcv_nxt: 0, lastack: 0, ..pre }
}

/// Sequence state after an active open: a fresh initial send number, with
/// `snd_lbb` and `lastack` one before it until the SYN is emitted.
pub open spec fn rod_connect(pre: ReliableOrderedDeliveryState) -> ReliableOrderedDeliveryState {
    let iss = pre.iss_counter.wrapping_add(1);
    ReliableOrderedDeliveryState {
        iss: iss,
        snd_nxt: iss,
        snd_lbb: iss.wrapping_sub(1),
        lastack: iss.wrapping_sub(1),
        iss_counter: iss,
        ..pre
    }
}

impl ReliableOrderedDeliveryState {
    /// The freshly created component: all counters cleared, the default
    /// retransmission timeout of three seconds.
    pub open spec fn spec_new() -> Self {
        ReliableOrderedDeliveryState {
            snd_nxt: 0,
            rcv_nxt: 0,
            lastack: 0,
            iss: 0,
            irs: 0,
            snd_lbb: 0,
            snd_buf: 0,
            snd_queuelen: 0,
            bytes_acked: 0,
            rtime: 0,
            rttest: 0,
            rtseq: 0,
            sa: 0,
            sv: 0,
            rto: 3000,
            nrtx: 0,
            dupacks: 0,
            rto_end: 0,
            ts_lastacksent: 0,
            ts_recent: 0,
            iss_counter: 0,
        }
    }

    pub fn new() -> (r: Self)
        ensures
            r == Self::spec_new(),
    {
        ReliableOrderedDeliveryState {
            snd_nxt: 0,
            rcv_nxt: 0,
            lastack: 0,
            iss: 0,
            irs: 0,
            snd_lbb: 0,
            snd_buf: 0,
            snd_queuelen: 0,
            bytes_acked: 0,
            rtime: 0,
            rttest: 0,
            rtseq: 0,
            sa: 0,
            sv: 0,
            rto: 3000,
            nrtx: 0,
            dupacks: 0,
            rto_end: 0,
            ts_lastacksent: 0,
            ts_recent: 0,
            iss_counter: 0,
        }
    }

    /// Listen, SYN received: install the peer's initial sequence number and
    /// choose ours.
    pub fn on_syn_in_listen(&mut self, seg: &TcpSegment) -> (r: Result<(), TcpError>)
        ensures
            r == Ok::<(), TcpError>(()),
            *final(self) == rod_syn_in_listen(*old(self), *seg),
    {
        self.irs = seg.seqno;
        self.rcv_nxt = seg.seqno.wrapping_add(1);
        self.iss_counter = self.iss_counter.wrapping_add(1);
        let iss = self.iss_counter;
        self.iss = iss;
        self.snd_nxt = iss;
        self.snd_lbb = iss;
        self.lastack = iss;
        Ok(())
    }

    /// SynSent, SYN-ACK received: accepted exactly when the ACK covers our
    /// SYN (`ackno == iss + 1`); otherwise nothing changes.
    pub fn on_synack_in_synsent(&mut self, seg: &TcpSegment) -> (r: Result<(), TcpError>)
        ensures
            seg.ackno == old(self).iss.wrapping_add(1) ==> r == Ok::<(), TcpError>(()) && *final(self) == rod_synack_in_synsent(*old(self), *seg),
            seg.ackno != old(self).iss.wrapping_add(1) ==> r == Err::<(), TcpError>(
                TcpError::InvalidAckNumber,
            ) && *final(self) == *old(self),
    {
        if seg.ackno != self.iss.wrapping_add(1) {
            return Err(TcpError::InvalidAckNumber);
        }
        self.irs = seg.seqno;
        self.rcv_nxt = seg.seqno.wrapping_add(1);
        self.snd_nxt = self.iss.wrapping_add(1);
        self.lastack = seg.ackno;
        Ok(())
    }

    /// SynRcvd, ACK received: accepted exactly when the ACK covers our SYN.
    pub fn on_ack_in_synrcvd(&mut self, seg: &TcpSegment) -> (r: Result<(), TcpError>)
        ensures
            seg.ackno == old(self).iss.wrapping_add(1) ==> r == Ok::<(), TcpError>(()) && *final(self) == rod_ack_in_synrcvd(*old(self), *seg),
            seg.ackno != old(self).iss.wrapping_add(1) ==> r == Err::<(), TcpError>(
                TcpError::InvalidAckNumber,
            ) && *final(self) == *old(self),
    {
        if seg.ackno != self.iss.wrapping_add(1) {
            return Err(TcpError::InvalidAckNumber);
        }
        self.snd_nxt = self.iss.wrapping_add(1);
        self.lastack = seg.ackno;
        Ok(())
    }

    /// Established, FIN received: accepted exactly when the FIN sits at the
    /// next expected sequence number; the FIN consumes one number.
    pub fn on_fin_in_established(&mut self, seg: &TcpSegment) -> (r: Result<(), TcpError>)
        ensures
            seg.seqno == old(self).rcv_nxt ==> r == Ok::<(), TcpError>(()) && *final(self)
                == rod_fin_advance(*old(self)),
            seg.seqno != old(self).rcv_nxt ==> r == Err::<(), TcpError>(
                TcpError::InvalidSequenceNumber,
            ) && *final(self) == *old(self),
    {
        if seg.seqno != self.rcv_nxt {
            return Err(TcpError::InvalidSequenceNumber);
        }
        self.rcv_nxt = self.rcv_nxt.wrapping_add(1);
        Ok(())
    }

    /// FinWait1, ACK received: accepted exactly when it acknowledges our FIN
    /// (`ackno == snd_nxt + 1`; the FIN consumed one sequence number).
    pub fn on_ack_in_finwait1(&mut self, seg: &TcpSegment) -> (r: Result<(), TcpError>)
        ensures
            seg.ackno == old(self).snd_nxt.wrapping_add(1) ==> r == Ok::<(), TcpError>(())
                && *final(self) == rod_ack_of_fin(*old(self), seg.ackno),
            seg.ackno != old(self).snd_nxt.wrapping_add(1) ==> r == Err::<(), TcpError>(
                TcpError::InvalidAckNumber,
            ) && *final(self) == *old(self),
    {
        if seg.ackno != self.snd_nxt.wrapping_add(1) {
            return Err(TcpError::InvalidAckNumber);
        }
        self.lastack = seg.ackno;
        Ok(())
    }

    /// FinWait1, FIN received (simultaneous close): accepted exactly when it
    /// sits at the next expected sequence number.
    pub fn on_fin_in_finwait1(&mut self, seg: &TcpSegment) -> (r: Result<(), TcpError>)
        ensures
            seg.seqno == old(self).rcv_nxt ==> r == Ok::<(), TcpError>(()) && *final(self)
                == rod_fin_advance(*old(self)),
            seg.seqno != old(self).rcv_nxt ==> r == Err::<(), TcpError>(
                TcpError::InvalidSequenceNumber,
            ) && *final(self) == *old(self),
    {
        if seg.seqno != self.rcv_nxt {
            return Err(TcpError::InvalidSequenceNumber);
        }
        self.rcv_nxt = self.rcv_nxt.wrapping_add(1);
        Ok(())
    }

    /// FinWait2, FIN received: accepted exactly when it sits at the next
    /// expected sequence number.
    pub fn on_fin_in_finwait2(&mut self, seg: &TcpSegment) -> (r: Result<(), TcpError>)
        ensures
            seg.seqno == old(self).rcv_nxt ==> r == Ok::<(), TcpError>(()) && *final(self)
                == rod_fin_advance(*old(self)),
            seg.seqno != old(self).rcv_nxt ==> r == Err::<(), TcpError>(
                TcpError::InvalidSequenceNumber,
            ) && *final(self) == *old(self),
    {
        if seg.seqno != self.rcv_nxt {
            return Err(TcpError::InvalidSequenceNumber);
        }
        self.rcv_nxt = self.rcv_nxt.wrapping_add(1);
        Ok(())
    }

    /// Closing, ACK received: accepted exactly when it acknowledges our FIN.
    pub fn on_ack_in_closing(&mut self, seg: &TcpSegment) -> (r: Result<(), TcpError>)
        ensures
            seg.ackno == old(self).snd_nxt.wrapping_add(1) ==> r == Ok::<(), TcpError>(())
                && *final(self) == rod_ack_of_fin(*old(self), seg.ackno),
            seg.ackno != old(self).snd_nxt.wrapping_add(1) ==> r == Err::<(), TcpError>(
                TcpError::InvalidAckNumber,
            ) && *final(self) == *old(self),
    {
        if seg.ackno != self.snd_nxt.wrapping_add(1) {
            return Err(TcpError::InvalidAckNumber);
        }
        self.lastack = seg.ackno;
        Ok(())
    }

    /// LastAck, ACK received: accepted exactly when it acknowledges our FIN.
    pub fn on_ack_in_lastack(&mut self, seg: &TcpSegment) -> (r: Result<(), TcpError>)
        ensures
            seg.ackno == old(self).snd_nxt.wrapping_add(1) ==> r == Ok::<(), TcpError>(())
                && *final(self) == rod_ack_of_fin(*old(self), seg.ackno),
            seg.ackno != old(self).snd_nxt.wrapping_add(1) ==> r == Err::<(), TcpError>(
                TcpError::InvalidAckNumber,
            ) && *final(self) == *old(self),
    {
        if seg.ackno != self.snd_nxt.wrapping_add(1) {
            return Err(TcpError::InvalidAckNumber);
        }
        self.lastack = seg.ackno;
        Ok(())
    }

    /// Reset: clear the working sequence numbers.
    pub fn on_rst(&mut self) -> (r: Result<(), TcpError>)
        ensures
            r == Ok::<(), TcpError>(()),
            *final(self) == rod_reset(*old(self)),
    {
        self.snd_nxt = 0;
        self.rcv_nxt = 0;
        self.lastack = 0;
        Ok(())
    }

    /// Abort: clear the working sequence numbers.
    pub fn on_abort(&mut self) -> (r: Result<(), TcpError>)
        ensures
            r == Ok::<(), TcpError>(()),
            *final(self) == rod_reset(*old(self)),
    {
        self.snd_nxt = 0;
        self.rcv_nxt = 0;
        self.lastack = 0;
        Ok(())
    }

    /// Active open: choose a fresh initial send sequence number.
    pub fn on_connect(&mut self) -> (r: Result<(), TcpError>)
        ensures
            r == Ok::<(), TcpError>(()),
            *final(self) == rod_connect(*old(self)),
    {
        self.iss_counter = self.iss_counter.wrapping_add(1);
        let iss = self.iss_counter;
        self.iss = iss;
        self.snd_nxt = iss;
        self.snd_lbb = iss.wrapping_sub(1);
        self.lastack = iss.wrapping_sub(1);
        Ok(())
    }

    /// RFC 793 sequence-window check against the given receive window.
    pub fn validate_sequence_number(&self, seg: &TcpSegment, rcv_wnd: u16) -> (r: bool)
        ensures
            r == spec_valid_seq(self.rcv_nxt, *seg, rcv_wnd),
    {
        if rcv_wnd == 0 {
            return seg.seqno == self.rcv_nxt;
        }
        let seg_end = seg.seqno.wrapping_add(seg.payload_len as u32);
        seq_in_window(seg.seqno, self.rcv_nxt, rcv_wnd) || (seg.payload_len > 0 && seq_in_window(
            seg_end.wrapping_sub(1),
            self.rcv_nxt,
            rcv_wnd,
        ))
    }

    /// RFC 5961 ACK check against `lastack` and `snd_nxt`.
    pub fn validate_ack(&self, seg: &TcpSegment) -> (r: AckValidation)
        ensures
            r == spec_ack_validation(self.lastack, self.snd_nxt, seg.ackno),
    {
        if seg.ackno == self.lastack {
            AckValidation::Duplicate
        } else if seq_lt(self.lastack, seg.ackno) && seq_leq(seg.ackno, self.snd_nxt) {
            AckValidation::Valid
        } else if seq_gt(seg.ackno, self.snd_nxt) {
            AckValidation::Future
        } else {
            AckValidation::Old
        }
    }

    /// RFC 5961 RST check against the receive window.
    pub fn validate_rst(&self, seg: &TcpSegment, rcv_wnd: u16) -> (r: RstValidation)
        ensures
            r == spec_rst_validation(self.rcv_nxt, *seg, rcv_wnd),
    {
        if self.validate_sequence_number(seg, rcv_wnd) {
            RstValidation::Valid
        } else {
            RstValidation::Challenge
        }
    }
}

} // verus!
