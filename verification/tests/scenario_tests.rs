//! End-to-end scenarios through the public API and the dispatcher, and
//! concrete checks of the protocol laws.

use tcp_core::{
    TcpConnectionState, TcpState, TcpSegment, TcpFlags, IpAddr, TcpError, InputAction,
    tcp_bind, tcp_listen, tcp_connect, tcp_abort, initiate_close, tcp_input,
    seq_lt, seq_leq, seq_gt,
};

fn flags_of(fin: bool, syn: bool, rst: bool, ack: bool) -> TcpFlags {
    TcpFlags { fin, syn, rst, psh: false, ack, urg: false }
}

fn seg(seqno: u32, ackno: u32, flags: TcpFlags, wnd: u16) -> TcpSegment {
    TcpSegment { seqno, ackno, flags, wnd, tcphdr_len: 20, payload_len: 0 }
}

fn established_state() -> TcpConnectionState {
    let mut state = TcpConnectionState::new();
    state.conn_mgmt.state = TcpState::Established;
    state.conn_mgmt.local_port = 0x101;
    state.conn_mgmt.remote_port = 0x100;
    state.rod.iss = 1000;
    state.rod.snd_nxt = 1001;
    state.rod.lastack = 1001;
    state.rod.irs = 2000;
    state.rod.rcv_nxt = 2001;
    state.flow_ctrl.snd_wnd = 8192;
    state.flow_ctrl.rcv_wnd = 8192;
    state.cong_ctrl.cwnd = 2144;
    state
}

const REMOTE: IpAddr = IpAddr { addr: 0xC0A80002 };

// Passive open: bind, listen, SYN in, ACK in.
#[test]
fn scenario_passive_open() {
    let mut state = TcpConnectionState::new();
    tcp_bind(&mut state, IpAddr { addr: 0xC0A80001 }, 8080).unwrap();
    tcp_listen(&mut state).unwrap();

    let syn = seg(1000, 0, flags_of(false, true, false, false), 8192);
    let action = tcp_input(&mut state, &syn, REMOTE, 12345).unwrap();
    assert_eq!(action, InputAction::SendSynAck);
    assert_eq!(state.conn_mgmt.state, TcpState::SynRcvd);
    assert_eq!(state.rod.irs, 1000);
    assert_eq!(state.rod.rcv_nxt, 1001);
    assert_eq!(state.flow_ctrl.snd_wnd, 8192);
    // RFC 5681 initial window for the default MSS of 536:
    // min(4 * 536, max(2 * 536, 4380)) = min(2144, 4380) = 2144.
    assert_eq!(state.cong_ctrl.cwnd, 2144);
    assert_eq!(state.conn_mgmt.remote_ip.addr, REMOTE.addr);
    assert_eq!(state.conn_mgmt.remote_port, 12345);

    let iss = state.rod.iss;
    let ack = seg(1001, iss.wrapping_add(1), flags_of(false, false, false, true), 8192);
    let action = tcp_input(&mut state, &ack, REMOTE, 12345).unwrap();
    assert_eq!(action, InputAction::Accept);
    assert_eq!(state.conn_mgmt.state, TcpState::Established);
    assert_eq!(state.rod.lastack, iss.wrapping_add(1));
}

// Active open: bind, connect, SYN-ACK in.
#[test]
fn scenario_active_open() {
    let mut state = TcpConnectionState::new();
    tcp_bind(&mut state, IpAddr { addr: 0xC0A80001 }, 12345).unwrap();
    tcp_connect(&mut state, REMOTE, 80).unwrap();

    assert_eq!(state.conn_mgmt.state, TcpState::SynSent);
    assert_ne!(state.rod.iss, 0);
    assert_eq!(state.rod.snd_nxt, state.rod.iss);
    assert_eq!(state.flow_ctrl.rcv_wnd, 4096);
    assert_eq!(state.cong_ctrl.cwnd, state.conn_mgmt.mss);

    let iss = state.rod.iss;
    let synack = seg(5000, iss.wrapping_add(1), flags_of(false, true, false, true), 8192);
    let action = tcp_input(&mut state, &synack, REMOTE, 80).unwrap();
    assert_eq!(action, InputAction::Accept);
    assert_eq!(state.conn_mgmt.state, TcpState::Established);
    assert_eq!(state.rod.rcv_nxt, 5001);
    assert_eq!(state.rod.lastack, iss.wrapping_add(1));
}

// Graceful active close: FIN_WAIT_1, FIN_WAIT_2, TIME_WAIT.
#[test]
fn scenario_graceful_active_close() {
    let mut state = established_state();
    let n = state.rod.snd_nxt;
    let r = state.rod.rcv_nxt;

    assert_eq!(initiate_close(&mut state).unwrap(), true);
    assert_eq!(state.conn_mgmt.state, TcpState::FinWait1);

    let ack = seg(r, n.wrapping_add(1), flags_of(false, false, false, true), 8192);
    let action = tcp_input(&mut state, &ack, REMOTE, 0x100).unwrap();
    assert_eq!(action, InputAction::Accept);
    assert_eq!(state.conn_mgmt.state, TcpState::FinWait2);

    let finack = seg(r, n.wrapping_add(1), flags_of(true, false, false, true), 8192);
    let action = tcp_input(&mut state, &finack, REMOTE, 0x100).unwrap();
    assert_eq!(action, InputAction::Accept);
    assert_eq!(state.conn_mgmt.state, TcpState::TimeWait);
    assert_eq!(state.rod.rcv_nxt, r.wrapping_add(1));
}

// Simultaneous close: crossing FINs through CLOSING to TIME_WAIT.
#[test]
fn scenario_simultaneous_close() {
    let mut state = established_state();
    let n = state.rod.snd_nxt;
    let r = state.rod.rcv_nxt;

    assert_eq!(initiate_close(&mut state).unwrap(), true);
    assert_eq!(state.conn_mgmt.state, TcpState::FinWait1);

    // The peer's FIN crosses ours: its ACK does not yet cover our FIN.
    let fin = seg(r, n, flags_of(true, false, false, false), 8192);
    let action = tcp_input(&mut state, &fin, REMOTE, 0x100).unwrap();
    assert_eq!(action, InputAction::Accept);
    assert_eq!(state.conn_mgmt.state, TcpState::Closing);

    let ack = seg(r.wrapping_add(1), n.wrapping_add(1), flags_of(false, false, false, true), 8192);
    let action = tcp_input(&mut state, &ack, REMOTE, 0x100).unwrap();
    assert_eq!(action, InputAction::Accept);
    assert_eq!(state.conn_mgmt.state, TcpState::TimeWait);
}

// An in-window RST closes the connection and clears every component.
#[test]
fn scenario_rst_in_window() {
    let mut state = established_state();
    state.rod.rcv_nxt = 1000;
    state.flow_ctrl.rcv_wnd = 8192;

    let rst = seg(5000, 0, flags_of(false, false, true, false), 8192);
    let action = tcp_input(&mut state, &rst, REMOTE, 0x100).unwrap();
    assert_eq!(action, InputAction::Abort);
    assert_eq!(state.conn_mgmt.state, TcpState::Closed);
    assert_eq!(state.rod.snd_nxt, 0);
    assert_eq!(state.rod.rcv_nxt, 0);
    assert_eq!(state.rod.lastack, 0);
    assert_eq!(state.cong_ctrl.cwnd, 0);
    assert_eq!(state.flow_ctrl.snd_wnd, 0);
    assert_eq!(state.flow_ctrl.rcv_wnd, 0);
}

// An out-of-window RST draws a challenge ACK and changes nothing.
#[test]
fn scenario_rst_out_of_window() {
    let mut state = established_state();
    let r = state.rod.rcv_nxt;

    let rst = seg(r.wrapping_add(100000), 0, flags_of(false, false, true, false), 8192);
    let action = tcp_input(&mut state, &rst, REMOTE, 0x100).unwrap();
    assert_eq!(action, InputAction::SendChallengeAck);
    assert_eq!(state.conn_mgmt.state, TcpState::Established);
    assert_eq!(state.rod.rcv_nxt, r);
    assert_eq!(state.cong_ctrl.cwnd, 2144);
}

// An ACK of unsent data draws a challenge ACK.
#[test]
fn scenario_challenge_on_future_ack() {
    let mut state = established_state();
    let n = state.rod.snd_nxt;
    let r = state.rod.rcv_nxt;

    let ack = seg(r, n.wrapping_add(1000), flags_of(false, false, false, true), 8192);
    let action = tcp_input(&mut state, &ack, REMOTE, 0x100).unwrap();
    assert_eq!(action, InputAction::SendChallengeAck);
    assert_eq!(state.conn_mgmt.state, TcpState::Established);
}

// The initial-window formula, exactly, across the MSS range.
#[test]
fn initial_window_formula() {
    // (mss, min(4 * mss, max(2 * mss, 4380)))
    let cases: Vec<(u16, u16)> = vec![
        (536, 2144),
        (1095, 4380),
        (1096, 4380),
        (1460, 4380),
        (2190, 4380),
        (2191, 4382),
        (9216, 18432),
    ];
    for (mss, expected) in cases {
        let mut state = TcpConnectionState::new();
        state.conn_mgmt.state = TcpState::Listen;
        state.conn_mgmt.local_port = 80;
        state.conn_mgmt.mss = mss;

        let syn = seg(1000, 0, flags_of(false, true, false, false), 8192);
        let action = tcp_input(&mut state, &syn, REMOTE, 12345).unwrap();
        assert_eq!(action, InputAction::SendSynAck);
        assert_eq!(state.cong_ctrl.cwnd, expected, "initial window for MSS {}", mss);
    }
}

// Abort twice equals abort once, and only the first abort owes an RST.
#[test]
fn abort_is_idempotent() {
    let mut state = established_state();
    assert_eq!(tcp_abort(&mut state).unwrap(), true);
    assert_eq!(state.conn_mgmt.state, TcpState::Closed);
    let snapshot_rcv = state.rod.rcv_nxt;
    let snapshot_cwnd = state.cong_ctrl.cwnd;

    assert_eq!(tcp_abort(&mut state).unwrap(), false);
    assert_eq!(state.conn_mgmt.state, TcpState::Closed);
    assert_eq!(state.rod.rcv_nxt, snapshot_rcv);
    assert_eq!(state.cong_ctrl.cwnd, snapshot_cwnd);
}

// Abort from Closed and Listen owes no RST; from anything else it does.
#[test]
fn abort_rst_by_state() {
    let needs_rst = vec![
        (TcpState::Closed, false),
        (TcpState::Listen, false),
        (TcpState::SynSent, true),
        (TcpState::SynRcvd, true),
        (TcpState::Established, true),
        (TcpState::FinWait1, true),
        (TcpState::FinWait2, true),
        (TcpState::CloseWait, true),
        (TcpState::Closing, true),
        (TcpState::LastAck, true),
        (TcpState::TimeWait, true),
    ];
    for (s, expected) in needs_rst {
        let mut state = TcpConnectionState::new();
        state.conn_mgmt.state = s;
        assert_eq!(tcp_abort(&mut state).unwrap(), expected, "abort from {:?}", s);
        assert_eq!(state.conn_mgmt.state, TcpState::Closed);
    }
}

// Close in a state that is already closing owes no FIN and moves nowhere.
#[test]
fn close_in_terminal_states() {
    let terminal = vec![
        TcpState::FinWait1,
        TcpState::FinWait2,
        TcpState::Closing,
        TcpState::LastAck,
        TcpState::TimeWait,
    ];
    for s in terminal {
        let mut state = TcpConnectionState::new();
        state.conn_mgmt.state = s;
        assert_eq!(initiate_close(&mut state).unwrap(), false, "close in {:?}", s);
        assert_eq!(state.conn_mgmt.state, s);
    }
    // And Closed itself.
    let mut state = TcpConnectionState::new();
    assert_eq!(initiate_close(&mut state).unwrap(), false);
    assert_eq!(state.conn_mgmt.state, TcpState::Closed);
}

// rcv_nxt never moves backward across a handshake-and-teardown trace.
#[test]
fn rcv_nxt_monotone_over_trace() {
    let mut state = established_state();
    let mut prev = state.rod.rcv_nxt;
    let n = state.rod.snd_nxt;

    // A FIN advances rcv_nxt by one.
    let fin = seg(prev, n, flags_of(true, false, false, true), 8192);
    tcp_input(&mut state, &fin, REMOTE, 0x100).unwrap();
    assert!(seq_leq(prev, state.rod.rcv_nxt));
    prev = state.rod.rcv_nxt;

    // A dropped (out-of-window) segment leaves it unchanged.
    let stray = seg(prev.wrapping_sub(5000), n, flags_of(false, false, false, true), 8192);
    tcp_input(&mut state, &stray, REMOTE, 0x100).unwrap();
    assert!(seq_leq(prev, state.rod.rcv_nxt));
    assert_eq!(prev, state.rod.rcv_nxt);
}

// The signed modular comparisons behave across the wrap point.
#[test]
fn sequence_comparison_wraparound() {
    assert!(seq_lt(0xFFFF_FFFF, 0));
    assert!(seq_lt(0xFFFF_FFF0, 0x10));
    assert!(seq_gt(0x10, 0xFFFF_FFF0));
    assert!(seq_leq(5, 5));
    assert!(!seq_lt(5, 5));
    assert!(seq_lt(1000, 2000));
    assert!(!seq_gt(1000, 2000));
    // At distance 2^31 the signed difference is negative in both directions.
    assert!(seq_lt(0, 0x8000_0000));
    assert!(seq_lt(0x8000_0000, 0));
    assert!(!seq_gt(0, 0x8000_0000));
}

// Wrong-state and wrong-number errors, one input for each variant.
#[test]
fn error_variants() {
    // WrongState: bind outside Closed.
    let mut state = TcpConnectionState::new();
    state.conn_mgmt.state = TcpState::Listen;
    assert_eq!(
        tcp_bind(&mut state, IpAddr { addr: 1 }, 80).unwrap_err(),
        TcpError::WrongState
    );

    // InvalidPort: bind to port zero.
    let mut state = TcpConnectionState::new();
    assert_eq!(
        tcp_bind(&mut state, IpAddr { addr: 1 }, 0).unwrap_err(),
        TcpError::InvalidPort
    );

    // InvalidAckNumber: a SYN-ACK that does not acknowledge our SYN.
    let mut state = TcpConnectionState::new();
    state.rod.iss = 1000;
    let bad = seg(1, 42, flags_of(false, true, false, true), 100);
    assert_eq!(
        state.rod.on_synack_in_synsent(&bad).unwrap_err(),
        TcpError::InvalidAckNumber
    );

    // InvalidSequenceNumber: a FIN off the expected sequence number.
    let mut state = TcpConnectionState::new();
    state.rod.rcv_nxt = 2001;
    let bad_fin = seg(2005, 0, flags_of(true, false, false, false), 100);
    assert_eq!(
        state.rod.on_fin_in_established(&bad_fin).unwrap_err(),
        TcpError::InvalidSequenceNumber
    );
}

// The lifecycle enum's numeric codes round-trip, and the closing predicate
// covers exactly FinWait1 and everything past it.
#[test]
fn state_codes_and_closing() {
    let all = vec![
        TcpState::Closed,
        TcpState::Listen,
        TcpState::SynSent,
        TcpState::SynRcvd,
        TcpState::Established,
        TcpState::FinWait1,
        TcpState::FinWait2,
        TcpState::CloseWait,
        TcpState::Closing,
        TcpState::LastAck,
        TcpState::TimeWait,
    ];
    for (k, s) in all.iter().enumerate() {
        assert_eq!(s.to_u32(), k as u32);
        assert_eq!(TcpState::from_u32(k as u32), Some(*s));
    }
    assert_eq!(TcpState::from_u32(11), None);

    assert!(!TcpState::Closed.is_closing());
    assert!(!TcpState::Established.is_closing());
    assert!(TcpState::FinWait1.is_closing());
    assert!(TcpState::FinWait2.is_closing());
    assert!(TcpState::CloseWait.is_closing());
    assert!(TcpState::Closing.is_closing());
    assert!(TcpState::LastAck.is_closing());
    assert!(TcpState::TimeWait.is_closing());
}

// A FIN retransmitted into TimeWait is re-acknowledged; other in-window
// segments are absorbed.
#[test]
fn timewait_reack_fin() {
    let mut state = established_state();
    state.conn_mgmt.state = TcpState::TimeWait;
    let r = state.rod.rcv_nxt;

    let fin = seg(r, 0, flags_of(true, false, false, false), 8192);
    assert_eq!(tcp_input(&mut state, &fin, REMOTE, 0x100).unwrap(), InputAction::SendAck);
    assert_eq!(state.conn_mgmt.state, TcpState::TimeWait);

    let plain = seg(r, 0, flags_of(false, false, false, false), 8192);
    assert_eq!(tcp_input(&mut state, &plain, REMOTE, 0x100).unwrap(), InputAction::Accept);
    assert_eq!(state.conn_mgmt.state, TcpState::TimeWait);
}

// A lone SYN in SynSent (simultaneous open) is accepted without any state
// materialized.
#[test]
fn simultaneous_open_accepted_unmaterialized() {
    let mut state = TcpConnectionState::new();
    tcp_bind(&mut state, IpAddr { addr: 1 }, 12345).unwrap();
    tcp_connect(&mut state, REMOTE, 80).unwrap();
    let iss = state.rod.iss;

    let syn = seg(7000, 0, flags_of(false, true, false, false), 8192);
    assert_eq!(tcp_input(&mut state, &syn, REMOTE, 80).unwrap(), InputAction::Accept);
    assert_eq!(state.conn_mgmt.state, TcpState::SynSent);
    assert_eq!(state.rod.iss, iss);
    assert_eq!(state.rod.rcv_nxt, 0);
}

// Two connects in a row pick distinct initial sequence numbers.
#[test]
fn successive_iss_distinct() {
    let mut state = TcpConnectionState::new();
    tcp_bind(&mut state, IpAddr { addr: 1 }, 12345).unwrap();
    tcp_connect(&mut state, REMOTE, 80).unwrap();
    let first = state.rod.iss;

    tcp_abort(&mut state).unwrap();
    tcp_connect(&mut state, REMOTE, 80).unwrap();
    let second = state.rod.iss;

    assert_ne!(first, second);
}

// The 4-tuple match that demultiplexing keys on.
#[test]
fn demux_tuple_match() {
    let mut state = TcpConnectionState::new();
    tcp_bind(&mut state, IpAddr { addr: 0xC0A80001 }, 8080).unwrap();
    tcp_connect(&mut state, REMOTE, 80).unwrap();

    assert!(tcp_core::DemuxState::matches_tuple(
        &state.conn_mgmt,
        IpAddr { addr: 0xC0A80001 },
        8080,
        REMOTE,
        80,
    ));
    assert!(!tcp_core::DemuxState::matches_tuple(
        &state.conn_mgmt,
        IpAddr { addr: 0xC0A80001 },
        8081,
        REMOTE,
        80,
    ));
    assert!(!tcp_core::DemuxState::matches_tuple(
        &state.conn_mgmt,
        IpAddr { addr: 0xC0A80009 },
        8080,
        REMOTE,
        80,
    ));
}
