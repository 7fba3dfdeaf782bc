use tunnel_relay::http::{header_step, inject_forwarded_for, HeaderPhase, MAX_PARSE_ATTEMPTS};
use tunnel_relay::ip::IpAddress;
use tunnel_relay::relay::{
    is_management_target, pump_step, session_start, session_step, Endpoint, PumpAction, PumpEvent,
    PumpState, SessionAction, SessionEvent, SessionState,
};

const COMPLETE_HEAD: &[u8] = b"GET / HTTP/1.1\r\nHost: a\r\n\r\n";

#[test]
fn inject_complete_head() {
    let buffer = COMPLETE_HEAD.to_vec();
    let head_len = buffer.len();
    let ip = b"1.2.3.4".to_vec();
    let (state, action) = session_start(buffer, true, ip);
    assert_eq!(action, SessionAction::Connect);
    match state {
        SessionState::Connecting { buffer, injected } => {
            assert!(injected);
            assert_eq!(
                buffer,
                b"GET / HTTP/1.1\r\nHost: a\r\nX-Forwarded-For: 1.2.3.4\r\n\r\n".to_vec()
            );
            assert_eq!(buffer.len(), head_len + "X-Forwarded-For: ".len() + "1.2.3.4".len() + 2);
        },
        _ => panic!("expected the connect phase"),
    }
}

#[test]
fn inject_preserves_body_bytes() {
    let mut buffer = COMPLETE_HEAD.to_vec();
    buffer.extend_from_slice(b"BODY");
    let (state, _) = session_start(buffer, true, b"9.9.9.9".to_vec());
    match state {
        SessionState::Connecting { buffer, injected } => {
            assert!(injected);
            assert_eq!(
                buffer,
                b"GET / HTTP/1.1\r\nHost: a\r\nX-Forwarded-For: 9.9.9.9\r\n\r\nBODY".to_vec()
            );
        },
        _ => panic!("expected the connect phase"),
    }
}

#[test]
fn inject_forwarded_for_exact_splice() {
    let buffer = b"GET / HTTP/1.1\r\nH: b\r\n\r\ntail".to_vec();
    let offset = buffer.len() - 4;
    let out = inject_forwarded_for(&buffer, offset, &b"10.0.0.1".to_vec());
    assert_eq!(
        out,
        b"GET / HTTP/1.1\r\nH: b\r\nX-Forwarded-For: 10.0.0.1\r\n\r\ntail".to_vec()
    );
}

#[test]
fn no_injection_for_ordinary_target() {
    let buffer = b"arbitrary bytes, not http".to_vec();
    let (state, action) = session_start(buffer.clone(), false, b"1.1.1.1".to_vec());
    assert_eq!(action, SessionAction::Connect);
    match state {
        SessionState::Connecting { buffer: b, injected } => {
            assert!(!injected);
            assert_eq!(b, buffer);
        },
        _ => panic!("expected the connect phase"),
    }
}

#[test]
fn incomplete_head_then_completion() {
    let buffer = b"GET / HTTP/1.1\r\nHost:".to_vec();
    let (state, action) = session_start(buffer, true, b"4.3.2.1".to_vec());
    assert_eq!(action, SessionAction::ReadHeader);
    let (state, action) = session_step(
        state,
        SessionEvent::BytesRead { data: b" a\r\n\r\n".to_vec() },
    );
    assert_eq!(action, SessionAction::Connect);
    match state {
        SessionState::Connecting { buffer, injected } => {
            assert!(injected);
            assert_eq!(
                buffer,
                b"GET / HTTP/1.1\r\nHost: a\r\nX-Forwarded-For: 4.3.2.1\r\n\r\n".to_vec()
            );
        },
        _ => panic!("expected the connect phase"),
    }
}

#[test]
fn fail_open_after_retry_budget() {
    let initial = b"GET / HTTP/1.1\r\nHost:".to_vec();
    let mut expected = initial.clone();
    let (mut state, mut action) = session_start(initial, true, b"1.2.3.4".to_vec());
    let mut reads = 0;
    while action == SessionAction::ReadHeader {
        let chunk = b"x".to_vec();
        expected.extend_from_slice(&chunk);
        reads += 1;
        let next = session_step(state, SessionEvent::BytesRead { data: chunk });
        state = next.0;
        action = next.1;
    }
    assert_eq!(reads, MAX_PARSE_ATTEMPTS as usize);
    assert_eq!(action, SessionAction::Connect);
    match state {
        SessionState::Connecting { buffer, injected } => {
            assert!(!injected);
            assert_eq!(buffer, expected);
        },
        _ => panic!("expected the connect phase"),
    }
}

#[test]
fn zero_byte_read_aborts_without_connect() {
    let (state, action) = session_start(b"GET ".to_vec(), true, b"1.2.3.4".to_vec());
    assert_eq!(action, SessionAction::ReadHeader);
    let (state, action) = session_step(state, SessionEvent::BytesRead { data: Vec::new() });
    assert_ne!(action, SessionAction::Connect);
    assert_eq!(action, SessionAction::CloseBoth);
    assert!(matches!(state, SessionState::Closed));
}

#[test]
fn failed_read_aborts_without_connect() {
    let (state, action) = session_start(b"GET ".to_vec(), true, b"1.2.3.4".to_vec());
    assert_eq!(action, SessionAction::ReadHeader);
    let (state, action) = session_step(state, SessionEvent::ReadFailed);
    assert_ne!(action, SessionAction::Connect);
    assert!(matches!(state, SessionState::Closed));
}

#[test]
fn connect_and_flush_reach_the_relay() {
    let (state, _) = session_start(b"payload".to_vec(), false, Vec::new());
    let (state, action) = session_step(state, SessionEvent::Connected);
    assert_eq!(action, SessionAction::Flush);
    match &state {
        SessionState::Flushing { buffer } => assert_eq!(buffer, &b"payload".to_vec()),
        _ => panic!("expected the flush phase"),
    }
    let (state, action) = session_step(state, SessionEvent::FlushOk);
    assert_eq!(action, SessionAction::SpawnPumps);
    assert!(matches!(state, SessionState::Relaying));
}

#[test]
fn connect_failure_closes_session() {
    let (state, _) = session_start(b"p".to_vec(), false, Vec::new());
    let (state, action) = session_step(state, SessionEvent::ConnectFailed);
    assert_eq!(action, SessionAction::CloseBoth);
    assert!(matches!(state, SessionState::Closed));
}

#[test]
fn flush_failure_closes_session() {
    let (state, _) = session_start(b"p".to_vec(), false, Vec::new());
    let (state, _) = session_step(state, SessionEvent::Connected);
    let (state, action) = session_step(state, SessionEvent::FlushFailed);
    assert_eq!(action, SessionAction::CloseBoth);
    assert!(matches!(state, SessionState::Closed));
}

#[test]
fn header_step_out_of_budget_leaves_buffer() {
    let buffer = COMPLETE_HEAD.to_vec();
    match header_step(buffer.clone(), MAX_PARSE_ATTEMPTS, &b"1.1.1.1".to_vec()) {
        HeaderPhase::Deliver { buffer: b, injected } => {
            assert!(!injected);
            assert_eq!(b, buffer);
        },
        _ => panic!("expected fail-open delivery"),
    }
}

#[test]
fn pump_forwards_then_times_out() {
    let (state, action) = pump_step(PumpState::Reading, PumpEvent::ReadDone { len: 100 });
    assert_eq!(state, PumpState::Writing { pending: 100 });
    assert_eq!(action, PumpAction::Write { len: 100 });
    let (state, action) = pump_step(state, PumpEvent::WriteDone);
    assert_eq!(state, PumpState::Reading);
    assert_eq!(action, PumpAction::Read);
    let (state, action) = pump_step(state, PumpEvent::ReadFailed);
    assert_eq!(state, PumpState::Done);
    assert_eq!(action, PumpAction::Shutdown);
    let (state, action) = pump_step(state, PumpEvent::ReadFailed);
    assert_eq!(state, PumpState::Done);
    assert_eq!(action, PumpAction::Idle);
}

#[test]
fn pump_shuts_down_once_per_ending() {
    let (state, action) = pump_step(PumpState::Reading, PumpEvent::ReadDone { len: 0 });
    assert_eq!(state, PumpState::Done);
    assert_eq!(action, PumpAction::Shutdown);
    let (state, action) = pump_step(PumpState::Writing { pending: 7 }, PumpEvent::WriteFailed);
    assert_eq!(state, PumpState::Done);
    assert_eq!(action, PumpAction::Shutdown);
    let (_, action) = pump_step(PumpState::Done, PumpEvent::WriteDone);
    assert_eq!(action, PumpAction::Idle);
}

#[test]
fn management_target_compared_by_value() {
    let a = Endpoint { ip: IpAddress::v4(127, 0, 0, 1), port: 8080 };
    let b = Endpoint { ip: IpAddress::v4(127, 0, 0, 1), port: 8080 };
    let other_port = Endpoint { ip: IpAddress::v4(127, 0, 0, 1), port: 8081 };
    let other_ip = Endpoint { ip: IpAddress::v4(127, 0, 0, 2), port: 8080 };
    let v6 = Endpoint { ip: IpAddress::v6(vec![0u8; 16]), port: 8080 };
    assert!(is_management_target(&a, &b));
    assert!(!is_management_target(&a, &other_port));
    assert!(!is_management_target(&a, &other_ip));
    assert!(!is_management_target(&a, &v6));
}
