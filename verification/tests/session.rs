use tcp_echo::config::SessionConfig;
use tcp_echo::diagnostic::Diagnostic;
use tcp_echo::handler::TrollHandler;
use tcp_echo::session::{Action, CloseReason, Event, Phase, Reply, Session, StepError};

fn quiet(action: Action) -> Result<Reply, StepError> {
    Ok(Reply { action, log: None })
}

fn server_session() -> Session<TrollHandler> {
    let mut s = Session::new(SessionConfig::immediate(), TrollHandler::silent());
    assert_eq!(s.step(Event::Opened), quiet(Action::Read { capacity: 1024 }));
    s
}

fn client_session() -> Session<TrollHandler> {
    let mut s = Session::new(SessionConfig::delayed(), TrollHandler::new());
    assert_eq!(s.step(Event::Opened), quiet(Action::Write(b"hello!".to_vec())));
    assert_eq!(s.step(Event::Written), quiet(Action::Read { capacity: 1024 }));
    s
}

#[test]
fn new_session_is_connected() {
    let s = Session::new(SessionConfig::immediate(), TrollHandler::silent());
    assert_eq!(s.phase(), Phase::Connected);
    assert!(!s.is_closed());
}

#[test]
fn server_sends_nothing_unsolicited() {
    let mut s = Session::new(SessionConfig::immediate(), TrollHandler::silent());
    assert_eq!(s.step(Event::Opened), quiet(Action::Read { capacity: 1024 }));
    assert_eq!(s.phase(), Phase::Reading);
}

#[test]
fn client_greets_before_it_reads() {
    let mut s = Session::new(SessionConfig::delayed(), TrollHandler::new());
    assert_eq!(s.step(Event::Opened), quiet(Action::Write(vec![104, 101, 108, 108, 111, 33])));
    assert_eq!(s.phase(), Phase::Writing);
    assert_eq!(s.step(Event::Written), quiet(Action::Read { capacity: 1024 }));
    assert_eq!(s.phase(), Phase::Reading);
}

#[test]
fn greeting_is_not_delayed() {
    let mut s = Session::new(
        SessionConfig::delayed(),
        TrollHandler::with_greeting(b"hi".to_vec()),
    );
    assert_eq!(s.step(Event::Opened), quiet(Action::Write(b"hi".to_vec())));
}

#[test]
fn failed_greeting_closes_the_session() {
    let mut s = Session::new(SessionConfig::delayed(), TrollHandler::new());
    assert_eq!(s.step(Event::Opened), quiet(Action::Write(b"hello!".to_vec())));
    assert_eq!(
        s.step(Event::WriteFailed),
        Ok(Reply {
            action: Action::Close(CloseReason::WriteFailed),
            log: Some(Diagnostic::WriteFailed),
        })
    );
    assert!(s.is_closed());
}

#[test]
fn server_echoes_at_once() {
    let mut s = server_session();
    assert_eq!(
        s.step(Event::Received(b"ping".to_vec())),
        Ok(Reply {
            action: Action::Write(b"ping".to_vec()),
            log: Some(Diagnostic::Text("ping".to_string())),
        })
    );
    assert_eq!(s.phase(), Phase::Writing);
    assert_eq!(s.step(Event::Written), quiet(Action::Read { capacity: 1024 }));
    assert_eq!(s.phase(), Phase::Reading);
}

#[test]
fn client_echoes_after_the_wait() {
    let mut s = client_session();
    assert_eq!(
        s.step(Event::Received(b"ping".to_vec())),
        Ok(Reply {
            action: Action::Delay { millis: 1000 },
            log: Some(Diagnostic::Text("ping".to_string())),
        })
    );
    assert_eq!(s.phase(), Phase::Delaying);
    assert_eq!(s.step(Event::DelayElapsed), quiet(Action::Write(b"ping".to_vec())));
    assert_eq!(s.phase(), Phase::Writing);
    assert_eq!(s.step(Event::Written), quiet(Action::Read { capacity: 1024 }));
    assert_eq!(s.phase(), Phase::Reading);
}

#[test]
fn echo_is_byte_for_byte() {
    let mut s = server_session();
    let mut chunk: Vec<u8> = Vec::new();
    for i in 0..1024usize {
        chunk.push((i % 256) as u8);
    }
    let reply = s.step(Event::Received(chunk.clone())).unwrap();
    assert_eq!(reply.action, Action::Write(chunk));
    assert_eq!(reply.log, Some(Diagnostic::Opaque(1024)));
}

#[test]
fn one_byte_is_echoed() {
    let mut s = server_session();
    let reply = s.step(Event::Received(vec![0])).unwrap();
    assert_eq!(reply.action, Action::Write(vec![0]));
}

#[test]
fn undecodable_chunk_is_still_echoed() {
    let mut s = server_session();
    assert_eq!(
        s.step(Event::Received(vec![0xff, 0xfe, 0x00])),
        Ok(Reply {
            action: Action::Write(vec![0xff, 0xfe, 0x00]),
            log: Some(Diagnostic::Opaque(3)),
        })
    );
    assert_eq!(s.phase(), Phase::Writing);
}

#[test]
fn payload_comes_back_in_chunks() {
    let mut payload: Vec<u8> = Vec::new();
    for i in 0..2500usize {
        payload.push((i % 251) as u8);
    }
    let mut s = server_session();
    let mut echoed: Vec<u8> = Vec::new();
    let mut sizes: Vec<usize> = Vec::new();
    for piece in payload.chunks(1024) {
        match s.step(Event::Received(piece.to_vec())).unwrap().action {
            Action::Write(bytes) => {
                sizes.push(bytes.len());
                echoed.extend_from_slice(&bytes);
            }
            other => panic!("expected a write, got {:?}", other),
        }
        assert_eq!(s.step(Event::Written), quiet(Action::Read { capacity: 1024 }));
    }
    assert_eq!(sizes, vec![1024, 1024, 452]);
    assert_eq!(echoed, payload);
}

#[test]
fn chunk_over_capacity_is_refused() {
    let mut s = server_session();
    assert_eq!(s.step(Event::Received(vec![1; 1025])), Err(StepError::Oversized));
    assert_eq!(s.phase(), Phase::Reading);
    let reply = s.step(Event::Received(vec![1; 1024])).unwrap();
    assert_eq!(reply.action, Action::Write(vec![1; 1024]));
}

#[test]
fn capacity_is_taken_from_the_settings() {
    let config = SessionConfig::immediate().with_capacity(4).unwrap();
    let mut s = Session::new(config, TrollHandler::silent());
    assert_eq!(s.step(Event::Opened), quiet(Action::Read { capacity: 4 }));
    assert_eq!(s.step(Event::Received(vec![1, 2, 3, 4, 5])), Err(StepError::Oversized));
    let reply = s.step(Event::Received(vec![1, 2, 3, 4])).unwrap();
    assert_eq!(reply.action, Action::Write(vec![1, 2, 3, 4]));
}

#[test]
fn wait_is_taken_from_the_settings() {
    let config = SessionConfig::immediate().with_delay_ms(25);
    let mut s = Session::new(config, TrollHandler::silent());
    assert_eq!(s.step(Event::Opened), quiet(Action::Read { capacity: 1024 }));
    let reply = s.step(Event::Received(b"x".to_vec())).unwrap();
    assert_eq!(reply.action, Action::Delay { millis: 25 });
    assert_eq!(s.step(Event::DelayElapsed), quiet(Action::Write(b"x".to_vec())));
}

#[test]
fn peer_close_ends_the_session_in_silence() {
    let mut s = server_session();
    assert_eq!(
        s.step(Event::Received(Vec::new())),
        quiet(Action::Close(CloseReason::PeerClosed))
    );
    assert!(s.is_closed());
    assert_eq!(s.phase(), Phase::Closed);
}

#[test]
fn peer_close_after_chunks_ends_the_session_in_silence() {
    let mut s = client_session();
    for _ in 0..3 {
        s.step(Event::Received(b"again".to_vec())).unwrap();
        assert_eq!(s.step(Event::DelayElapsed), quiet(Action::Write(b"again".to_vec())));
        s.step(Event::Written).unwrap();
    }
    assert_eq!(
        s.step(Event::Received(Vec::new())),
        quiet(Action::Close(CloseReason::PeerClosed))
    );
    assert!(s.is_closed());
}

#[test]
fn closed_session_refuses_everything() {
    let mut s = server_session();
    s.step(Event::Received(Vec::new())).unwrap();
    assert_eq!(s.step(Event::Opened), Err(StepError::Unexpected));
    assert_eq!(s.step(Event::Received(b"late".to_vec())), Err(StepError::Unexpected));
    assert_eq!(s.step(Event::Received(Vec::new())), Err(StepError::Unexpected));
    assert_eq!(s.step(Event::ReadFailed), Err(StepError::Unexpected));
    assert_eq!(s.step(Event::DelayElapsed), Err(StepError::Unexpected));
    assert_eq!(s.step(Event::Written), Err(StepError::Unexpected));
    assert_eq!(s.step(Event::WriteFailed), Err(StepError::Unexpected));
    assert!(s.is_closed());
}

#[test]
fn failed_read_is_logged_and_closes() {
    let mut s = server_session();
    assert_eq!(
        s.step(Event::ReadFailed),
        Ok(Reply {
            action: Action::Close(CloseReason::ReadFailed),
            log: Some(Diagnostic::ReadFailed),
        })
    );
    assert!(s.is_closed());
}

#[test]
fn failed_write_is_logged_and_closes() {
    let mut s = server_session();
    s.step(Event::Received(b"ping".to_vec())).unwrap();
    assert_eq!(
        s.step(Event::WriteFailed),
        Ok(Reply {
            action: Action::Close(CloseReason::WriteFailed),
            log: Some(Diagnostic::WriteFailed),
        })
    );
    assert!(s.is_closed());
}

#[test]
fn failed_write_after_the_wait_closes() {
    let mut s = client_session();
    s.step(Event::Received(b"ping".to_vec())).unwrap();
    s.step(Event::DelayElapsed).unwrap();
    assert_eq!(
        s.step(Event::WriteFailed),
        Ok(Reply {
            action: Action::Close(CloseReason::WriteFailed),
            log: Some(Diagnostic::WriteFailed),
        })
    );
    assert!(s.is_closed());
}

#[test]
fn events_out_of_turn_are_refused() {
    let mut s = Session::new(SessionConfig::delayed(), TrollHandler::silent());
    assert_eq!(s.step(Event::Received(b"early".to_vec())), Err(StepError::Unexpected));
    assert_eq!(s.step(Event::Written), Err(StepError::Unexpected));
    assert_eq!(s.phase(), Phase::Connected);
    s.step(Event::Opened).unwrap();
    assert_eq!(s.step(Event::Opened), Err(StepError::Unexpected));
    assert_eq!(s.step(Event::Written), Err(StepError::Unexpected));
    assert_eq!(s.step(Event::WriteFailed), Err(StepError::Unexpected));
    assert_eq!(s.step(Event::DelayElapsed), Err(StepError::Unexpected));
    assert_eq!(s.phase(), Phase::Reading);
    s.step(Event::Received(b"ping".to_vec())).unwrap();
    assert_eq!(s.step(Event::Received(b"pong".to_vec())), Err(StepError::Unexpected));
    assert_eq!(s.step(Event::ReadFailed), Err(StepError::Unexpected));
    assert_eq!(s.step(Event::Written), Err(StepError::Unexpected));
    assert_eq!(s.phase(), Phase::Delaying);
    assert_eq!(s.step(Event::DelayElapsed), quiet(Action::Write(b"ping".to_vec())));
    assert_eq!(s.step(Event::DelayElapsed), Err(StepError::Unexpected));
    assert_eq!(s.step(Event::Received(b"pong".to_vec())), Err(StepError::Unexpected));
    assert_eq!(s.phase(), Phase::Writing);
}

#[test]
fn refused_event_does_not_lose_the_pending_echo() {
    let mut s = client_session();
    s.step(Event::Received(b"keep".to_vec())).unwrap();
    assert_eq!(s.step(Event::Written), Err(StepError::Unexpected));
    assert_eq!(s.step(Event::DelayElapsed), quiet(Action::Write(b"keep".to_vec())));
}

#[test]
fn ping_scenario() {
    let mut server = server_session();
    let mut client = Session::new(SessionConfig::delayed(), TrollHandler::silent());
    assert_eq!(client.step(Event::Opened), quiet(Action::Read { capacity: 1024 }));

    let first = server.step(Event::Received(b"ping".to_vec())).unwrap();
    assert_eq!(first.action, Action::Write(b"ping".to_vec()));
    assert_eq!(first.action, Action::Write(vec![112, 105, 110, 103]));
    assert_eq!(server.step(Event::Written), quiet(Action::Read { capacity: 1024 }));

    let got = client.step(Event::Received(b"ping".to_vec())).unwrap();
    assert_eq!(got.action, Action::Delay { millis: 1000 });
    assert_eq!(client.step(Event::DelayElapsed), quiet(Action::Write(b"ping".to_vec())));
    assert_eq!(client.step(Event::Written), quiet(Action::Read { capacity: 1024 }));

    let second = server.step(Event::Received(b"ping".to_vec())).unwrap();
    assert_eq!(second.action, Action::Write(b"ping".to_vec()));
    assert_eq!(server.step(Event::Written), quiet(Action::Read { capacity: 1024 }));

    assert_eq!(
        server.step(Event::Received(Vec::new())),
        quiet(Action::Close(CloseReason::PeerClosed))
    );
    assert!(server.is_closed());
}

#[test]
fn broken_connection_leaves_the_others_alone() {
    let mut sessions: Vec<Session<TrollHandler>> = Vec::new();
    for _ in 0..4 {
        sessions.push(server_session());
    }
    sessions[2].step(Event::Received(b"doomed".to_vec())).unwrap();
    assert_eq!(
        sessions[2].step(Event::WriteFailed).unwrap().action,
        Action::Close(CloseReason::WriteFailed)
    );
    assert_eq!(
        sessions[1].step(Event::ReadFailed).unwrap().action,
        Action::Close(CloseReason::ReadFailed)
    );
    for k in [0usize, 3] {
        let chunk = vec![k as u8; 10];
        let reply = sessions[k].step(Event::Received(chunk.clone())).unwrap();
        assert_eq!(reply.action, Action::Write(chunk));
        assert_eq!(sessions[k].step(Event::Written), quiet(Action::Read { capacity: 1024 }));
        assert_eq!(sessions[k].phase(), Phase::Reading);
    }
    assert!(sessions[1].is_closed());
    assert!(sessions[2].is_closed());
}

#[test]
fn waiting_session_does_not_hold_up_another() {
    let mut waiting = client_session();
    let mut busy = server_session();
    let reply = waiting.step(Event::Received(b"slow".to_vec())).unwrap();
    assert_eq!(reply.action, Action::Delay { millis: 1000 });
    for round in 0..5u8 {
        let reply = busy.step(Event::Received(vec![round])).unwrap();
        assert_eq!(reply.action, Action::Write(vec![round]));
        busy.step(Event::Written).unwrap();
    }
    assert_eq!(waiting.phase(), Phase::Delaying);
    assert_eq!(waiting.step(Event::DelayElapsed), quiet(Action::Write(b"slow".to_vec())));
}
