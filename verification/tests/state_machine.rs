use aquatic_http::assembler::is_complete;
use aquatic_http::assembler::Assembler;
use aquatic_http::state::ConnectionState;
use aquatic_http::state::Next;
use aquatic_http::state::Outcome;

fn every_outcome() -> Vec<Outcome> {
    vec![
        Outcome::NotRun,
        Outcome::ReadFailed,
        Outcome::WriteFailed,
        Outcome::IngestFailed,
        Outcome::ProcessFailed,
        Outcome::Truncated,
        Outcome::Progress { handshaking: true },
        Outcome::Progress { handshaking: false },
        Outcome::Accepted,
        Outcome::Rejected { answered: true },
        Outcome::Rejected { answered: false },
        Outcome::Responded { delivered: true },
        Outcome::Responded { delivered: false },
    ]
}

fn every_state() -> Vec<ConnectionState> {
    vec![
        ConnectionState::Handshaking,
        ConnectionState::Established,
        ConnectionState::Closing,
        ConnectionState::Closed,
        ConnectionState::Failed,
    ]
}

fn rank(state: ConnectionState) -> u8 {
    match state {
        ConnectionState::Handshaking => 0,
        ConnectionState::Established => 1,
        ConnectionState::Closing => 2,
        ConnectionState::Closed => 3,
        ConnectionState::Failed => 3,
    }
}

#[test]
fn terminal_states_are_closed_and_failed() {
    assert!(!ConnectionState::Handshaking.terminal());
    assert!(!ConnectionState::Established.terminal());
    assert!(!ConnectionState::Closing.terminal());
    assert!(ConnectionState::Closed.terminal());
    assert!(ConnectionState::Failed.terminal());
}

#[test]
fn reading_states_are_handshaking_and_established() {
    assert!(ConnectionState::Handshaking.reading());
    assert!(ConnectionState::Established.reading());
    assert!(!ConnectionState::Closing.reading());
    assert!(!ConnectionState::Closed.reading());
    assert!(!ConnectionState::Failed.reading());
}

#[test]
fn nothing_leads_out_of_a_terminal_state() {
    for outcome in every_outcome() {
        assert_eq!(ConnectionState::Closed.advance(outcome), ConnectionState::Closed);
        assert_eq!(ConnectionState::Failed.advance(outcome), ConnectionState::Failed);
    }
}

#[test]
fn no_state_leads_back() {
    for state in every_state() {
        for outcome in every_outcome() {
            assert!(rank(state.advance(outcome)) >= rank(state));
        }
    }
}

#[test]
fn a_run_that_reached_a_terminal_state_stays_there() {
    let mut state = ConnectionState::Handshaking;
    let run = vec![
        Outcome::Progress { handshaking: true },
        Outcome::Progress { handshaking: false },
        Outcome::ProcessFailed,
        Outcome::Progress { handshaking: false },
        Outcome::Accepted,
        Outcome::Responded { delivered: true },
    ];
    let mut seen = Vec::new();
    for outcome in run {
        state = state.advance(outcome);
        seen.push(state);
    }
    assert_eq!(
        seen,
        vec![
            ConnectionState::Handshaking,
            ConnectionState::Established,
            ConnectionState::Failed,
            ConnectionState::Failed,
            ConnectionState::Failed,
            ConnectionState::Failed,
        ]
    );
}

#[test]
fn handshake_goes_on_until_the_session_says_it_is_done() {
    let state = ConnectionState::Handshaking;
    assert_eq!(state.advance(Outcome::Progress { handshaking: true }), ConnectionState::Handshaking);
    assert_eq!(state.advance(Outcome::Progress { handshaking: false }), ConnectionState::Established);
}

#[test]
fn an_established_connection_does_not_go_back_to_the_handshake() {
    let state = ConnectionState::Established;
    assert_eq!(state.advance(Outcome::Progress { handshaking: true }), ConnectionState::Established);
    assert_eq!(state.advance(Outcome::Progress { handshaking: false }), ConnectionState::Established);
}

#[test]
fn failures_lead_to_failed_while_reading() {
    for state in [ConnectionState::Handshaking, ConnectionState::Established] {
        assert_eq!(state.advance(Outcome::ReadFailed), ConnectionState::Failed);
        assert_eq!(state.advance(Outcome::WriteFailed), ConnectionState::Failed);
        assert_eq!(state.advance(Outcome::IngestFailed), ConnectionState::Failed);
        assert_eq!(state.advance(Outcome::ProcessFailed), ConnectionState::Failed);
        assert_eq!(state.advance(Outcome::Truncated), ConnectionState::Failed);
    }
}

#[test]
fn a_verdict_of_the_parser_ends_the_reading() {
    for state in [ConnectionState::Handshaking, ConnectionState::Established] {
        assert_eq!(state.advance(Outcome::Accepted), ConnectionState::Closing);
        assert_eq!(state.advance(Outcome::Rejected { answered: true }), ConnectionState::Closed);
        assert_eq!(state.advance(Outcome::Rejected { answered: false }), ConnectionState::Failed);
    }
}

#[test]
fn a_response_ends_a_closing_connection() {
    let state = ConnectionState::Closing;
    assert_eq!(state.advance(Outcome::Responded { delivered: true }), ConnectionState::Closed);
    assert_eq!(state.advance(Outcome::Responded { delivered: false }), ConnectionState::Failed);
    assert_eq!(state.advance(Outcome::ReadFailed), ConnectionState::Failed);
    assert_eq!(state.advance(Outcome::WriteFailed), ConnectionState::Failed);
}

#[test]
fn a_closing_connection_ignores_what_a_turn_found() {
    let state = ConnectionState::Closing;
    for outcome in [
        Outcome::NotRun,
        Outcome::IngestFailed,
        Outcome::ProcessFailed,
        Outcome::Truncated,
        Outcome::Progress { handshaking: false },
        Outcome::Accepted,
        Outcome::Rejected { answered: true },
    ] {
        assert_eq!(state.advance(outcome), ConnectionState::Closing);
    }
}

#[test]
fn a_response_means_nothing_while_reading() {
    for state in [ConnectionState::Handshaking, ConnectionState::Established] {
        assert_eq!(state.advance(Outcome::Responded { delivered: true }), state);
        assert_eq!(state.advance(Outcome::Responded { delivered: false }), state);
        assert_eq!(state.advance(Outcome::NotRun), state);
    }
}

#[test]
fn every_state_has_its_directive() {
    assert_eq!(ConnectionState::Handshaking.directive(), Next::Read);
    assert_eq!(ConnectionState::Established.directive(), Next::Read);
    assert_eq!(ConnectionState::Closing.directive(), Next::Respond);
    assert_eq!(ConnectionState::Closed.directive(), Next::Close);
    assert_eq!(ConnectionState::Failed.directive(), Next::Close);
}

#[test]
fn a_request_is_complete_when_nothing_was_read_and_nothing_came() {
    assert!(is_complete(0, 0));
    assert!(!is_complete(1, 0));
    assert!(!is_complete(0, 1));
    assert!(!is_complete(1024, 97));
}

#[test]
fn a_new_assembler_holds_nothing() {
    let assembler = Assembler::new();
    assert_eq!(assembler.len(), 0);
    assert!(!assembler.is_submitted());
}

#[test]
fn the_assembler_keeps_the_order_of_the_bytes() {
    let mut assembler = Assembler::new();
    assembler.accumulate(b"GET /ann");
    assembler.accumulate(b"");
    assembler.accumulate(b"ounce");
    assert_eq!(assembler.len(), 13);
    assert_eq!(assembler.submit(), Some(b"GET /announce".to_vec()));
}

#[test]
fn the_assembler_gives_its_bytes_out_once() {
    let mut assembler = Assembler::new();
    assembler.accumulate(b"request");
    assert_eq!(assembler.submit(), Some(b"request".to_vec()));
    assert!(assembler.is_submitted());
    assert_eq!(assembler.len(), 0);
    assert_eq!(assembler.submit(), None);
    assert_eq!(assembler.submit(), None);
}

#[test]
fn the_assembler_takes_nothing_in_after_it_gave_out() {
    let mut assembler = Assembler::new();
    assembler.accumulate(b"first");
    assert_eq!(assembler.submit(), Some(b"first".to_vec()));
    assembler.accumulate(b"second");
    assert_eq!(assembler.len(), 0);
    assert_eq!(assembler.submit(), None);
}

#[test]
fn an_empty_assembler_gives_out_no_bytes_but_once() {
    let mut assembler = Assembler::new();
    assert_eq!(assembler.submit(), Some(Vec::new()));
    assert_eq!(assembler.submit(), None);
}
