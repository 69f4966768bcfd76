use std::io::Read;
use std::io::Write;
use std::sync::Arc;

use aquatic_http::config::create_tls_config;
use aquatic_http::config::read_items;
use aquatic_http::config::PemItem;
use aquatic_http::config::TlsConfig;
use aquatic_http::session::rejection_bytes;
use aquatic_http::session::Connection;
use aquatic_http::session::SessionError;
use aquatic_http::state::ConnectionState;
use aquatic_http::state::Next;
use aquatic_http::state::Outcome;
use aquatic_http_protocol::request::Request;

const ANNOUNCE: &[u8] = b"GET /announce?info_hash=aaaaaaaaaaaaaaaaaaaa&peer_id=bbbbbbbbbbbbbbbbbbbb&port=6881&left=0&compact=1 HTTP/1.1\r\nHost: localhost\r\n\r\n";

/// A server configuration with a fresh certificate for localhost, and a client
/// that trusts this certificate.
fn server_and_client() -> (TlsConfig, rustls::ClientConnection) {
    let generated = rcgen::generate_simple_self_signed(vec!["localhost".to_string()]).unwrap();
    let chain = generated.serialize_pem().unwrap();
    let key = generated.serialize_private_key_pem();
    let der = match read_items(chain.as_bytes()).unwrap().pop().unwrap() {
        PemItem::Certificate(der) => der,
        _ => panic!("the chain holds a certificate"),
    };
    let config = create_tls_config([chain, key].concat().as_bytes()).unwrap();

    let mut roots = rustls::RootCertStore::empty();
    roots.add(&rustls::Certificate(der)).unwrap();
    let client_config = rustls::ClientConfig::builder()
        .with_safe_defaults()
        .with_root_certificates(roots)
        .with_no_client_auth();
    let name = rustls::ServerName::try_from("localhost").unwrap();
    let client = rustls::ClientConnection::new(Arc::new(client_config), name).unwrap();
    (config, client)
}

/// All the TLS bytes that the client wants to send.
fn from_client(client: &mut rustls::ClientConnection) -> Vec<u8> {
    let mut sent = Vec::new();
    while client.wants_write() {
        client.write_tls(&mut sent).unwrap();
    }
    sent
}

/// Gives the client what the server wrote, and returns the plaintext that the
/// client got out of it.
fn to_client(client: &mut rustls::ClientConnection, mut bytes: &[u8]) -> Vec<u8> {
    let mut plaintext = Vec::new();
    while !bytes.is_empty() {
        client.read_tls(&mut bytes).unwrap();
        client.process_new_packets().unwrap();
        let _ = client.reader().read_to_end(&mut plaintext);
    }
    plaintext
}

/// A connection and a client that have completed the handshake with each
/// other.
fn established() -> (Connection, rustls::ClientConnection) {
    let (config, mut client) = server_and_client();
    let mut connection = Connection::new(&config).unwrap();
    assert_eq!(connection.state(), ConnectionState::Handshaking);
    let mut rounds = 0;
    while connection.state() != ConnectionState::Established {
        rounds += 1;
        assert!(rounds < 10, "the handshake does not end");
        let flight = from_client(&mut client);
        assert!(!flight.is_empty());
        let step = connection.on_read(&flight);
        let outbound = connection.take_outbound();
        assert!(matches!(step.outcome, Outcome::Progress { .. }));
        assert_eq!(step.next, Next::Read);
        assert!(step.request.is_none());
        to_client(&mut client, &outbound);
    }
    assert!(!client.is_handshaking());
    assert_eq!(connection.collected(), 0);
    assert!(!connection.has_submitted());
    (connection, client)
}

/// The TLS bytes of `plaintext` as one write of the client.
fn encrypted(client: &mut rustls::ClientConnection, plaintext: &[u8]) -> Vec<u8> {
    client.writer().write_all(plaintext).unwrap();
    from_client(client)
}

/// A TLS session opened with rustls itself, over a fresh certificate for
/// localhost, and a client that trusts this certificate.
fn raw_session_and_client() -> (rustls::ServerConnection, rustls::ClientConnection) {
    let generated = rcgen::generate_simple_self_signed(vec!["localhost".to_string()]).unwrap();
    let der = generated.serialize_der().unwrap();
    let key = rustls::PrivateKey(generated.serialize_private_key_der());
    let config = rustls::ServerConfig::builder()
        .with_safe_defaults()
        .with_no_client_auth()
        .with_single_cert(vec![rustls::Certificate(der.clone())], key)
        .unwrap();
    let session = rustls::ServerConnection::new(Arc::new(config)).unwrap();

    let mut roots = rustls::RootCertStore::empty();
    roots.add(&rustls::Certificate(der)).unwrap();
    let client_config = rustls::ClientConfig::builder()
        .with_safe_defaults()
        .with_root_certificates(roots)
        .with_no_client_auth();
    let name = rustls::ServerName::try_from("localhost").unwrap();
    let client = rustls::ClientConnection::new(Arc::new(client_config), name).unwrap();
    (session, client)
}

#[test]
fn a_connection_is_made_over_an_opened_session() {
    let (session, mut client) = raw_session_and_client();
    let mut connection = match Connection::from_session(Ok(session)) {
        Ok(connection) => connection,
        Err(_) => panic!("the session was opened"),
    };
    assert_eq!(connection.state(), ConnectionState::Handshaking);
    assert_eq!(connection.collected(), 0);
    assert!(!connection.has_submitted());
    assert!(connection.is_sound());

    let hello = from_client(&mut client);
    let step = connection.on_read(&hello);
    let outbound = connection.take_outbound();
    assert_eq!(step.outcome, Outcome::Progress { handshaking: true });
    to_client(&mut client, &outbound);
    assert!(!client.is_handshaking());
}

#[test]
fn a_connection_takes_the_session_with_what_it_holds() {
    let (mut session, mut client) = raw_session_and_client();
    let hello = from_client(&mut client);
    session.read_tls(&mut &hello[..]).unwrap();
    session.process_new_packets().unwrap();
    assert!(session.wants_write());

    let mut connection = match Connection::from_session(Ok(session)) {
        Ok(connection) => connection,
        Err(_) => panic!("the session was opened"),
    };
    assert_eq!(connection.state(), ConnectionState::Handshaking);
    let step = connection.on_read(&[22]);
    let outbound = connection.take_outbound();
    assert_eq!(step.outcome, Outcome::Progress { handshaking: true });
    assert!(!outbound.is_empty());
    to_client(&mut client, &outbound);
    assert!(!client.is_handshaking());
}

#[test]
fn no_connection_without_a_session() {
    let refused = Err(rustls::Error::General("no session".to_string()));
    assert!(matches!(Connection::from_session(refused), Err(SessionError::Refused)));
    let refused = Err(rustls::Error::HandshakeNotComplete);
    assert!(matches!(Connection::from_session(refused), Err(SessionError::Refused)));
}

#[test]
fn a_new_connection_has_nothing_to_send() {
    let (config, _client) = server_and_client();
    let mut connection = Connection::new(&config).unwrap();
    let step = connection.respond(b"nothing is awaited");
    let outbound = connection.take_outbound();
    assert!(outbound.is_empty());
    let step = connection.on_read(&[22]);
    let outbound = connection.take_outbound();
    assert_eq!(step.outcome, Outcome::Progress { handshaking: true });
    assert!(outbound.is_empty());
    assert_eq!(connection.collected(), 0);
}

#[test]
fn a_new_connection_is_handshaking() {
    let (config, _) = server_and_client();
    let connection = Connection::new(&config).unwrap();
    assert_eq!(connection.state(), ConnectionState::Handshaking);
    assert_eq!(connection.collected(), 0);
    assert!(!connection.has_submitted());
}

#[test]
fn the_handshake_leads_to_established() {
    let (config, mut client) = server_and_client();
    let mut connection = Connection::new(&config).unwrap();
    let hello = from_client(&mut client);
    let step = connection.on_read(&hello);
    let outbound = connection.take_outbound();
    assert_eq!(step.outcome, Outcome::Progress { handshaking: true });
    assert_eq!(connection.state(), ConnectionState::Handshaking);
    assert_eq!(step.next, Next::Read);
    assert!(!outbound.is_empty());
    to_client(&mut client, &outbound);
    let finished = from_client(&mut client);
    let step = connection.on_read(&finished);
    assert_eq!(step.outcome, Outcome::Progress { handshaking: false });
    assert_eq!(connection.state(), ConnectionState::Established);
    assert_eq!(step.next, Next::Read);
}

/// A connection that has collected the announce request and waits for more.
fn with_request() -> (Connection, rustls::ClientConnection) {
    let (mut connection, mut client) = established();
    let record = encrypted(&mut client, ANNOUNCE);
    let step = connection.on_read(&record);
    assert_eq!(step.outcome, Outcome::Progress { handshaking: false });
    (connection, client)
}

/// A connection that has handed the announce request on and awaits the
/// response.
fn awaiting_response() -> (Connection, rustls::ClientConnection) {
    let (mut connection, client) = with_request();
    let step = connection.on_read(&[]);
    assert_eq!(step.outcome, Outcome::Accepted);
    assert_eq!(connection.state(), ConnectionState::Closing);
    (connection, client)
}

fn is_the_announce(request: Option<Request>) -> bool {
    match request {
        Some(Request::Announce(announce)) => {
            announce.info_hash.0 == [b'a'; 20]
                && announce.peer_id.0 == [b'b'; 20]
                && announce.port == 6881
                && announce.bytes_left == 0
        }
        _ => false,
    }
}

#[test]
fn one_request_in_one_record_then_half_close() {
    let (mut connection, mut client) = established();

    let record = encrypted(&mut client, ANNOUNCE);
    let step = connection.on_read(&record);
    assert_eq!(step.outcome, Outcome::Progress { handshaking: false });
    assert!(!step.peer_closed);
    assert_eq!(step.next, Next::Read);
    assert!(step.request.is_none());
    assert_eq!(connection.state(), ConnectionState::Established);
    assert_eq!(connection.collected(), ANNOUNCE.len());
    assert!(!connection.has_submitted());

    let step = connection.on_read(&[]);
    assert_eq!(step.outcome, Outcome::Accepted);
    assert!(!step.peer_closed);
    assert_eq!(step.next, Next::Respond);
    assert_eq!(connection.state(), ConnectionState::Closing);
    assert!(connection.has_submitted());
    assert_eq!(connection.collected(), 0);
    assert!(is_the_announce(step.request));
}

#[test]
fn a_close_notify_behind_the_request_ends_it_at_once() {
    let (mut connection, mut client) = established();
    client.writer().write_all(ANNOUNCE).unwrap();
    client.send_close_notify();
    let records = from_client(&mut client);

    let step = connection.on_read(&records);
    assert_eq!(step.outcome, Outcome::Accepted);
    assert!(step.peer_closed);
    assert_eq!(step.next, Next::Respond);
    assert_eq!(connection.state(), ConnectionState::Closing);
    assert!(connection.has_submitted());
    assert!(is_the_announce(step.request));
}

#[test]
fn a_close_notify_in_a_read_of_its_own_ends_the_request() {
    let (mut connection, mut client) = with_request();
    client.send_close_notify();
    let alert = from_client(&mut client);
    let step = connection.on_read(&alert);
    assert_eq!(step.outcome, Outcome::Accepted);
    assert!(step.peer_closed);
    assert!(is_the_announce(step.request));
    assert_eq!(connection.state(), ConnectionState::Closing);
}

#[test]
fn a_request_right_behind_the_handshake_is_taken() {
    let (config, mut client) = server_and_client();
    let mut connection = Connection::new(&config).unwrap();
    let hello = from_client(&mut client);
    let step = connection.on_read(&hello);
    let outbound = connection.take_outbound();
    to_client(&mut client, &outbound);
    assert!(!client.is_handshaking());
    client.writer().write_all(ANNOUNCE).unwrap();
    client.send_close_notify();
    let rest = from_client(&mut client);

    assert_eq!(connection.state(), ConnectionState::Handshaking);
    let step = connection.on_read(&rest);
    assert_eq!(step.outcome, Outcome::Accepted);
    assert!(step.peer_closed);
    assert_eq!(connection.state(), ConnectionState::Closing);
    assert!(is_the_announce(step.request));
}

#[test]
fn the_request_is_not_handed_on_again() {
    let (mut connection, mut client) = awaiting_response();
    let record = encrypted(&mut client, ANNOUNCE);

    for _ in 0..3 {
        let step = connection.on_read(&[]);
        let outbound = connection.take_outbound();
        assert_eq!(step.outcome, Outcome::NotRun);
        assert!(step.request.is_none());
        assert!(outbound.is_empty());
        assert_eq!(step.next, Next::Respond);
        assert_eq!(connection.state(), ConnectionState::Closing);
        assert!(connection.has_submitted());
        assert_eq!(connection.collected(), 0);
    }
    let step = connection.on_read(&record);
    assert_eq!(step.outcome, Outcome::NotRun);
    assert!(step.request.is_none());
    assert_eq!(connection.collected(), 0);
}

#[test]
fn the_response_goes_back_through_the_session() {
    let (mut connection, mut client) = awaiting_response();

    let response = b"HTTP/1.1 200 OK\r\nContent-Length: 2\r\n\r\nde";
    let step = connection.respond(response);
    let outbound = connection.take_outbound();
    assert_eq!(step.outcome, Outcome::Responded { delivered: true });
    assert_eq!(step.next, Next::Close);
    assert!(step.request.is_none());
    assert_eq!(connection.state(), ConnectionState::Closed);
    assert_ne!(outbound, response.to_vec());
    assert_eq!(to_client(&mut client, &outbound), response.to_vec());

    let again = connection.respond(response);
    let outbound_again = connection.take_outbound();
    assert_eq!(again.outcome, Outcome::NotRun);
    assert!(outbound_again.is_empty());
    assert_eq!(again.next, Next::Close);
    assert_eq!(connection.state(), ConnectionState::Closed);
}

#[test]
fn the_response_is_followed_by_a_close_notify() {
    let (mut connection, mut client) = awaiting_response();
    let step = connection.respond(b"done");
    let outbound = connection.take_outbound();
    let mut bytes = &outbound[..];
    let mut closed = false;
    while !bytes.is_empty() {
        client.read_tls(&mut bytes).unwrap();
        closed = client.process_new_packets().unwrap().peer_has_closed();
    }
    assert!(closed);
}

#[test]
fn a_long_response_arrives_whole() {
    let (mut connection, mut client) = awaiting_response();

    let response: Vec<u8> = (0..300_000usize).map(|i| (i % 251) as u8).collect();
    let step = connection.respond(&response);
    let outbound = connection.take_outbound();
    assert_eq!(step.outcome, Outcome::Responded { delivered: true });
    assert_eq!(connection.state(), ConnectionState::Closed);
    assert_eq!(to_client(&mut client, &outbound), response);
}

#[test]
fn a_response_is_taken_only_while_one_is_awaited() {
    let (mut connection, _client) = established();
    let step = connection.respond(b"too early");
    let outbound = connection.take_outbound();
    assert_eq!(step.outcome, Outcome::NotRun);
    assert!(outbound.is_empty());
    assert_eq!(step.next, Next::Read);
    assert_eq!(connection.state(), ConnectionState::Established);
}

#[test]
fn a_request_in_two_records_is_collected_in_order() {
    let (mut connection, mut client) = established();
    let (front, back) = ANNOUNCE.split_at(40);

    let first = encrypted(&mut client, front);
    let step = connection.on_read(&first);
    assert_eq!(step.outcome, Outcome::Progress { handshaking: false });
    assert_eq!(connection.collected(), 40);

    let second = encrypted(&mut client, back);
    let step = connection.on_read(&second);
    assert_eq!(step.outcome, Outcome::Progress { handshaking: false });
    assert_eq!(connection.collected(), ANNOUNCE.len());

    let step = connection.on_read(&[]);
    assert_eq!(step.outcome, Outcome::Accepted);
    assert!(matches!(step.request, Some(Request::Announce(_))));
}

#[test]
fn a_record_that_comes_in_pieces_is_put_together() {
    let (mut connection, mut client) = established();
    let record = encrypted(&mut client, ANNOUNCE);
    for piece in record.chunks(7) {
        let step = connection.on_read(piece);
        assert_eq!(step.outcome, Outcome::Progress { handshaking: false });
        assert_eq!(step.next, Next::Read);
    }
    assert_eq!(connection.collected(), ANNOUNCE.len());
    let step = connection.on_read(&[]);
    assert_eq!(step.outcome, Outcome::Accepted);
    assert!(step.request.is_some());
}

#[test]
fn a_scrape_request_is_handed_on() {
    let (mut connection, mut client) = established();
    let record =
        encrypted(&mut client, b"GET /scrape?info_hash=cccccccccccccccccccc HTTP/1.1\r\n\r\n");
    connection.on_read(&record);
    let step = connection.on_read(&[]);
    assert_eq!(step.outcome, Outcome::Accepted);
    match step.request {
        Some(Request::Scrape(scrape)) => {
            assert_eq!(scrape.info_hashes.len(), 1);
            assert_eq!(scrape.info_hashes[0].0, [b'c'; 20]);
        }
        _ => panic!("the scrape request was handed on"),
    }
}

#[test]
fn a_request_that_the_parser_refuses_is_answered_and_closed() {
    let (mut connection, mut client) = established();
    let record = encrypted(&mut client, b"this is no request\r\n\r\n");
    connection.on_read(&record);

    let step = connection.on_read(&[]);
    let outbound = connection.take_outbound();
    assert_eq!(step.outcome, Outcome::Rejected { answered: true });
    assert_eq!(step.next, Next::Close);
    assert!(step.request.is_none());
    assert_eq!(connection.state(), ConnectionState::Closed);
    assert!(connection.has_submitted());
    assert_eq!(to_client(&mut client, &outbound), rejection_bytes().to_vec());

    let step = connection.on_read(&[]);
    let outbound = connection.take_outbound();
    assert_eq!(step.outcome, Outcome::NotRun);
    assert!(outbound.is_empty());
    assert_eq!(connection.state(), ConnectionState::Closed);
}

#[test]
fn an_incomplete_request_is_refused() {
    let (mut connection, mut client) = established();
    let record = encrypted(&mut client, b"GE");
    connection.on_read(&record);
    let step = connection.on_read(&[]);
    assert_eq!(step.outcome, Outcome::Rejected { answered: true });
    assert_eq!(connection.state(), ConnectionState::Closed);
}

#[test]
fn an_end_without_a_request_is_refused() {
    let (mut connection, _client) = established();
    let step = connection.on_read(&[]);
    assert_eq!(step.outcome, Outcome::Rejected { answered: true });
    assert_eq!(connection.state(), ConnectionState::Closed);
    assert!(connection.has_submitted());
}

#[test]
fn a_close_notify_without_a_request_is_refused() {
    let (mut connection, mut client) = established();
    client.send_close_notify();
    let alert = from_client(&mut client);
    let step = connection.on_read(&alert);
    assert_eq!(step.outcome, Outcome::Rejected { answered: true });
    assert!(step.peer_closed);
    assert_eq!(connection.state(), ConnectionState::Closed);
}

#[test]
fn the_rejection_is_a_bad_request_response() {
    assert_eq!(
        rejection_bytes(),
        b"HTTP/1.1 400 Bad Request\r\nContent-Length: 0\r\nConnection: close\r\n\r\n"
    );
}

#[test]
fn one_byte_of_garbage_after_the_handshake() {
    let (mut connection, _client) = established();

    let step = connection.on_read(&[0xff]);
    assert_eq!(step.outcome, Outcome::Progress { handshaking: false });
    assert!(step.request.is_none());
    assert!(!connection.has_submitted());
    assert_eq!(connection.collected(), 0);

    let step = connection.on_read(&[]);
    assert_eq!(step.outcome, Outcome::Truncated);
    assert_eq!(step.next, Next::Close);
    assert!(step.request.is_none());
    assert_eq!(connection.state(), ConnectionState::Failed);
    assert!(!connection.has_submitted());
}

#[test]
fn a_record_with_an_unknown_type_fails_the_connection() {
    let (mut connection, _client) = established();
    let step = connection.on_read(&[0xff, 0x03, 0x03, 0x00, 0x01, 0x00]);
    assert_eq!(step.outcome, Outcome::ProcessFailed);
    assert_eq!(step.next, Next::Close);
    assert!(step.request.is_none());
    assert_eq!(connection.state(), ConnectionState::Failed);
    assert!(!connection.has_submitted());
}

#[test]
fn a_record_that_does_not_decrypt_fails_the_connection() {
    let (mut connection, mut client) = established();
    let mut record = encrypted(&mut client, ANNOUNCE);
    let last = record.len() - 1;
    record[last] ^= 0x01;
    let step = connection.on_read(&record);
    let outbound = connection.take_outbound();
    assert_eq!(step.outcome, Outcome::ProcessFailed);
    assert_eq!(step.next, Next::Close);
    assert!(step.request.is_none());
    assert_eq!(connection.state(), ConnectionState::Failed);
    assert_eq!(connection.collected(), 0);
    assert!(!connection.has_submitted());
    assert!(!outbound.is_empty());
    assert!(connection.take_outbound().is_empty());
}

#[test]
fn a_failure_behind_a_good_record_keeps_the_request_from_the_parser() {
    let (mut connection, mut client) = established();
    let good = encrypted(&mut client, ANNOUNCE);
    let step = connection.on_read(&good);
    assert_eq!(step.outcome, Outcome::Progress { handshaking: false });
    assert_eq!(connection.collected(), ANNOUNCE.len());

    let mut bad = encrypted(&mut client, b"more");
    bad[6] ^= 0x80;
    let step = connection.on_read(&bad);
    assert_eq!(step.outcome, Outcome::ProcessFailed);
    assert_eq!(connection.state(), ConnectionState::Failed);
    assert!(!connection.has_submitted());
    assert!(step.request.is_none());

    let step = connection.on_read(&[]);
    assert_eq!(step.outcome, Outcome::NotRun);
    assert!(step.request.is_none());
    assert!(!connection.has_submitted());
}

#[test]
fn a_record_cut_short_keeps_the_request_from_the_parser() {
    let (mut connection, mut client) = established();
    let record = encrypted(&mut client, ANNOUNCE);
    let step = connection.on_read(&record[..record.len() - 3]);
    assert_eq!(step.outcome, Outcome::Progress { handshaking: false });
    assert_eq!(connection.collected(), 0);

    let step = connection.on_read(&[]);
    assert_eq!(step.outcome, Outcome::Truncated);
    assert_eq!(step.next, Next::Close);
    assert!(step.request.is_none());
    assert_eq!(connection.state(), ConnectionState::Failed);
    assert!(!connection.has_submitted());
}

#[test]
fn a_request_behind_which_a_record_is_cut_short_is_kept_from_the_parser() {
    let (mut connection, mut client) = with_request();
    let more = encrypted(&mut client, b"and more");
    let step = connection.on_read(&more[..more.len() / 2]);
    assert_eq!(step.outcome, Outcome::Progress { handshaking: false });
    assert_eq!(connection.collected(), ANNOUNCE.len());

    let step = connection.on_read(&[]);
    assert_eq!(step.outcome, Outcome::Truncated);
    assert_eq!(connection.state(), ConnectionState::Failed);
    assert!(step.request.is_none());
    assert!(!connection.has_submitted());
}

#[test]
fn part_of_a_record_behind_a_close_notify_is_a_stream_cut_short() {
    let (mut connection, mut client) = with_request();
    client.send_close_notify();
    let mut bytes = from_client(&mut client);
    bytes.extend_from_slice(&[23, 3, 3]);
    let step = connection.on_read(&bytes);
    assert_eq!(step.outcome, Outcome::Truncated);
    assert!(step.peer_closed);
    assert_eq!(connection.state(), ConnectionState::Failed);
    assert!(step.request.is_none());
    assert!(!connection.has_submitted());
}

#[test]
fn a_stream_that_ends_in_the_handshake_is_cut_short() {
    let (config, mut client) = server_and_client();
    let mut connection = Connection::new(&config).unwrap();
    let hello = from_client(&mut client);
    connection.on_read(&hello);
    let step = connection.on_read(&[]);
    assert_eq!(step.outcome, Outcome::Truncated);
    assert_eq!(step.next, Next::Close);
    assert_eq!(connection.state(), ConnectionState::Failed);
    assert!(step.request.is_none());
}

#[test]
fn a_stream_that_never_begins_is_cut_short() {
    let (config, _client) = server_and_client();
    let mut connection = Connection::new(&config).unwrap();
    let step = connection.on_read(&[]);
    assert_eq!(step.outcome, Outcome::Truncated);
    assert_eq!(connection.state(), ConnectionState::Failed);
}

#[test]
fn garbage_in_place_of_a_handshake_fails_the_connection() {
    let (config, _client) = server_and_client();
    let mut connection = Connection::new(&config).unwrap();
    let step = connection.on_read(b"GET / HTTP/1.1\r\n\r\n");
    assert_eq!(step.outcome, Outcome::ProcessFailed);
    assert_eq!(step.next, Next::Close);
    assert_eq!(connection.state(), ConnectionState::Failed);
    assert!(step.request.is_none());
}

#[test]
fn a_failed_read_gives_the_connection_up() {
    let (mut connection, mut client) = established();
    let record = encrypted(&mut client, ANNOUNCE);
    connection.on_read(&record);
    let step = connection.on_read_error();
    let outbound = connection.take_outbound();
    assert_eq!(step.outcome, Outcome::ReadFailed);
    assert_eq!(step.next, Next::Close);
    assert!(outbound.is_empty());
    assert!(step.request.is_none());
    assert_eq!(connection.state(), ConnectionState::Failed);
    assert_eq!(connection.collected(), ANNOUNCE.len());
    assert!(!connection.has_submitted());
}

#[test]
fn a_failed_read_in_the_handshake_gives_the_connection_up() {
    let (config, _client) = server_and_client();
    let mut connection = Connection::new(&config).unwrap();
    let step = connection.on_read_error();
    assert_eq!(step.outcome, Outcome::ReadFailed);
    assert_eq!(connection.state(), ConnectionState::Failed);
}

#[test]
fn a_failed_read_while_the_response_is_awaited_gives_the_connection_up() {
    let (mut connection, _client) = awaiting_response();
    let step = connection.on_read_error();
    assert_eq!(step.next, Next::Close);
    assert_eq!(connection.state(), ConnectionState::Failed);
    let step = connection.respond(b"late");
    let outbound = connection.take_outbound();
    assert_eq!(step.outcome, Outcome::NotRun);
    assert!(outbound.is_empty());
}

#[test]
fn a_terminal_state_stays_as_it_is() {
    let (mut connection, mut client) = established();
    connection.on_read(&[0xff, 0x03, 0x03, 0x00, 0x01, 0x00]);
    assert_eq!(connection.state(), ConnectionState::Failed);
    let record = encrypted(&mut client, ANNOUNCE);
    for bytes in [&record[..], &[][..]] {
        let step = connection.on_read(bytes);
        let outbound = connection.take_outbound();
        assert_eq!(step.outcome, Outcome::NotRun);
        assert_eq!(step.next, Next::Close);
        assert!(outbound.is_empty());
        assert!(step.request.is_none());
        assert_eq!(connection.state(), ConnectionState::Failed);
    }
    let step = connection.on_read_error();
    assert_eq!(step.next, Next::Close);
    assert_eq!(connection.state(), ConnectionState::Failed);
}

#[test]
fn connections_of_one_configuration_do_not_share_their_state() {
    let (config, mut client) = server_and_client();
    let mut first = Connection::new(&config).unwrap();
    let mut second = Connection::new(&config.clone()).unwrap();
    let hello = from_client(&mut client);
    first.on_read(&hello);
    second.on_read(&[0xff, 0x03, 0x03, 0x00, 0x01, 0x00]);
    assert_eq!(first.state(), ConnectionState::Handshaking);
    assert_eq!(second.state(), ConnectionState::Failed);
}

#[test]
fn nothing_for_the_peer_is_lost_between_two_takes() {
    let (config, mut client) = server_and_client();
    let mut connection = Connection::new(&config).unwrap();
    assert!(connection.take_outbound().is_empty());

    let hello = from_client(&mut client);
    let step = connection.on_read(&hello);
    assert!(step.handshaking);
    assert!(!step.peer_closed);
    // A second turn before the flight is taken leaves the flight where it is.
    let step = connection.on_read(&[22]);
    assert_eq!(step.outcome, Outcome::Progress { handshaking: true });
    let flight = connection.take_outbound();
    assert!(!flight.is_empty());
    assert!(connection.take_outbound().is_empty());
    to_client(&mut client, &flight);
    assert!(!client.is_handshaking());
}

#[test]
fn the_alert_of_a_failed_turn_waits_behind_what_waited_before() {
    let (config, mut client) = server_and_client();
    let mut connection = Connection::new(&config).unwrap();
    let hello = from_client(&mut client);
    connection.on_read(&hello);

    // The flight is not taken; the next turn fails on a record that does not
    // decrypt, and the alert is queued behind the flight.
    let mut alone = Connection::new(&config.clone()).unwrap();
    alone.on_read(&hello);
    let flight_len = alone.take_outbound().len();
    assert!(flight_len > 0);

    let step = connection.on_read(&[23, 3, 3, 0, 4, 1, 2, 3, 4]);
    assert_eq!(step.outcome, Outcome::ProcessFailed);
    assert_eq!(step.next, Next::Close);
    let all = connection.take_outbound();
    assert!(all.len() > flight_len);
    assert!(connection.take_outbound().is_empty());
}

#[test]
fn the_step_says_what_the_session_said_of_the_handshake() {
    let (config, mut client) = server_and_client();
    let mut connection = Connection::new(&config).unwrap();
    let hello = from_client(&mut client);
    let step = connection.on_read(&hello);
    assert!(step.handshaking);
    let flight = connection.take_outbound();
    to_client(&mut client, &flight);
    let finished = from_client(&mut client);
    let step = connection.on_read(&finished);
    assert!(!step.handshaking);
    let step = connection.on_read_error();
    assert!(!step.handshaking);
    assert!(!step.peer_closed);
}
