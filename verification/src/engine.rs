//! The TLS session as this library sees it.
//!
//! The configuration is a `rustls::ServerConfig`; of what it holds, the
//! certificate chain and the private key matter here, and whether sessions
//! can be opened with it.  The session is a `rustls::ServerConnection`.  Of what it holds, three
//! queues matter here: the ciphertext it has taken in and not yet cut into
//! records, the plaintext it has decrypted and not yet given out, and the TLS
//! bytes it wants written to the peer.  Nothing in this file is proved:
//! each function makes one call into rustls, and its contract is taken on
//! trust from what rustls does.

use std::io::Read;
use std::io::Write;
use std::sync::Arc;
use vstd::prelude::*;

verus! {

/// `rustls::ServerConnection`: the TLS session of one connection.  Nothing
/// of its inside is seen here.
#[verifier::external_type_specification]
#[verifier::external_body]
pub struct ExServerConnection(rustls::ServerConnection);

/// `rustls::ServerConfig`: the TLS configuration that sessions are opened
/// with.  Nothing of its inside is seen here.
#[verifier::external_type_specification]
#[verifier::external_body]
pub struct ExServerConfig(rustls::ServerConfig);

/// `rustls::Error`: why rustls refused something.  Only that it did is used.
#[verifier::external_type_specification]
#[verifier::external_body]
pub struct ExTlsError(rustls::Error);

/// `std::io::Error`: why a read or a write failed.  Only that it did is used.
#[verifier::external_type_specification]
#[verifier::external_body]
pub struct ExIoError(std::io::Error);

/// Whether rustls opens a session with `config`: it does unless the
/// configuration sets a limit on the size of fragments that is out of range.
pub uninterp spec fn opens(config: rustls::ServerConfig) -> bool;

/// The certificate chain that `config` answers a client with, as DER, in
/// order.
pub uninterp spec fn chain_of(config: rustls::ServerConfig) -> Seq<Seq<u8>>;

/// The DER of the private key that `config` was built with.
pub uninterp spec fn key_of(config: rustls::ServerConfig) -> Seq<u8>;

/// The ciphertext that the session has taken in and that still stands in its
/// buffer, not yet cut into records, oldest byte first.
pub uninterp spec fn unprocessed(session: rustls::ServerConnection) -> Seq<u8>;

/// The plaintext that the session has decrypted and not yet given out, oldest
/// byte first.
pub uninterp spec fn received_plaintext(session: rustls::ServerConnection) -> Seq<u8>;

/// The TLS bytes that the session has queued for the peer, oldest byte first.
pub uninterp spec fn pending_tls(session: rustls::ServerConnection) -> Seq<u8>;

/// `std::sync::Arc::clone`: another handle on the same configuration.
#[verifier::external_body]
pub(crate) fn share(config: &Arc<rustls::ServerConfig>) -> (shared: Arc<rustls::ServerConfig>)
    ensures
        *shared == **config,
{
    Arc::clone(config)
}

/// `rustls::ServerConnection::new` on a clone of the shared configuration.
/// It fails only on a fragment limit that is out of range, so it opens a
/// session wherever the configuration has none such.  A session that it opens
/// holds nothing yet: no ciphertext, no plaintext, no TLS bytes for the peer.
#[verifier::external_body]
pub(crate) fn open_session(config: &Arc<rustls::ServerConfig>) -> (r: Result<
    rustls::ServerConnection,
    rustls::Error,
>)
    ensures
        opens(**config) ==> r is Ok,
        r matches Ok(session) ==> {
            &&& unprocessed(session).len() == 0
            &&& received_plaintext(session).len() == 0
            &&& pending_tls(session).len() == 0
        },
{
    rustls::ServerConnection::new(config.clone())
}

/// `rustls::ServerConnection::read_tls`, reading from `ciphertext`.  The count
/// it returns is the number of bytes it took from the front of `ciphertext`,
/// so it is at most the length given; these bytes now stand at the end of its
/// buffer.  The TLS bytes queued for the peer are left alone.
#[verifier::external_body]
pub(crate) fn read_tls(session: &mut rustls::ServerConnection, ciphertext: &[u8]) -> (r: Result<
    usize,
    std::io::Error,
>)
    ensures
        r matches Ok(taken) ==> {
            &&& taken <= ciphertext@.len()
            &&& unprocessed(*final(session)) == unprocessed(*old(session)) + ciphertext@.take(
                taken as int,
            )
        },
        pending_tls(*final(session)) == pending_tls(*old(session)),
{
    let mut source: &[u8] = ciphertext;
    session.read_tls(&mut source)
}

/// `rustls::ServerConnection::process_new_packets`.  On success the answer is
/// `rustls::IoState::peer_has_closed` of the state that it returns: whether
/// the peer has sent its close-notify.  Nothing is claimed of the result:
/// whether the buffered records are in order is for rustls to say.  Of the
/// buffered ciphertext it takes records away from the front and nothing
/// else: what it leaves is the end of what was there.  What it has to say to
/// the peer, an alert too, it queues behind the TLS bytes that were queued.
#[verifier::external_body]
pub(crate) fn process_new_packets(session: &mut rustls::ServerConnection) -> (r: Result<
    bool,
    rustls::Error,
>)
    ensures
        unprocessed(*final(session)).is_suffix_of(unprocessed(*old(session))),
        pending_tls(*old(session)).is_prefix_of(pending_tls(*final(session))),
{
    session.process_new_packets().map(|state| state.peer_has_closed())
}

/// `rustls::ServerConnection::is_handshaking`.
#[verifier::external_body]
pub(crate) fn is_handshaking(session: &rustls::ServerConnection) -> (b: bool) {
    session.is_handshaking()
}

/// `rustls::ServerConnection::reader` and `std::io::Read::read_to_end` on it.
/// All the plaintext that the session held is appended to `into`, and none is
/// left in the session.  How the read ended is not looked at: it ends with an
/// error wherever the peer has not closed the session.  The buffered
/// ciphertext and the TLS bytes queued for the peer are left alone.
#[verifier::external_body]
pub(crate) fn read_plaintext(session: &mut rustls::ServerConnection, into: &mut Vec<u8>)
    ensures
        final(into)@ == old(into)@ + received_plaintext(*old(session)),
        received_plaintext(*final(session)).len() == 0,
        unprocessed(*final(session)) == unprocessed(*old(session)),
        pending_tls(*final(session)) == pending_tls(*old(session)),
{
    let _ = session.reader().read_to_end(into);
}

/// `rustls::ServerConnection::wants_write`: whether TLS bytes are queued.
#[verifier::external_body]
pub(crate) fn wants_write(session: &rustls::ServerConnection) -> (b: bool)
    ensures
        b == (pending_tls(*session).len() > 0),
{
    session.wants_write()
}

/// `rustls::ServerConnection::write_tls`, writing into a vector, which cannot
/// fail.  The bytes written are taken from the front of the queue and appended
/// to `into`; the count is how many, and it is not zero while bytes are
/// queued.  The buffered ciphertext and the decrypted plaintext are left
/// alone.
#[verifier::external_body]
pub(crate) fn write_tls(session: &mut rustls::ServerConnection, into: &mut Vec<u8>) -> (written:
    usize)
    ensures
        written <= pending_tls(*old(session)).len(),
        pending_tls(*old(session)).len() > 0 ==> written > 0,
        final(into)@ == old(into)@ + pending_tls(*old(session)).subrange(0, written as int),
        pending_tls(*final(session)) == pending_tls(*old(session)).subrange(
            written as int,
            pending_tls(*old(session)).len() as int,
        ),
        received_plaintext(*final(session)) == received_plaintext(*old(session)),
        unprocessed(*final(session)) == unprocessed(*old(session)),
{
    session.write_tls(into).unwrap_or(0)
}

/// `rustls::ServerConnection::writer` and `std::io::Write::write` on it.  The
/// count is how many bytes from the front of `plaintext` the session took,
/// at most the length given.  What comes of them for the peer is queued
/// behind the TLS bytes that were queued.  The buffered ciphertext and the
/// decrypted plaintext are left alone.
#[verifier::external_body]
pub(crate) fn write_plaintext(session: &mut rustls::ServerConnection, plaintext: &[u8]) -> (r:
    Result<usize, std::io::Error>)
    ensures
        r matches Ok(taken) ==> taken <= plaintext@.len(),
        pending_tls(*old(session)).is_prefix_of(pending_tls(*final(session))),
        received_plaintext(*final(session)) == received_plaintext(*old(session)),
        unprocessed(*final(session)) == unprocessed(*old(session)),
{
    session.writer().write(plaintext)
}

/// `rustls::ServerConnection::send_close_notify`.  The alert is queued behind
/// the TLS bytes that were queued.  The buffered ciphertext and the decrypted
/// plaintext are left alone.
#[verifier::external_body]
pub(crate) fn send_close_notify(session: &mut rustls::ServerConnection)
    ensures
        pending_tls(*old(session)).is_prefix_of(pending_tls(*final(session))),
        received_plaintext(*final(session)) == received_plaintext(*old(session)),
        unprocessed(*final(session)) == unprocessed(*old(session)),
{
    session.send_close_notify()
}

} // verus!
