//! The TLS session driver of one connection.
//!
//! The caller owns the socket.  It reads ciphertext and hands it to
//! [`Connection::on_read`]; a failed read goes to [`Connection::on_read_error`]
//! and a failed write to [`Connection::on_write_error`].  Each call answers
//! with a [`Step`] that says what to do next.  After every call the caller
//! writes to the socket what [`Connection::take_outbound`] hands out, and then
//! does what the step says.  Once a request has been handed out, the caller
//! has it handled and offers the response to [`Connection::respond`].

use crate::assembler::complete;
use crate::assembler::is_complete;
use crate::assembler::Assembler;
use crate::config::TlsConfig;
use crate::engine::is_handshaking;
use crate::engine::open_session;
use crate::engine::pending_tls;
use crate::engine::process_new_packets;
use crate::engine::read_plaintext;
use crate::engine::read_tls;
use crate::engine::received_plaintext;
use crate::engine::send_close_notify;
use crate::engine::unprocessed;
use crate::engine::wants_write;
use crate::engine::write_plaintext;
use crate::engine::write_tls;
use crate::framing::whole_records;
use crate::framing::Framer;
use crate::parser::parse_error;
use crate::parser::parse_request;
use crate::parser::ParseError;
use crate::state::ConnectionState;
use crate::state::Next;
use crate::state::Outcome;
use aquatic_http_protocol::request::Request;
use vstd::prelude::*;
use vstd::slice::slice_subrange;
use vstd::string::StringSliceAdditionalSpecFns;

verus! {

/// One accepted connection: its TLS session, its state, the plaintext
/// collected so far, and the TLS bytes that wait to be written to the socket.
/// A connection belongs to one task and is never shared.
pub struct Connection {
    session: rustls::ServerConnection,
    state: ConnectionState,
    framer: Framer,
    assembler: Assembler,
    outbox: Vec<u8>,
    replied: Ghost<Seq<u8>>,
}

/// A connection as a value.
pub struct ConnectionView {
    /// Where the connection stands.
    pub state: ConnectionState,
    /// The ciphertext that was read while ciphertext was wanted, in order.
    pub stream: Seq<u8>,
    /// The plaintext collected and not yet given to the parser.
    pub collected: Seq<u8>,
    /// The bytes that were given to the parser, or `None` as long as none were.
    pub submission: Option<Seq<u8>>,
    /// The ciphertext that the TLS session has taken in and still holds in
    /// its buffer, not yet cut into records.
    pub unread: Seq<u8>,
    /// The plaintext that the TLS session has decrypted and still holds.
    pub undrained: Seq<u8>,
    /// The TLS bytes that wait to be written to the socket, oldest first:
    /// what was taken from the session's queue and not yet handed out, and
    /// behind it what the session has queued.
    pub unsent: Seq<u8>,
    /// The plaintext that the session has taken for the peer, in order.
    pub replied: Seq<u8>,
}

impl ConnectionView {
    /// While ciphertext is wanted, nothing has been given to the parser.
    pub open spec fn wf(self) -> bool {
        self.state.is_reading() ==> self.submission is None
    }

    /// A connection as it begins, over a TLS session that holds nothing: in
    /// the handshake, with no ciphertext read, nothing collected, nothing
    /// given to the parser and nothing sent.
    pub open spec fn fresh() -> ConnectionView {
        ConnectionView {
            state: ConnectionState::Handshaking,
            stream: Seq::empty(),
            collected: Seq::empty(),
            submission: None,
            unread: Seq::empty(),
            undrained: Seq::empty(),
            unsent: Seq::empty(),
            replied: Seq::empty(),
        }
    }

    /// All the plaintext that the connection has collected: what was given to
    /// the parser, or what is held for it.
    pub open spec fn plaintext(self) -> Seq<u8> {
        match self.submission {
            Some(bytes) => bytes,
            None => self.collected,
        }
    }
}

/// The answer to one call into the driver.
pub struct Step {
    /// What the call found.
    pub outcome: Outcome,
    /// Whether the TLS session said, in this call, that the peer has sent its
    /// close-notify.
    pub peer_closed: bool,
    /// Whether the TLS session said, in this call, that the handshake is
    /// still under way.
    pub handshaking: bool,
    /// What to do next, once the bytes that wait for the socket are written.
    pub next: Next,
    /// The request to have handled, where the parser accepted one.
    pub request: Option<Request>,
}

/// The size of the buffer that the ciphertext of a connection is read into.
pub const SCRATCH_LEN: usize = 1024;

/// Why no connection was set up.
#[derive(Clone, Copy, Debug, PartialEq, Eq, Structural)]
pub enum SessionError {
    /// The TLS library refused to open a session.
    Refused,
}

/// What the TLS session made of the ciphertext of one turn.
#[derive(Clone, Copy, Debug, PartialEq, Eq, Structural)]
pub enum Fed {
    /// It refused the ciphertext, or took none of it.
    IngestFailed,
    /// It found a protocol error in the buffered records.
    ProcessFailed,
    /// It took all of it and found no fault, and its plaintext was drained.
    /// `peer_closed` says whether it has seen the peer's close-notify,
    /// `handshaking` whether the handshake is still under way.
    Done { peer_closed: bool, handshaking: bool },
}

/// What a turn comes to once the session has had the ciphertext.
pub enum Settled {
    /// The turn is over, with this outcome.
    Over(Outcome),
    /// The request is complete: these are its bytes, for the parser.
    Complete(Vec<u8>),
}

/// The peer has stopped sending where the TLS session has seen its
/// close-notify, or where a turn read no ciphertext and brought no plaintext.
pub open spec fn stream_ended(ciphertext: nat, brought: nat, peer_closed: bool) -> bool {
    peer_closed || complete(ciphertext, brought)
}

/// A stream that has ended was cut short where it does not end between two
/// records, or where the handshake is still under way.
pub open spec fn cut_short(was: ConnectionState, handshaking: bool, stream: Seq<u8>) -> bool {
    !whole_records(stream) || (was is Handshaking && handshaking)
}

/// The outcome that a turn settles on, by what the session made of the
/// ciphertext and by the number of plaintext bytes that it brought; `None`
/// where the request is complete and goes to the parser.
///
/// What the session refused or found at fault is a failure of that kind.
/// Else the turn goes on collecting while the peer has not stopped sending.
/// A stream that has ended is cut short where it does not end between two
/// records, or with the handshake still under way; else the request is
/// complete.
pub open spec fn settles_on(
    pre: ConnectionView,
    ciphertext: Seq<u8>,
    fed: Fed,
    brought: nat,
) -> Option<Outcome> {
    match fed {
        Fed::IngestFailed => Some(Outcome::IngestFailed),
        Fed::ProcessFailed => Some(Outcome::ProcessFailed),
        Fed::Done { peer_closed, handshaking } => if !stream_ended(
            ciphertext.len(),
            brought,
            peer_closed,
        ) {
            Some(Outcome::Progress { handshaking })
        } else if cut_short(pre.state, handshaking, pre.stream + ciphertext) {
            Some(Outcome::Truncated)
        } else {
            None
        },
    }
}

/// The connection after a turn has been settled.  The ciphertext has gone by.
/// Unless the session failed, the plaintext `fresh` has been collected behind
/// what was collected before.  Where the request is complete, all of that has
/// been given to the parser, and the connection awaits the parser's answer
/// and the response in `Closing`; else the state follows the outcome.
pub open spec fn settled_view(
    pre: ConnectionView,
    ciphertext: Seq<u8>,
    fed: Fed,
    fresh: Seq<u8>,
) -> ConnectionView {
    let on = settles_on(pre, ciphertext, fed, fresh.len());
    ConnectionView {
        state: match on {
            Some(outcome) => pre.state.after(outcome),
            None => ConnectionState::Closing,
        },
        stream: pre.stream + ciphertext,
        collected: if on is None {
            Seq::empty()
        } else if fed is Done {
            pre.collected + fresh
        } else {
            pre.collected
        },
        submission: if on is None {
            Some(pre.collected + fresh)
        } else {
            None
        },
        ..pre
    }
}

/// What a turn that ended the request found, by the parser's answer and by
/// the number of bytes of the rejection that the session took: a request
/// that the parser accepts is accepted; one that it refuses is rejected, and
/// answered where the session took the whole rejection.
pub open spec fn request_verdict(refused: Option<ParseError>, taken: nat) -> Outcome {
    match refused {
        None => Outcome::Accepted,
        Some(_) => Outcome::Rejected { answered: taken == rejection().len() },
    }
}

/// What became of a response, by the number of its bytes that the session
/// took: it is delivered where the session took all of it.
pub open spec fn response_verdict(taken: nat, response: Seq<u8>) -> Outcome {
    Outcome::Responded { delivered: taken == response.len() }
}

/// How a turn leaves the TLS session when the session has taken the
/// ciphertext and found no fault: all of `ciphertext` has gone into the
/// session, behind what it held, so that what it still holds in its buffer
/// is the end of that; and it holds no plaintext back.
pub open spec fn fed(pre: ConnectionView, ciphertext: Seq<u8>, post: ConnectionView) -> bool {
    &&& post.unread.is_suffix_of(pre.unread + ciphertext)
    &&& post.undrained.len() == 0
}

/// How a turn that did not end the request leaves the plaintext: what was
/// collected before is still there, in front of what the turn brought, and
/// nothing has been given to the parser.
pub open spec fn collecting(pre: ConnectionView, post: ConnectionView) -> bool {
    &&& pre.collected.is_prefix_of(post.collected)
    &&& post.submission is None
}

/// How a turn that ended the request leaves the plaintext: all that was
/// collected before, with what the turn brought behind it, has been given to
/// the parser, and nothing is held any more.
pub open spec fn submitting(pre: ConnectionView, post: ConnectionView) -> bool {
    &&& post.submission is Some
    &&& pre.collected.is_prefix_of(post.submission->0)
    &&& post.collected.len() == 0
}

/// How a call that offered `plaintext` to the TLS session leaves what the
/// session has taken for the peer: it has taken `plaintext` from the front,
/// as far as it would, behind what it had taken before; `all` says whether it
/// has taken all of it.
pub open spec fn offered(before: Seq<u8>, after: Seq<u8>, plaintext: Seq<u8>, all: bool) -> bool {
    &&& before.is_prefix_of(after)
    &&& after.skip(before.len() as int).is_prefix_of(plaintext)
    &&& all <==> after == before + plaintext
}

/// The number of plaintext bytes that a turn brought.
pub open spec fn brought(pre: ConnectionView, post: ConnectionView) -> nat {
    (post.plaintext().len() - pre.plaintext().len()) as nat
}

/// How one call of `on_read` relates the connection before it, the ciphertext
/// read, what the TLS session said of the peer's close-notify and of the
/// handshake, what the call found, and the connection after it.
///
/// Whether the session takes the ciphertext and finds it in order is for the
/// session to say, and so is whether the handshake is done.  Everything else
/// is fixed: unless the session refuses the ciphertext or finds a fault,
/// exactly the ciphertext read goes into it; a turn goes on collecting
/// exactly while the peer has not stopped sending; a stream that has ended is
/// cut short exactly where it does not end between two records, or the
/// handshake is still under way; a request is accepted exactly where the
/// parser accepts the collected bytes; and a request that the parser refuses
/// is answered with the rejection, and with nothing else.  Nothing that waits
/// to be written to the socket is taken away: what the turn has to say to the
/// peer stands behind it.
pub open spec fn read_turn(
    pre: ConnectionView,
    ciphertext: Seq<u8>,
    peer_closed: bool,
    handshaking: bool,
    outcome: Outcome,
    post: ConnectionView,
) -> bool {
    if !pre.state.is_reading() {
        outcome is NotRun && post == pre
    } else {
        &&& post.state == pre.state.after(outcome)
        &&& post.stream == pre.stream + ciphertext
        &&& pre.unsent.is_prefix_of(post.unsent)
        &&& match outcome {
            Outcome::IngestFailed => {
                &&& post.collected == pre.collected
                &&& post.submission is None
                &&& post.replied == pre.replied
            },
            Outcome::ProcessFailed => {
                &&& post.collected == pre.collected
                &&& post.submission is None
                &&& post.replied == pre.replied
            },
            Outcome::Progress { handshaking: still } => {
                &&& still == handshaking
                &&& fed(pre, ciphertext, post)
                &&& collecting(pre, post)
                &&& !stream_ended(ciphertext.len(), brought(pre, post), peer_closed)
                &&& post.replied == pre.replied
            },
            Outcome::Truncated => {
                &&& fed(pre, ciphertext, post)
                &&& collecting(pre, post)
                &&& stream_ended(ciphertext.len(), brought(pre, post), peer_closed)
                &&& cut_short(pre.state, handshaking, post.stream)
                &&& post.replied == pre.replied
            },
            Outcome::Accepted => {
                &&& fed(pre, ciphertext, post)
                &&& submitting(pre, post)
                &&& stream_ended(ciphertext.len(), brought(pre, post), peer_closed)
                &&& !cut_short(pre.state, handshaking, post.stream)
                &&& parse_error(post.plaintext()) is None
                &&& post.replied == pre.replied
            },
            Outcome::Rejected { answered } => {
                &&& fed(pre, ciphertext, post)
                &&& submitting(pre, post)
                &&& stream_ended(ciphertext.len(), brought(pre, post), peer_closed)
                &&& !cut_short(pre.state, handshaking, post.stream)
                &&& parse_error(post.plaintext()) is Some
                &&& offered(pre.replied, post.replied, rejection(), answered)
            },
            _ => false,
        }
    }
}

/// The response to a request that the parser refused.
pub open spec fn rejection() -> Seq<u8> {
    "HTTP/1.1 400 Bad Request\r\nContent-Length: 0\r\nConnection: close\r\n\r\n".spec_bytes()
}

/// The response to a request that the parser refused.
pub fn rejection_bytes() -> (bytes: &'static [u8])
    ensures
        bytes@ == rejection(),
{
    "HTTP/1.1 400 Bad Request\r\nContent-Length: 0\r\nConnection: close\r\n\r\n".as_bytes()
}

/// What a turn that ended the request found, by the parser's answer and by
/// the number of bytes of the rejection that the session took.
pub fn request_outcome(refused: Option<ParseError>, taken: usize) -> (outcome: Outcome)
    ensures
        outcome == request_verdict(refused, taken as nat),
{
    match refused {
        None => Outcome::Accepted,
        Some(_) => Outcome::Rejected { answered: taken == rejection_bytes().len() },
    }
}

/// What became of a response, by the number of its bytes that the session
/// took.
pub fn response_outcome(taken: usize, response: &[u8]) -> (outcome: Outcome)
    ensures
        outcome == response_verdict(taken as nat, response@),
{
    Outcome::Responded { delivered: taken == response.len() }
}

/// What stands at the front of a queue still does when bytes are put in
/// front of both.
proof fn lemma_prefix_behind(front: Seq<u8>, short: Seq<u8>, long: Seq<u8>)
    requires
        short.is_prefix_of(long),
    ensures
        (front + short).is_prefix_of(front + long),
{
    assert(front + short =~= (front + long).subrange(0, (front + short).len() as int));
}

/// The front of the front of a queue is a front of the queue.
proof fn lemma_prefix_of_prefix(first: Seq<u8>, second: Seq<u8>, third: Seq<u8>)
    requires
        first.is_prefix_of(second),
        second.is_prefix_of(third),
    ensures
        first.is_prefix_of(third),
{
    assert(first =~= third.subrange(0, first.len() as int));
}

/// What stands at the end of a buffer still does when bytes come in behind it.
proof fn lemma_suffix_grows(held: Seq<u8>, all: Seq<u8>, more: Seq<u8>)
    requires
        held.is_suffix_of(all),
    ensures
        (held + more).is_suffix_of(all + more),
{
    assert(held + more =~= (all + more).subrange(
        (all + more).len() - (held + more).len(),
        (all + more).len() as int,
    ));
}

/// The end of the end of a buffer is an end of the buffer.
proof fn lemma_suffix_of_suffix(left: Seq<u8>, held: Seq<u8>, all: Seq<u8>)
    requires
        left.is_suffix_of(held),
        held.is_suffix_of(all),
    ensures
        left.is_suffix_of(all),
{
    assert(left =~= all.subrange(all.len() - left.len(), all.len() as int));
}

/// Moves all the TLS bytes that the session has queued to the end of `outbox`.
fn flush(session: &mut rustls::ServerConnection, outbox: &mut Vec<u8>)
    ensures
        pending_tls(*final(session)).len() == 0,
        final(outbox)@ == old(outbox)@ + pending_tls(*old(session)),
        received_plaintext(*final(session)) == received_plaintext(*old(session)),
        unprocessed(*final(session)) == unprocessed(*old(session)),
{
    while wants_write(session)
        invariant
            outbox@ + pending_tls(*session) == old(outbox)@ + pending_tls(*old(session)),
            received_plaintext(*session) == received_plaintext(*old(session)),
            unprocessed(*session) == unprocessed(*old(session)),
        decreases pending_tls(*session).len(),
    {
        let ghost queued = pending_tls(*session);
        let ghost out = outbox@;
        let written = write_tls(session, outbox);
        assert(out + queued =~= (out + queued.subrange(0, written as int)) + queued.subrange(
            written as int,
            queued.len() as int,
        ));
    }
    assert(outbox@ + pending_tls(*session) =~= outbox@);
}

/// Hands `plaintext` to the session for sending.  Where the session takes no
/// more, its queue is moved to `outbox` and it is offered the rest once
/// again.  The answer is the number of bytes, from the front of `plaintext`,
/// that the session has taken.  Nothing that waited to be written is lost:
/// what the session queues for the peer stands behind it.
fn push_plaintext(
    session: &mut rustls::ServerConnection,
    plaintext: &[u8],
    outbox: &mut Vec<u8>,
) -> (sent: usize)
    ensures
        sent <= plaintext@.len(),
        (old(outbox)@ + pending_tls(*old(session))).is_prefix_of(
            final(outbox)@ + pending_tls(*final(session)),
        ),
        received_plaintext(*final(session)) == received_plaintext(*old(session)),
        unprocessed(*final(session)) == unprocessed(*old(session)),
        plaintext@.len() == 0 ==> *final(session) == *old(session) && final(outbox)@ == old(
            outbox,
        )@,
{
    let ghost waiting = outbox@ + pending_tls(*session);
    let mut offset: usize = 0;
    assert(waiting.is_prefix_of(waiting));
    while offset < plaintext.len()
        invariant
            offset <= plaintext@.len(),
            waiting == old(outbox)@ + pending_tls(*old(session)),
            waiting.is_prefix_of(outbox@ + pending_tls(*session)),
            received_plaintext(*session) == received_plaintext(*old(session)),
            unprocessed(*session) == unprocessed(*old(session)),
            plaintext@.len() == 0 ==> *session == *old(session) && outbox@ == old(outbox)@,
        decreases plaintext@.len() - offset,
    {
        let rest = slice_subrange(plaintext, offset, plaintext.len());
        let ghost before = outbox@ + pending_tls(*session);
        let ghost queued = pending_tls(*session);
        let mut taken: usize = match write_plaintext(session, rest) {
            Ok(taken) => taken,
            Err(_) => 0,
        };
        proof {
            lemma_prefix_behind(outbox@, queued, pending_tls(*session));
            lemma_prefix_of_prefix(waiting, before, outbox@ + pending_tls(*session));
        }
        if taken == 0 {
            let ghost held = outbox@ + pending_tls(*session);
            flush(session, outbox);
            assert(outbox@ + pending_tls(*session) =~= held);
            let ghost moved = outbox@ + pending_tls(*session);
            let ghost empty = pending_tls(*session);
            taken =
            match write_plaintext(session, rest) {
                Ok(taken) => taken,
                Err(_) => 0,
            };
            proof {
                lemma_prefix_behind(outbox@, empty, pending_tls(*session));
                lemma_prefix_of_prefix(waiting, moved, outbox@ + pending_tls(*session));
            }
            if taken == 0 {
                return offset;
            }
        }
        offset = offset + taken;
    }
    offset
}

/// One round of the session: take ciphertext in, process it, drain the
/// plaintext to the end of `fresh`.  The answer is how many bytes were taken
/// and whether the session has seen the peer's close-notify.  The bytes taken
/// are the front of `ciphertext`; they have gone into the session behind what
/// it held, and the session has taken records away from the front of that.
/// What the session has to say to the peer is queued behind what was queued.
fn feed_once(session: &mut rustls::ServerConnection, ciphertext: &[u8], fresh: &mut Vec<u8>) -> (r:
    Result<(usize, bool), Fed>)
    ensures
        old(fresh)@.is_prefix_of(final(fresh)@),
        pending_tls(*old(session)).is_prefix_of(pending_tls(*final(session))),
        match r {
            Ok((taken, _)) => {
                &&& taken <= ciphertext@.len()
                &&& unprocessed(*final(session)).is_suffix_of(
                    unprocessed(*old(session)) + ciphertext@.take(taken as int),
                )
                &&& received_plaintext(*final(session)).len() == 0
            },
            Err(fed) => !(fed is Done),
        },
{
    let ghost queued = pending_tls(*session);
    match read_tls(session, ciphertext) {
        Err(_) => {
            assert(queued.is_prefix_of(queued));
            Err(Fed::IngestFailed)
        },
        Ok(taken) => match process_new_packets(session) {
            Err(_) => Err(Fed::ProcessFailed),
            Ok(peer_closed) => {
                read_plaintext(session, fresh);
                Ok((taken, peer_closed))
            },
        },
    }
}

/// Feeds exactly `ciphertext` to the session, round by round, and collects
/// the plaintext that comes of it in `fresh`.  An empty `ciphertext` tells the
/// session that the peer has stopped sending.
///
/// Whether the session takes the bytes and finds them in order is for the
/// session to say.  Where it does, all of `ciphertext` has gone into it, in
/// order and behind what it held, so that what still stands in its buffer is
/// the end of that; all the plaintext has been drained from it; and the
/// answer holds what the session says of the peer's close-notify and of the
/// handshake.  A session that takes none of the bytes offered has failed to
/// take them in.  Whatever the session has to say to the peer, an alert too,
/// is queued behind what was queued.
fn feed(session: &mut rustls::ServerConnection, ciphertext: &[u8], fresh: &mut Vec<u8>) -> (fed:
    Fed)
    ensures
        old(fresh)@.is_prefix_of(final(fresh)@),
        pending_tls(*old(session)).is_prefix_of(pending_tls(*final(session))),
        fed is Done ==> {
            &&& unprocessed(*final(session)).is_suffix_of(
                unprocessed(*old(session)) + ciphertext@,
            )
            &&& received_plaintext(*final(session)).len() == 0
        },
{
    let ghost held = unprocessed(*session);
    let ghost queued = pending_tls(*session);
    let (mut offset, mut peer_closed) = match feed_once(session, ciphertext, fresh) {
        Ok(round) => round,
        Err(fed) => {
            return fed;
        },
    };
    if offset == 0 && ciphertext.len() > 0 {
        return Fed::IngestFailed;
    }
    while offset < ciphertext.len()
        invariant
            offset <= ciphertext@.len(),
            old(fresh)@.is_prefix_of(fresh@),
            queued == pending_tls(*old(session)),
            queued.is_prefix_of(pending_tls(*session)),
            unprocessed(*session).is_suffix_of(held + ciphertext@.take(offset as int)),
            received_plaintext(*session).len() == 0,
        decreases ciphertext@.len() - offset,
    {
        let ghost before = unprocessed(*session);
        let ghost waiting = pending_tls(*session);
        let rest = slice_subrange(ciphertext, offset, ciphertext.len());
        let round = feed_once(session, rest, fresh);
        proof {
            lemma_prefix_of_prefix(queued, waiting, pending_tls(*session));
        }
        let (taken, closed_now) = match round {
            Ok(round) => round,
            Err(fed) => {
                return fed;
            },
        };
        if taken == 0 {
            return Fed::IngestFailed;
        }
        proof {
            let gone = held + ciphertext@.take(offset as int);
            let more = rest@.take(taken as int);
            assert(gone + more =~= held + ciphertext@.take(offset + taken));
            lemma_suffix_grows(before, gone, more);
            lemma_suffix_of_suffix(unprocessed(*session), before + more, gone + more);
        }
        offset = offset + taken;
        peer_closed = closed_now;
    }
    assert(ciphertext@.take(offset as int) =~= ciphertext@);
    Fed::Done { peer_closed, handshaking: is_handshaking(session) }
}

impl View for Connection {
    type V = ConnectionView;

    closed spec fn view(&self) -> ConnectionView {
        ConnectionView {
            state: self.state,
            stream: self.framer.stream(),
            collected: self.assembler.bytes(),
            submission: self.assembler.submission(),
            unread: unprocessed(self.session),
            undrained: received_plaintext(self.session),
            unsent: self.outbox@ + pending_tls(self.session),
            replied: self.replied@,
        }
    }
}

impl Connection {
    /// Whether `connection` is a connection as it begins over `session`: in
    /// the handshake, with no ciphertext read, nothing collected, nothing given
    /// to the parser and nothing sent, and with what `session` holds.
    pub open spec fn begins(connection: ConnectionView, session: rustls::ServerConnection) -> bool {
        connection == (ConnectionView {
            unread: unprocessed(session),
            undrained: received_plaintext(session),
            unsent: pending_tls(session),
            ..ConnectionView::fresh()
        })
    }

    /// Makes the connection of a newly accepted socket out of what came of
    /// opening its TLS session: over a session that was opened, a connection
    /// that begins; without one, none.
    pub fn from_session(opened: Result<rustls::ServerConnection, rustls::Error>) -> (r: Result<
        Connection,
        SessionError,
    >)
        ensures
            match opened {
                Ok(session) => r is Ok && Connection::begins(r->Ok_0@, session),
                Err(_) => r == Err::<Connection, SessionError>(SessionError::Refused),
            },
    {
        match opened {
            Ok(session) => {
                let framer = Framer::new();
                let assembler = Assembler::new();
                let outbox: Vec<u8> = Vec::new();
                assert(outbox@ + pending_tls(session) =~= pending_tls(session));
                Ok(
                    Connection {
                        session,
                        state: ConnectionState::Handshaking,
                        framer,
                        assembler,
                        outbox,
                        replied: Ghost(Seq::empty()),
                    },
                )
            },
            Err(_) => Err(SessionError::Refused),
        }
    }

    /// Sets up the connection for a newly accepted socket: it opens a TLS
    /// session with the worker's configuration and makes the connection over
    /// it.  With a configuration of this library a session is always opened.
    /// The connection begins in the handshake; nothing has been read,
    /// collected, given to the parser or sent, and its session holds nothing.
    pub fn new(config: &TlsConfig) -> (r: Result<Connection, SessionError>)
        ensures
            r is Ok,
            r->Ok_0@ == ConnectionView::fresh(),
    {
        let opened = open_session(config.shared());
        proof {
            assert(unprocessed(opened->Ok_0) =~= Seq::<u8>::empty());
            assert(received_plaintext(opened->Ok_0) =~= Seq::<u8>::empty());
            assert(pending_tls(opened->Ok_0) =~= Seq::<u8>::empty());
        }
        Connection::from_session(opened)
    }

    /// Where the connection stands.
    pub fn state(&self) -> (state: ConnectionState)
        ensures
            state == self@.state,
    {
        self.state
    }

    /// The number of plaintext bytes collected and not yet given to the parser.
    pub fn collected(&self) -> (n: usize)
        ensures
            n == self@.collected.len(),
    {
        self.assembler.len()
    }

    /// Whether the connection is as every connection is that this library has
    /// made and worked on: while it wants ciphertext, nothing has been given to
    /// the parser.
    pub fn is_sound(&self) -> (b: bool)
        ensures
            b == self@.wf(),
    {
        !self.state.reading() || !self.assembler.is_submitted()
    }

    /// Whether the collected bytes have been given to the parser.
    pub fn has_submitted(&self) -> (b: bool)
        ensures
            b == self@.submission is Some,
    {
        self.assembler.is_submitted()
    }

    /// Hands out the TLS bytes that wait to be written to the socket: all of
    /// them, oldest first, and nothing else.  None are left waiting.
    pub fn take_outbound(&mut self) -> (bytes: Vec<u8>)
        ensures
            bytes@ == old(self)@.unsent,
            final(self)@ == (ConnectionView { unsent: Seq::empty(), ..old(self)@ }),
    {
        flush(&mut self.session, &mut self.outbox);
        let mut bytes: Vec<u8> = Vec::new();
        std::mem::swap(&mut self.outbox, &mut bytes);
        assert(self.outbox@ + pending_tls(self.session) =~= Seq::<u8>::empty());
        bytes
    }

    /// Settles a turn once the TLS session has had the ciphertext: `fed` is
    /// what the session made of `ciphertext`, and `fresh` the plaintext that
    /// was drained from it.
    ///
    /// The ciphertext goes by.  Where the session failed, the turn is over
    /// with that failure.  Else the plaintext is collected.  While the peer
    /// has not stopped sending, the turn is over and the connection goes on.
    /// A stream that has ended inside a record, or with the handshake still
    /// under way, was cut short.  Else the request is complete: all that was
    /// collected is given out for the parser, and the connection awaits what
    /// comes of it.
    pub fn settle(&mut self, ciphertext: &[u8], fed: Fed, fresh: &[u8]) -> (settled: Settled)
        requires
            old(self)@.wf(),
            old(self)@.state.is_reading(),
        ensures
            final(self)@ == settled_view(old(self)@, ciphertext@, fed, fresh@),
            final(self)@.wf(),
            match settles_on(old(self)@, ciphertext@, fed, fresh@.len()) {
                Some(outcome) => settled == Settled::Over(outcome),
                None => settled is Complete && settled->Complete_0@ == old(self)@.collected
                    + fresh@,
            },
    {
        self.framer.push(ciphertext);
        match fed {
            Fed::IngestFailed => {
                self.state = self.state.advance(Outcome::IngestFailed);
                Settled::Over(Outcome::IngestFailed)
            },
            Fed::ProcessFailed => {
                self.state = self.state.advance(Outcome::ProcessFailed);
                Settled::Over(Outcome::ProcessFailed)
            },
            Fed::Done { peer_closed, handshaking } => {
                self.assembler.accumulate(fresh);
                let still = match self.state {
                    ConnectionState::Handshaking => handshaking,
                    _ => false,
                };
                if !(peer_closed || is_complete(ciphertext.len(), fresh.len())) {
                    let outcome = Outcome::Progress { handshaking };
                    self.state = self.state.advance(outcome);
                    Settled::Over(outcome)
                } else if still || !self.framer.at_boundary() {
                    self.state = self.state.advance(Outcome::Truncated);
                    Settled::Over(Outcome::Truncated)
                } else {
                    match self.assembler.submit() {
                        Some(bytes) => {
                            self.state = ConnectionState::Closing;
                            Settled::Complete(bytes)
                        },
                        None => Settled::Over(Outcome::Truncated),
                    }
                }
            },
        }
    }

    /// Offers `plaintext` to the TLS session for the peer and has the session
    /// queue its close-notify behind it.  The answer is the number of bytes,
    /// from the front of `plaintext`, that the session has taken.
    fn reply(&mut self, plaintext: &[u8]) -> (taken: usize)
        ensures
            taken <= plaintext@.len(),
            final(self)@ == (ConnectionView {
                unsent: final(self)@.unsent,
                replied: old(self)@.replied + plaintext@.take(taken as int),
                ..old(self)@
            }),
            old(self)@.unsent.is_prefix_of(final(self)@.unsent),
    {
        let ghost waiting = self.outbox@ + pending_tls(self.session);
        let taken = push_plaintext(&mut self.session, plaintext, &mut self.outbox);
        let ghost pushed = self.outbox@ + pending_tls(self.session);
        let ghost queued = pending_tls(self.session);
        send_close_notify(&mut self.session);
        proof {
            lemma_prefix_behind(self.outbox@, queued, pending_tls(self.session));
            lemma_prefix_of_prefix(waiting, pushed, self.outbox@ + pending_tls(self.session));
        }
        self.replied = Ghost(self.replied@ + plaintext@.take(taken as int));
        taken
    }

    /// One turn of the driver, on the ciphertext of one socket read.  An empty
    /// `ciphertext` says that the read returned no bytes: the peer has stopped
    /// sending.
    ///
    /// The ciphertext goes into the TLS session, the session processes it, and
    /// the plaintext that comes of it is collected.  The request is complete
    /// when the peer has stopped sending: when the turn read nothing and
    /// brought nothing, or when the session has seen the peer's close-notify.
    /// Then the collected bytes go to the parser, once, unless the stream ended
    /// inside a record or before the handshake was done: such a stream was cut
    /// short, and nothing of it goes to the parser.  A request that the parser
    /// refuses is answered with the rejection.  Whatever the session wants
    /// written to the peer waits to be handed out.
    pub fn on_read(&mut self, ciphertext: &[u8]) -> (step: Step)
        requires
            old(self)@.wf(),
        ensures
            final(self)@.wf(),
            read_turn(
                old(self)@,
                ciphertext@,
                step.peer_closed,
                step.handshaking,
                step.outcome,
                final(self)@,
            ),
            step.next == final(self)@.state.next(),
            step.request is Some <==> step.outcome is Accepted,
            !old(self)@.state.is_reading() ==> !step.peer_closed && !step.handshaking,
    {
        let before = self.state;
        if !before.reading() {
            return Step {
                outcome: Outcome::NotRun,
                peer_closed: false,
                handshaking: false,
                next: before.directive(),
                request: None,
            };
        }
        let ghost waiting = self@.unsent;
        let ghost queued = pending_tls(self.session);
        let mut fresh: Vec<u8> = Vec::new();
        let fed = feed(&mut self.session, ciphertext, &mut fresh);
        proof {
            lemma_prefix_behind(self.outbox@, queued, pending_tls(self.session));
        }
        let ghost collected = self@.collected;
        let settled = self.settle(ciphertext, fed, fresh.as_slice());
        let (peer_closed, handshaking) = match fed {
            Fed::Done { peer_closed, handshaking } => (peer_closed, handshaking),
            _ => (false, false),
        };
        let mut request: Option<Request> = None;
        let outcome = match settled {
            Settled::Over(outcome) => {
                assert(collected.is_prefix_of(collected + fresh@));
                outcome
            },
            Settled::Complete(bytes) => {
                assert(collected.is_prefix_of(collected + fresh@));
                match parse_request(bytes.as_slice()) {
                    Ok(parsed) => {
                        request = Some(parsed);
                        request_outcome(None, 0)
                    },
                    Err(refusal) => {
                        let ghost settled_unsent = self@.unsent;
                        let ghost taken_before = self.replied@;
                        let taken = self.reply(rejection_bytes());
                        let outcome = request_outcome(Some(refusal), taken);
                        self.state = before.advance(outcome);
                        proof {
                            lemma_prefix_of_prefix(waiting, settled_unsent, self@.unsent);
                            let took = rejection().take(taken as int);
                            assert((taken_before + took).skip(taken_before.len() as int)
                                =~= took);
                            if taken == rejection().len() {
                                assert(took =~= rejection());
                            } else {
                                assert((taken_before + took).len() != (taken_before
                                    + rejection()).len());
                            }
                        }
                        outcome
                    },
                }
            },
        };
        Step { outcome, peer_closed, handshaking, next: self.state.directive(), request }
    }

    /// The socket read failed, or gave nothing in the time that the caller
    /// allows.  The connection is given up at once, and nothing more is
    /// queued for the peer.
    pub fn on_read_error(&mut self) -> (step: Step)
        requires
            old(self)@.wf(),
        ensures
            final(self)@.wf(),
            step.outcome is ReadFailed,
            final(self)@ == (ConnectionView {
                state: old(self)@.state.after(Outcome::ReadFailed),
                ..old(self)@
            }),
            final(self)@.state.is_terminal(),
            step.next is Close,
            step.request is None,
            !step.peer_closed,
            !step.handshaking,
    {
        self.state = self.state.advance(Outcome::ReadFailed);
        Step {
            outcome: Outcome::ReadFailed,
            peer_closed: false,
            handshaking: false,
            next: self.state.directive(),
            request: None,
        }
    }

    /// A write to the socket failed.  The connection is given up at once, and
    /// nothing more is queued for the peer.
    pub fn on_write_error(&mut self) -> (step: Step)
        requires
            old(self)@.wf(),
        ensures
            final(self)@.wf(),
            step.outcome is WriteFailed,
            final(self)@ == (ConnectionView {
                state: old(self)@.state.after(Outcome::WriteFailed),
                ..old(self)@
            }),
            final(self)@.state.is_terminal(),
            step.next is Close,
            step.request is None,
            !step.peer_closed,
            !step.handshaking,
    {
        self.state = self.state.advance(Outcome::WriteFailed);
        Step {
            outcome: Outcome::WriteFailed,
            peer_closed: false,
            handshaking: false,
            next: self.state.directive(),
            request: None,
        }
    }

    /// Offers the response to the request that was handed out.  It goes
    /// through the TLS session, followed by the close-notify; what comes of
    /// it for the peer waits to be handed out, behind what waited before.  The
    /// response is delivered where the session has taken all of it.  While no
    /// response is awaited, nothing is done.
    pub fn respond(&mut self, response: &[u8]) -> (step: Step)
        requires
            old(self)@.wf(),
        ensures
            final(self)@.wf(),
            final(self)@.state == old(self)@.state.after(step.outcome),
            final(self)@.stream == old(self)@.stream,
            final(self)@.collected == old(self)@.collected,
            final(self)@.submission == old(self)@.submission,
            final(self)@.unread == old(self)@.unread,
            final(self)@.undrained == old(self)@.undrained,
            old(self)@.unsent.is_prefix_of(final(self)@.unsent),
            step.next == final(self)@.state.next(),
            step.request is None,
            !step.peer_closed,
            !step.handshaking,
            old(self)@.state is Closing ==> {
                &&& step.outcome is Responded
                &&& offered(
                    old(self)@.replied,
                    final(self)@.replied,
                    response@,
                    step.outcome->delivered,
                )
                &&& final(self)@.state.is_terminal()
            },
            !(old(self)@.state is Closing) ==> {
                &&& step.outcome is NotRun
                &&& final(self)@ == old(self)@
            },
    {
        let awaited = match self.state {
            ConnectionState::Closing => true,
            _ => false,
        };
        if !awaited {
            assert(self@.unsent.is_prefix_of(self@.unsent));
            return Step {
                outcome: Outcome::NotRun,
                peer_closed: false,
                handshaking: false,
                next: self.state.directive(),
                request: None,
            };
        }
        let ghost taken_before = self.replied@;
        let taken = self.reply(response);
        let outcome = response_outcome(taken, response);
        self.state = self.state.advance(outcome);
        proof {
            let took = response@.take(taken as int);
            assert((taken_before + took).skip(taken_before.len() as int) =~= took);
            if taken == response@.len() {
                assert(took =~= response@);
            } else {
                assert((taken_before + took).len() != (taken_before + response@).len());
            }
        }
        Step {
            outcome,
            peer_closed: false,
            handshaking: false,
            next: self.state.directive(),
            request: None,
        }
    }
}

} // verus!
