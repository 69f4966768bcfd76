//! What holds of every connection and of every configuration, proved from the
//! definitions that the contracts of this library use.

use crate::config::certificates_of;
use crate::config::config_error;
use crate::config::keys_of;
use crate::config::sections;
use crate::config::usable_key;
use crate::config::ConfigError;
use crate::config::PemSection;
use crate::framing::whole_records;
use crate::parser::well_formed;
use crate::session::brought;
use crate::session::read_turn;
use crate::session::settled_view;
use crate::session::settles_on;
use crate::session::Fed;
use crate::session::rejection;
use crate::session::stream_ended;
use crate::session::ConnectionView;
use crate::state::ConnectionState;
use crate::state::Outcome;
use vstd::prelude::*;

verus! {

/// The state of a connection that starts in `state` after a run of calls
/// into the driver that found `outcomes`, in order.
pub open spec fn run(state: ConnectionState, outcomes: Seq<Outcome>) -> ConnectionState
    decreases outcomes.len(),
{
    if outcomes.len() == 0 {
        state
    } else {
        run(state, outcomes.drop_last()).after(outcomes.last())
    }
}

/// Nothing leads out of a terminal state, and no state leads back to an
/// earlier one.
pub proof fn lemma_states_only_advance(state: ConnectionState, outcome: Outcome)
    ensures
        state.is_terminal() ==> state.after(outcome) == state,
        state.after(outcome).rank() >= state.rank(),
{
}

/// A connection reaches one terminal state and no other: once a run of calls
/// has brought a connection to a terminal state, this is its state after
/// every longer run.
pub proof fn lemma_terminal_state_is_final(
    state: ConnectionState,
    outcomes: Seq<Outcome>,
    reached: int,
)
    requires
        0 <= reached <= outcomes.len(),
        run(state, outcomes.take(reached)).is_terminal(),
    ensures
        run(state, outcomes) == run(state, outcomes.take(reached)),
    decreases outcomes.len() - reached,
{
    if reached == outcomes.len() {
        assert(outcomes.take(reached) =~= outcomes);
    } else {
        let longer = outcomes.take(reached + 1);
        assert(longer.drop_last() =~= outcomes.take(reached));
        assert(run(state, longer) == run(state, outcomes.take(reached)));
        lemma_terminal_state_is_final(state, outcomes, reached + 1);
    }
}

/// The caller is told to close exactly in the terminal states, to read
/// exactly while ciphertext is wanted, and to respond exactly while a
/// response is awaited: no state leaves a task with nothing to do.
pub proof fn lemma_every_state_has_its_directive(state: ConnectionState)
    ensures
        state.next() is Close <==> state.is_terminal(),
        state.next() is Read <==> state.is_reading(),
        state.next() is Respond <==> state is Closing,
{
}

/// Whatever becomes of a response, offering it ends the connection: from
/// `Closing` the outcome of a response leads to a terminal state.
pub proof fn lemma_response_ends_the_connection(delivered: bool)
    ensures
        ConnectionState::Closing.after(Outcome::Responded { delivered }).is_terminal(),
{
}

/// When the peer has stopped sending, the reading ends: a turn in which the
/// session has seen the peer's close-notify, or which read nothing and
/// brought nothing, leaves the connection in a state that asks for no other
/// read.  No task spins on a stream that has ended.
pub proof fn lemma_ended_stream_ends_reading(
    pre: ConnectionView,
    ciphertext: Seq<u8>,
    peer_closed: bool,
    handshaking: bool,
    outcome: Outcome,
    post: ConnectionView,
)
    requires
        pre.wf(),
        pre.state.is_reading(),
        read_turn(pre, ciphertext, peer_closed, handshaking, outcome, post),
        stream_ended(ciphertext.len(), brought(pre, post), peer_closed),
    ensures
        !post.state.is_reading(),
        post.state.next() !is Read,
{
}

/// What a turn of the driver finds is what the turn settles on, by what the
/// TLS session said and by the plaintext that the turn brought: unless the
/// session failed, the outcome is the one that the turn settles on, and where
/// the request is complete it is accepted exactly where the parser accepts
/// the bytes that it was given.
pub proof fn lemma_turn_settles(
    pre: ConnectionView,
    ciphertext: Seq<u8>,
    peer_closed: bool,
    handshaking: bool,
    outcome: Outcome,
    post: ConnectionView,
)
    requires
        pre.wf(),
        pre.state.is_reading(),
        read_turn(pre, ciphertext, peer_closed, handshaking, outcome, post),
        !(outcome is IngestFailed),
        !(outcome is ProcessFailed),
    ensures
        match settles_on(
            pre,
            ciphertext,
            Fed::Done { peer_closed, handshaking },
            brought(pre, post),
        ) {
            Some(settled) => outcome == settled,
            None => outcome is Accepted || outcome is Rejected,
        },
        outcome is Accepted <==> post.submission is Some && well_formed(post.plaintext()),
{
}

/// Settling a turn gives the parser all the plaintext of the connection or
/// none of it: where the request is complete, what was collected before and
/// what the turn brought, in this order; else nothing, and what the turn
/// brought is collected behind what was collected before unless the session
/// failed.
pub proof fn lemma_settling_collects_or_submits(
    pre: ConnectionView,
    ciphertext: Seq<u8>,
    fed: Fed,
    fresh: Seq<u8>,
)
    requires
        pre.wf(),
        pre.state.is_reading(),
    ensures
        settled_view(pre, ciphertext, fed, fresh).wf(),
        settles_on(pre, ciphertext, fed, fresh.len()) is None ==> settled_view(
            pre,
            ciphertext,
            fed,
            fresh,
        ).submission == Some(pre.collected + fresh),
        settles_on(pre, ciphertext, fed, fresh.len()) is Some ==> settled_view(
            pre,
            ciphertext,
            fed,
            fresh,
        ).submission is None,
        fed is Done ==> settled_view(pre, ciphertext, fed, fresh).plaintext() == pre.collected
            + fresh,
        !(fed is Done) ==> settled_view(pre, ciphertext, fed, fresh).state is Failed,
{
}

/// A request that arrives in whole records, followed by a read that yields no
/// ciphertext and no plaintext, reaches the parser byte for byte: unless the
/// TLS session finds a fault, the parser is given the request, neither cut
/// nor doubled, and the request is handed on exactly where the parser
/// accepts it.
pub proof fn lemma_request_is_delivered_whole(
    start: ConnectionView,
    request: Seq<u8>,
    records: Seq<u8>,
    first: Outcome,
    mid: ConnectionView,
    peer_closed: bool,
    handshaking: bool,
    second: Outcome,
    end: ConnectionView,
)
    requires
        start.wf(),
        start.state is Established,
        start.collected.len() == 0,
        read_turn(start, records, false, false, first, mid),
        first is Progress,
        mid.collected == request,
        whole_records(mid.stream),
        read_turn(mid, Seq::<u8>::empty(), peer_closed, handshaking, second, end),
        end.plaintext() == mid.plaintext(),
        !(second is IngestFailed),
        !(second is ProcessFailed),
    ensures
        second is Accepted || second is Rejected,
        end.submission == Some(request),
        second is Accepted <==> well_formed(request),
        well_formed(request) ==> end.state is Closing && end.state.next() is Respond,
{
    assert(mid.stream + Seq::<u8>::empty() =~= mid.stream);
}

/// A connection whose ciphertext the TLS session refuses, or whose stream is
/// cut short, is given up before anything reaches the parser.
pub proof fn lemma_cut_short_reaches_no_parser(
    pre: ConnectionView,
    ciphertext: Seq<u8>,
    peer_closed: bool,
    handshaking: bool,
    outcome: Outcome,
    post: ConnectionView,
)
    requires
        pre.wf(),
        pre.state.is_reading(),
        read_turn(pre, ciphertext, peer_closed, handshaking, outcome, post),
        outcome is IngestFailed || outcome is ProcessFailed || outcome is Truncated,
    ensures
        post.state is Failed,
        post.submission is None,
        post.state.next() is Close,
{
}

/// Nothing of a stream that stands inside a record reaches the parser: as
/// long as the ciphertext read so far is no run of whole records, no turn
/// gives anything to the parser, and a turn in which such a stream ends gives
/// the connection up.
pub proof fn lemma_part_of_a_record_reaches_no_parser(
    pre: ConnectionView,
    ciphertext: Seq<u8>,
    peer_closed: bool,
    handshaking: bool,
    outcome: Outcome,
    post: ConnectionView,
)
    requires
        pre.wf(),
        pre.state.is_reading(),
        read_turn(pre, ciphertext, peer_closed, handshaking, outcome, post),
        !whole_records(pre.stream + ciphertext),
    ensures
        post.submission is None,
        stream_ended(ciphertext.len(), brought(pre, post), peer_closed) ==> post.state is Failed,
{
}

/// The parser is given the bytes of a connection exactly when a turn ends in
/// `Accepted` or `Rejected`, and then it is given all the plaintext of the
/// connection, what was collected before in front.
pub proof fn lemma_submission_comes_with_a_verdict(
    pre: ConnectionView,
    ciphertext: Seq<u8>,
    peer_closed: bool,
    handshaking: bool,
    outcome: Outcome,
    post: ConnectionView,
)
    requires
        pre.wf(),
        pre.state.is_reading(),
        read_turn(pre, ciphertext, peer_closed, handshaking, outcome, post),
    ensures
        post.submission is Some <==> outcome is Accepted || outcome is Rejected,
        post.submission is Some ==> pre.collected.is_prefix_of(post.submission->0),
        outcome is Accepted <==> post.submission is Some && well_formed(post.submission->0),
{
}

/// Once the bytes of a connection have been given to the parser, further
/// turns do nothing: they find `NotRun`, give nothing to the parser again, and
/// leave the connection as it is.
pub proof fn lemma_nothing_is_submitted_twice(
    pre: ConnectionView,
    ciphertext: Seq<u8>,
    peer_closed: bool,
    handshaking: bool,
    outcome: Outcome,
    post: ConnectionView,
)
    requires
        pre.wf(),
        pre.submission is Some,
        read_turn(pre, ciphertext, peer_closed, handshaking, outcome, post),
    ensures
        outcome is NotRun,
        post == pre,
{
}

/// A request that the parser refuses is answered before the connection
/// ends: where the TLS session takes the whole rejection, the peer is sent
/// the rejection and nothing else, and the connection is closed in good
/// order; where it does not, the connection has failed.
pub proof fn lemma_refused_request_is_answered(
    pre: ConnectionView,
    ciphertext: Seq<u8>,
    peer_closed: bool,
    handshaking: bool,
    answered: bool,
    post: ConnectionView,
)
    requires
        pre.wf(),
        pre.state.is_reading(),
        read_turn(pre, ciphertext, peer_closed, handshaking, Outcome::Rejected { answered }, post),
    ensures
        answered ==> post.state is Closed && post.replied == pre.replied + rejection(),
        !answered ==> post.state is Failed,
        post.state.next() is Close,
{
}

/// With at least one certificate and exactly one private key, which the TLS
/// library can use, a configuration is built.
pub proof fn lemma_one_usable_key_suffices(pem: Seq<u8>, found: Seq<PemSection>)
    requires
        sections(pem) == Some(found),
        certificates_of(found).len() >= 1,
        keys_of(found).len() == 1,
    ensures
        usable_key(keys_of(found)[0]) ==> config_error(pem) is None,
{
}

/// Without a certificate, or without a private key, no configuration is
/// built, and the error says which of the two is missing; with neither, it is
/// the certificate.
pub proof fn lemma_missing_material_fails(pem: Seq<u8>, found: Seq<PemSection>)
    requires
        sections(pem) == Some(found),
    ensures
        certificates_of(found).len() == 0 ==> config_error(pem) == Some(
            ConfigError::NoCertificate,
        ),
        certificates_of(found).len() > 0 && keys_of(found).len() == 0 ==> config_error(pem)
            == Some(ConfigError::NoPrivateKey),
{
}

} // verus!
