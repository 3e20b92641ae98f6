//! One connection: read a chunk, take it as one request, answer it with
//! exactly one reply, and read again, until the peer closes or the transport
//! fails.
//!
//! The driver reads, parses, calls the monitor and writes. [`Session::step`]
//! takes what came of each and decides what the driver does next.

use vstd::prelude::*;
use vstd::utf8::{decode_utf8, valid_utf8};
use crate::codec::{
    decode_standard, encodable, encode_standard, encoded_len, lossy_text, standard_decoding,
    standard_encoding, text_of_chunk, DecodeFailure,
};
use crate::monitor::{outcome_model, BridgeError, Outcome, OutcomeModel};
use crate::wire::{
    invalid_json, invalid_nonce, invalid_report_data, monitor_unavailable, unavailable_status,
    AttestationRequest, AttestationRequestModel, Reply, ReplyModel,
};

verus! {

/// The most bytes that one read takes in: a request is one chunk of at most
/// this length.
pub const CHUNK_CAPACITY: usize = 8192;

/// What a parser made of a chunk: the request, or why the chunk is none.
pub type Parsed = Result<AttestationRequest, String>;

/// A [`Parsed`] as mathematical values.
pub type ParsedModel = Result<AttestationRequestModel, Seq<char>>;

/// The mathematical value of a parse result.
pub open spec fn parsed_model(parsed: Parsed) -> ParsedModel {
    match parsed {
        Ok(request) => Ok(request@),
        Err(detail) => Err(detail@),
    }
}

/// What follows from a parse result: a reply at once, or a call to the monitor.
#[derive(Debug, PartialEq, Eq)]
pub enum Prepared {
    /// The request is answered without the monitor.
    Respond(Reply),
    /// The monitor is asked to bind these bytes.
    Fetch { user_data: Vec<u8>, nonce: Vec<u8> },
}

/// A [`Prepared`] as mathematical values.
pub enum PreparedModel {
    Respond(ReplyModel),
    Fetch { user_data: Seq<u8>, nonce: Seq<u8> },
}

impl View for Prepared {
    type V = PreparedModel;

    open spec fn view(&self) -> PreparedModel {
        match *self {
            Prepared::Respond(reply) => PreparedModel::Respond(reply@),
            Prepared::Fetch { user_data, nonce } => PreparedModel::Fetch {
                user_data: user_data@,
                nonce: nonce@,
            },
        }
    }
}

/// What follows from a parse result. A chunk that is no request is rejected.
/// The user data is decoded first; if that fails the nonce is not looked at.
/// Only a request with two decodable fields reaches the monitor.
pub open spec fn prepared(parsed: ParsedModel) -> PreparedModel {
    match parsed {
        Err(detail) => PreparedModel::Respond(ReplyModel::rejection(invalid_json(), detail)),
        Ok(request) => match standard_decoding(request.user_data) {
            Err(failure) => PreparedModel::Respond(
                ReplyModel::rejection(invalid_report_data(), failure.text()),
            ),
            Ok(user_data) => match standard_decoding(request.nonce) {
                Err(failure) => PreparedModel::Respond(
                    ReplyModel::rejection(invalid_nonce(), failure.text()),
                ),
                Ok(nonce) => PreparedModel::Fetch { user_data, nonce },
            },
        },
    }
}

/// The reply to a request that reached the monitor.
pub open spec fn fetched_reply(outcome: OutcomeModel) -> ReplyModel {
    match outcome {
        Ok(document) => ReplyModel::Attestation { document: standard_encoding(document) },
        Err(error) => ReplyModel::unavailable(error.text()),
    }
}

/// Validates a parse result and decodes the two fields of a request.
pub fn prepare(parsed: Parsed) -> (r: Prepared)
    ensures
        r@ == prepared(parsed_model(parsed)),
{
    match parsed {
        Err(detail) => Prepared::Respond(Reply::rejection("invalid JSON request", detail)),
        Ok(request) => match decode_standard(request.user_data.as_str()) {
            Err(failure) => Prepared::Respond(
                Reply::rejection("Invalid report-data encoding", failure.message()),
            ),
            Ok(user_data) => match decode_standard(request.nonce.as_str()) {
                Err(failure) => Prepared::Respond(
                    Reply::rejection("Invalid nonce encoding", failure.message()),
                ),
                Ok(nonce) => Prepared::Fetch { user_data, nonce },
            },
        },
    }
}

/// Builds the reply to a request that reached the monitor. A document is sent
/// as base64 of the padded length that decodes back to the document.
pub fn reply_to_outcome(outcome: Outcome) -> (r: Reply)
    requires
        outcome matches Ok(document) ==> encodable(document@.len()),
    ensures
        r@ == fetched_reply(outcome_model(outcome)),
        outcome matches Ok(document) ==> r@ matches ReplyModel::Attestation { document: text }
            && text.len() == encoded_len(document@.len())
            && standard_decoding(text) == Ok::<Seq<u8>, DecodeFailure>(document@),
{
    match outcome {
        Ok(document) => Reply::attestation(encode_standard(document.as_slice())),
        Err(error) => Reply::unavailable(error.message()),
    }
}

/// Where a connection stands: which report the session waits for.
#[derive(Debug, Clone, Copy, PartialEq, Eq)]
pub enum Session {
    /// Waiting for the next chunk from the peer.
    AwaitingChunk,
    /// Waiting for the parser's verdict on the chunk.
    AwaitingRequest,
    /// Waiting for the monitor.
    AwaitingDocument,
    /// Waiting for the reply to be written.
    AwaitingWrite,
    /// Over: nothing more is read or written.
    Closed,
}

/// What the driver reports after carrying out an action.
#[derive(Debug, PartialEq, Eq)]
pub enum Event {
    /// A read returned these bytes; no bytes means that the peer closed.
    Chunk(Vec<u8>),
    /// A read failed.
    ReadFailed,
    /// The parser's verdict on the text it was handed.
    Parsed(Parsed),
    /// The monitor's answer to the call it was handed.
    Fetched(Outcome),
    /// The reply was written.
    Written,
    /// The reply could not be written.
    WriteFailed,
}

/// An [`Event`] as mathematical values.
pub enum EventModel {
    Chunk(Seq<u8>),
    ReadFailed,
    Parsed(ParsedModel),
    Fetched(OutcomeModel),
    Written,
    WriteFailed,
}

impl View for Event {
    type V = EventModel;

    open spec fn view(&self) -> EventModel {
        match *self {
            Event::Chunk(bytes) => EventModel::Chunk(bytes@),
            Event::ReadFailed => EventModel::ReadFailed,
            Event::Parsed(parsed) => EventModel::Parsed(parsed_model(parsed)),
            Event::Fetched(outcome) => EventModel::Fetched(outcome_model(outcome)),
            Event::Written => EventModel::Written,
            Event::WriteFailed => EventModel::WriteFailed,
        }
    }
}

/// What the driver does next.
#[derive(Debug, PartialEq, Eq)]
pub enum Action {
    /// Read the next chunk.
    Read,
    /// Parse this text as a request.
    Parse(String),
    /// Ask the monitor for a document that binds these bytes.
    Fetch { user_data: Vec<u8>, nonce: Vec<u8> },
    /// Write this reply.
    Write(Reply),
    /// Stop serving the connection.
    Close,
    /// The event did not answer the pending action; nothing changed.
    Ignore,
}

/// An [`Action`] as mathematical values.
pub enum ActionModel {
    Read,
    Parse(Seq<char>),
    Fetch { user_data: Seq<u8>, nonce: Seq<u8> },
    Write(ReplyModel),
    Close,
    Ignore,
}

impl View for Action {
    type V = ActionModel;

    open spec fn view(&self) -> ActionModel {
        match *self {
            Action::Read => ActionModel::Read,
            Action::Parse(text) => ActionModel::Parse(text@),
            Action::Fetch { user_data, nonce } => ActionModel::Fetch {
                user_data: user_data@,
                nonce: nonce@,
            },
            Action::Write(reply) => ActionModel::Write(reply@),
            Action::Close => ActionModel::Close,
            Action::Ignore => ActionModel::Ignore,
        }
    }
}

impl Session {
    /// The state after an event, and the action that the event calls for.
    pub open spec fn next(self, event: EventModel) -> (Session, ActionModel) {
        match (self, event) {
            (Session::AwaitingChunk, EventModel::Chunk(bytes)) => if bytes.len() == 0 {
                (Session::Closed, ActionModel::Close)
            } else {
                (Session::AwaitingRequest, ActionModel::Parse(lossy_text(bytes)))
            },
            (Session::AwaitingChunk, EventModel::ReadFailed) => (
                Session::Closed,
                ActionModel::Close,
            ),
            (Session::AwaitingRequest, EventModel::Parsed(parsed)) => match prepared(parsed) {
                PreparedModel::Respond(reply) => (Session::AwaitingWrite, ActionModel::Write(reply)),
                PreparedModel::Fetch { user_data, nonce } => (
                    Session::AwaitingDocument,
                    ActionModel::Fetch { user_data, nonce },
                ),
            },
            (Session::AwaitingDocument, EventModel::Fetched(outcome)) => (
                Session::AwaitingWrite,
                ActionModel::Write(fetched_reply(outcome)),
            ),
            (Session::AwaitingWrite, EventModel::Written) => (
                Session::AwaitingChunk,
                ActionModel::Read,
            ),
            (Session::AwaitingWrite, EventModel::WriteFailed) => (
                Session::Closed,
                ActionModel::Close,
            ),
            (state, _) => (state, ActionModel::Ignore),
        }
    }

    /// Whether `step` takes the event in this state: a document must be short
    /// enough for its encoding to have a length.
    pub open spec fn admits(self, event: EventModel) -> bool {
        self is AwaitingDocument ==> (event matches EventModel::Fetched(Ok(document))
            ==> encodable(document.len()))
    }

    /// Starts serving an accepted connection. The first action is to read.
    pub fn open() -> (r: (Session, Action))
        ensures
            r.0 == Session::AwaitingChunk,
            r.1@ == ActionModel::Read,
    {
        (Session::AwaitingChunk, Action::Read)
    }

    /// Takes the driver's report and says what to do next.
    pub fn step(self, event: Event) -> (r: (Session, Action))
        requires
            self.admits(event@),
        ensures
            (r.0, r.1@) == self.next(event@),
            self is AwaitingChunk ==> (event matches Event::Chunk(bytes) ==> bytes@.len() > 0
                && valid_utf8(bytes@) ==> r.1@ == ActionModel::Parse(decode_utf8(bytes@))),
            self is AwaitingDocument ==> (event matches Event::Fetched(Ok(document)) ==> r.1@
                matches ActionModel::Write(ReplyModel::Attestation { document: text })
                && standard_decoding(text) == Ok::<Seq<u8>, DecodeFailure>(document@)),
    {
        match self {
            Session::AwaitingChunk => match event {
                Event::Chunk(bytes) => if bytes.len() == 0 {
                    (Session::Closed, Action::Close)
                } else {
                    (Session::AwaitingRequest, Action::Parse(text_of_chunk(bytes.as_slice())))
                },
                Event::ReadFailed => (Session::Closed, Action::Close),
                _ => (Session::AwaitingChunk, Action::Ignore),
            },
            Session::AwaitingRequest => match event {
                Event::Parsed(parsed) => match prepare(parsed) {
                    Prepared::Respond(reply) => (Session::AwaitingWrite, Action::Write(reply)),
                    Prepared::Fetch { user_data, nonce } => (
                        Session::AwaitingDocument,
                        Action::Fetch { user_data, nonce },
                    ),
                },
                _ => (Session::AwaitingRequest, Action::Ignore),
            },
            Session::AwaitingDocument => match event {
                Event::Fetched(outcome) => (
                    Session::AwaitingWrite,
                    Action::Write(reply_to_outcome(outcome)),
                ),
                _ => (Session::AwaitingDocument, Action::Ignore),
            },
            Session::AwaitingWrite => match event {
                Event::Written => (Session::AwaitingChunk, Action::Read),
                Event::WriteFailed => (Session::Closed, Action::Close),
                _ => (Session::AwaitingWrite, Action::Ignore),
            },
            Session::Closed => (Session::Closed, Action::Ignore),
        }
    }
}

/// The states and actions that a sequence of events leads through, in order.
pub open spec fn run(state: Session, events: Seq<EventModel>) -> (Session, Seq<ActionModel>)
    decreases events.len(),
{
    if events.len() == 0 {
        (state, Seq::empty())
    } else {
        let first = state.next(events.first());
        let rest = run(first.0, events.drop_first());
        (rest.0, seq![first.1] + rest.1)
    }
}

/// The replies among a sequence of actions, in order.
pub open spec fn writes(actions: Seq<ActionModel>) -> Seq<ReplyModel>
    decreases actions.len(),
{
    if actions.len() == 0 {
        Seq::empty()
    } else {
        match actions.first() {
            ActionModel::Write(reply) => seq![reply] + writes(actions.drop_first()),
            _ => writes(actions.drop_first()),
        }
    }
}

/// One request as the driver lives through it: the chunk that was read, what
/// the parser made of it, and what the monitor answers if it is asked.
pub struct Exchange {
    pub chunk: Seq<u8>,
    pub parsed: ParsedModel,
    pub outcome: OutcomeModel,
}

impl Exchange {
    /// The reply that the request is owed.
    pub open spec fn reply(self) -> ReplyModel {
        match prepared(self.parsed) {
            PreparedModel::Respond(reply) => reply,
            PreparedModel::Fetch { .. } => fetched_reply(self.outcome),
        }
    }

    /// What a faithful driver reports while the request is served and the
    /// reply is written without fault.
    pub open spec fn events(self) -> Seq<EventModel> {
        match prepared(self.parsed) {
            PreparedModel::Respond(_) => seq![
                EventModel::Chunk(self.chunk),
                EventModel::Parsed(self.parsed),
                EventModel::Written,
            ],
            PreparedModel::Fetch { .. } => seq![
                EventModel::Chunk(self.chunk),
                EventModel::Parsed(self.parsed),
                EventModel::Fetched(self.outcome),
                EventModel::Written,
            ],
        }
    }

    /// What the driver is told to do while the request is served.
    pub open spec fn actions(self) -> Seq<ActionModel> {
        match prepared(self.parsed) {
            PreparedModel::Respond(reply) => seq![
                ActionModel::Parse(lossy_text(self.chunk)),
                ActionModel::Write(reply),
                ActionModel::Read,
            ],
            PreparedModel::Fetch { user_data, nonce } => seq![
                ActionModel::Parse(lossy_text(self.chunk)),
                ActionModel::Fetch { user_data, nonce },
                ActionModel::Write(fetched_reply(self.outcome)),
                ActionModel::Read,
            ],
        }
    }
}

/// The events of requests served one after another.
pub open spec fn transcript(exchanges: Seq<Exchange>) -> Seq<EventModel>
    decreases exchanges.len(),
{
    if exchanges.len() == 0 {
        Seq::empty()
    } else {
        exchanges.first().events() + transcript(exchanges.drop_first())
    }
}

/// The actions for requests served one after another.
pub open spec fn script(exchanges: Seq<Exchange>) -> Seq<ActionModel>
    decreases exchanges.len(),
{
    if exchanges.len() == 0 {
        Seq::empty()
    } else {
        exchanges.first().actions() + script(exchanges.drop_first())
    }
}

/// Running two sequences of events in a row is running their concatenation.
pub proof fn lemma_run_concat(state: Session, head: Seq<EventModel>, tail: Seq<EventModel>)
    ensures
        run(state, head + tail).0 == run(run(state, head).0, tail).0,
        run(state, head + tail).1 == run(state, head).1 + run(run(state, head).0, tail).1,
    decreases head.len(),
{
    if head.len() > 0 {
        assert((head + tail).drop_first() == head.drop_first() + tail);
        lemma_run_concat(state.next(head.first()).0, head.drop_first(), tail);
    }
}

/// The replies among two sequences of actions in a row.
pub proof fn lemma_writes_concat(head: Seq<ActionModel>, tail: Seq<ActionModel>)
    ensures
        writes(head + tail) == writes(head) + writes(tail),
    decreases head.len(),
{
    if head.len() > 0 {
        assert((head + tail).drop_first() == head.drop_first() + tail);
        lemma_writes_concat(head.drop_first(), tail);
    }
}

/// A request that arrives on a connection that waits for one is served in
/// full, in the order parse, monitor if need be, write, and leaves the
/// connection waiting for the next.
pub proof fn lemma_exchange_runs(exchange: Exchange)
    requires
        exchange.chunk.len() > 0,
    ensures
        run(Session::AwaitingChunk, exchange.events()) == (
            Session::AwaitingChunk,
            exchange.actions(),
        ),
        writes(exchange.actions()) == seq![exchange.reply()],
{
    reveal_with_fuel(run, 5);
    reveal_with_fuel(writes, 5);
}

/// Requests that arrive one after another on one connection are answered one
/// for one and in order: the replies written are exactly the replies owed,
/// each written before the next chunk is read, and the connection stays open.
pub proof fn lemma_one_reply_per_request(exchanges: Seq<Exchange>)
    requires
        forall|i: int| 0 <= i < exchanges.len() ==> (#[trigger] exchanges[i]).chunk.len() > 0,
    ensures
        run(Session::AwaitingChunk, transcript(exchanges)) == (
            Session::AwaitingChunk,
            script(exchanges),
        ),
        writes(script(exchanges)) == exchanges.map_values(|exchange: Exchange| exchange.reply()),
        writes(script(exchanges)).len() == exchanges.len(),
    decreases exchanges.len(),
{
    if exchanges.len() > 0 {
        let first = exchanges.first();
        let rest = exchanges.drop_first();
        lemma_exchange_runs(first);
        lemma_one_reply_per_request(rest);
        lemma_run_concat(Session::AwaitingChunk, first.events(), transcript(rest));
        lemma_writes_concat(first.actions(), script(rest));
    }
}

/// Once a session is closed it stays closed and writes nothing, whatever the
/// driver reports.
pub proof fn lemma_closed_is_final(events: Seq<EventModel>)
    ensures
        run(Session::Closed, events).0 == Session::Closed,
        writes(run(Session::Closed, events).1) == Seq::<ReplyModel>::empty(),
    decreases events.len(),
{
    if events.len() > 0 {
        lemma_closed_is_final(events.drop_first());
        assert(run(Session::Closed, events).1.drop_first() == run(
            Session::Closed,
            events.drop_first(),
        ).1);
    }
}

/// A read of no bytes ends the session without a reply, and no reply is
/// written afterwards.
pub proof fn lemma_peer_close_ends_session(later: Seq<EventModel>)
    ensures
        Session::AwaitingChunk.next(EventModel::Chunk(Seq::empty())) == (
            Session::Closed,
            ActionModel::Close,
        ),
        run(Session::AwaitingChunk, seq![EventModel::Chunk(Seq::empty())] + later).0
            == Session::Closed,
        writes(run(Session::AwaitingChunk, seq![EventModel::Chunk(Seq::empty())] + later).1)
            == Seq::<ReplyModel>::empty(),
{
    let close = seq![EventModel::Chunk(Seq::empty())];
    reveal_with_fuel(run, 2);
    reveal_with_fuel(writes, 2);
    lemma_run_concat(Session::AwaitingChunk, close, later);
    lemma_closed_is_final(later);
    lemma_writes_concat(seq![ActionModel::Close], run(Session::Closed, later).1);
}

/// A chunk that is no request is answered with a rejection that names it
/// malformed and carries the parser's words, and the connection stays open
/// for the next chunk.
pub proof fn lemma_malformed_is_rejected(detail: Seq<char>)
    ensures
        Session::AwaitingRequest.next(EventModel::Parsed(Err(detail))) == (
            Session::AwaitingWrite,
            ActionModel::Write(
                ReplyModel::Error { error: invalid_json(), message: detail, status: None },
            ),
        ),
        Session::AwaitingWrite.next(EventModel::Written) == (
            Session::AwaitingChunk,
            ActionModel::Read,
        ),
{
}

/// A request whose user data is not base64 is rejected as such. The nonce has
/// no part in the reply, and the monitor is not asked.
pub proof fn lemma_bad_user_data_is_rejected(
    request: AttestationRequestModel,
    other_nonce: Seq<char>,
)
    requires
        standard_decoding(request.user_data) is Err,
    ensures
        Session::AwaitingRequest.next(EventModel::Parsed(Ok(request))) == (
            Session::AwaitingWrite,
            ActionModel::Write(
                ReplyModel::Error {
                    error: invalid_report_data(),
                    message: standard_decoding(request.user_data)->Err_0.text(),
                    status: None,
                },
            ),
        ),
        Session::AwaitingRequest.next(EventModel::Parsed(Ok(request)))
            == Session::AwaitingRequest.next(
            EventModel::Parsed(
                Ok(AttestationRequestModel { user_data: request.user_data, nonce: other_nonce }),
            ),
        ),
{
}

/// A request whose user data is base64 and whose nonce is not is rejected for
/// its nonce, and the monitor is not asked.
pub proof fn lemma_bad_nonce_is_rejected(request: AttestationRequestModel)
    requires
        standard_decoding(request.user_data) is Ok,
        standard_decoding(request.nonce) is Err,
    ensures
        Session::AwaitingRequest.next(EventModel::Parsed(Ok(request))) == (
            Session::AwaitingWrite,
            ActionModel::Write(
                ReplyModel::Error {
                    error: invalid_nonce(),
                    message: standard_decoding(request.nonce)->Err_0.text(),
                    status: None,
                },
            ),
        ),
{
}

/// The monitor is asked exactly for the requests whose two fields decode, and
/// it is handed the decoded bytes.
pub proof fn lemma_monitor_asked_iff_fields_decode(request: AttestationRequestModel)
    ensures
        Session::AwaitingRequest.next(EventModel::Parsed(Ok(request))).1 is Fetch <==> (
        standard_decoding(request.user_data) is Ok && standard_decoding(request.nonce) is Ok),
        Session::AwaitingRequest.next(EventModel::Parsed(Ok(request))).1 matches ActionModel::Fetch {
            user_data,
            nonce,
        } ==> standard_decoding(request.user_data) == Ok::<Seq<u8>, DecodeFailure>(user_data)
            && standard_decoding(request.nonce) == Ok::<Seq<u8>, DecodeFailure>(nonce),
{
}

/// When the monitor gives no document the reply is a failure with the
/// unavailable category, the monitor's words and the status tag; it never has
/// the shape of a document.
pub proof fn lemma_monitor_failure_is_reported(error: BridgeError)
    ensures
        Session::AwaitingDocument.next(EventModel::Fetched(Err(error))) == (
            Session::AwaitingWrite,
            ActionModel::Write(
                ReplyModel::Error {
                    error: monitor_unavailable(),
                    message: error.text(),
                    status: Some(unavailable_status()),
                },
            ),
        ),
{
}

/// A request with two decodable fields, answered by the monitor with a
/// document, is served in four steps: the chunk goes to the parser, the
/// decoded bytes go to the monitor, the document is written in base64, and
/// the next chunk is read.
pub proof fn lemma_document_is_delivered(
    exchange: Exchange,
    user_data: Seq<u8>,
    nonce: Seq<u8>,
    document: Seq<u8>,
)
    requires
        exchange.chunk.len() > 0,
        exchange.parsed matches Ok(request) && standard_decoding(request.user_data) == Ok::<
            Seq<u8>,
            DecodeFailure,
        >(user_data) && standard_decoding(request.nonce) == Ok::<Seq<u8>, DecodeFailure>(nonce),
        exchange.outcome == Ok::<Seq<u8>, BridgeError>(document),
    ensures
        run(Session::AwaitingChunk, exchange.events()) == (
            Session::AwaitingChunk,
            seq![
                ActionModel::Parse(lossy_text(exchange.chunk)),
                ActionModel::Fetch { user_data, nonce },
                ActionModel::Write(
                    ReplyModel::Attestation { document: standard_encoding(document) },
                ),
                ActionModel::Read,
            ],
        ),
{
    lemma_exchange_runs(exchange);
}

} // verus!
