//! The daemon's side of one query connection, as a state machine: the
//! caller performs each action and reports what came of it.
//!
//! A client sends one frame holding a JSON query; the daemon answers with a
//! frame holding the JSON records, if the query could be run and its result
//! encoded, and then with the finish flag.

use vstd::prelude::*;
use vstd::utf8::{decode_utf8, valid_utf8};
use crate::common::Query;
use crate::frame::{encode_frame, encode_u32, finish_flag, frame};
use crate::sql::{select_statement, spec_select_statement, spec_sqlcat};
use crate::common::TABLE_NAME;
use crate::text::is_prefix;

verus! {

/// `String::from_utf8`: the text of `bytes` when they are valid UTF-8.
#[verifier::external_body]
fn utf8_string(bytes: Vec<u8>) -> (res: Option<String>)
    ensures
        res is Some <==> valid_utf8(bytes@),
        res matches Some(s) ==> s@ == decode_utf8(bytes@),
{
    String::from_utf8(bytes).ok()
}

/// Where a connection stands.
#[derive(Clone, Copy, Debug, PartialEq, Eq, Structural)]
pub enum SessionState {
    /// Waiting for the length prefix of the query frame.
    AwaitLength,
    /// Waiting for the body of the query frame.
    AwaitPayload,
    /// Waiting for the query text to be decoded.
    AwaitQuery,
    /// Waiting for the query's records, encoded.
    AwaitRows,
    /// Waiting for the answer frame to be written.
    AwaitResponseWritten,
    /// Waiting for the finish flag to be written.
    AwaitFinishWritten,
    /// The connection is done.
    Closed,
}

/// What came of the last action.
pub enum SessionEvent {
    /// The length prefix was read; it announces this many bytes.
    LengthRead(u32),
    /// A read failed.
    ReadFailed,
    /// The body of the query frame was read.
    PayloadRead(Vec<u8>),
    /// The query text decoded to this query.
    QueryDecoded(Query),
    /// The query text is no query.
    QueryRejected,
    /// The query ran; these are its records, encoded.
    RowsEncoded(Vec<u8>),
    /// The query could not be run, or its records not encoded.
    QueryFailed,
    /// The last write succeeded.
    Written,
    /// The last write failed.
    WriteFailed,
}

/// What the caller is to do next.
pub enum SessionAction {
    /// Read the four bytes of a length prefix.
    ReadLength,
    /// Read exactly this many bytes.
    ReadPayload(u32),
    /// Decode this text as a query.
    DecodeQuery(String),
    /// Run this statement and encode its records.
    RunQuery(String),
    /// Write these bytes.
    Write(Vec<u8>),
    /// Close the connection.
    Close,
}

/// The meaning of an action.
pub enum ActionView {
    ReadLength,
    ReadPayload(u32),
    DecodeQuery(Seq<char>),
    RunQuery(Seq<char>),
    Write(Seq<u8>),
    Close,
}

impl View for SessionAction {
    type V = ActionView;

    open spec fn view(&self) -> ActionView {
        match self {
            SessionAction::ReadLength => ActionView::ReadLength,
            SessionAction::ReadPayload(n) => ActionView::ReadPayload(*n),
            SessionAction::DecodeQuery(s) => ActionView::DecodeQuery(s@),
            SessionAction::RunQuery(s) => ActionView::RunQuery(s@),
            SessionAction::Write(b) => ActionView::Write(b@),
            SessionAction::Close => ActionView::Close,
        }
    }
}

/// The state and action that follow `event` in `state`.
pub open spec fn next(state: SessionState, event: SessionEvent) -> (SessionState, ActionView) {
    match state {
        SessionState::AwaitLength => match event {
            SessionEvent::LengthRead(n) => (SessionState::AwaitPayload, ActionView::ReadPayload(n)),
            _ => (SessionState::Closed, ActionView::Close),
        },
        SessionState::AwaitPayload => match event {
            SessionEvent::PayloadRead(bytes) => if valid_utf8(bytes@) {
                (SessionState::AwaitQuery, ActionView::DecodeQuery(decode_utf8(bytes@)))
            } else {
                (SessionState::Closed, ActionView::Close)
            },
            _ => (SessionState::Closed, ActionView::Close),
        },
        SessionState::AwaitQuery => match event {
            SessionEvent::QueryDecoded(q) => (
                SessionState::AwaitRows,
                ActionView::RunQuery(spec_select_statement(&q)),
            ),
            _ => (SessionState::Closed, ActionView::Close),
        },
        SessionState::AwaitRows => match event {
            SessionEvent::RowsEncoded(rows) => (
                SessionState::AwaitResponseWritten,
                ActionView::Write(frame(rows@)),
            ),
            SessionEvent::QueryFailed => (
                SessionState::AwaitFinishWritten,
                ActionView::Write(finish_flag()),
            ),
            _ => (SessionState::Closed, ActionView::Close),
        },
        SessionState::AwaitResponseWritten => match event {
            SessionEvent::Written => (
                SessionState::AwaitFinishWritten,
                ActionView::Write(finish_flag()),
            ),
            _ => (SessionState::Closed, ActionView::Close),
        },
        SessionState::AwaitFinishWritten => (SessionState::Closed, ActionView::Close),
        SessionState::Closed => (SessionState::Closed, ActionView::Close),
    }
}

/// The first state of a new connection, and its first action.
pub fn start() -> (res: (SessionState, SessionAction))
    ensures
        res.0 == SessionState::AwaitLength,
        res.1@ == ActionView::ReadLength,
{
    (SessionState::AwaitLength, SessionAction::ReadLength)
}

fn close() -> (res: (SessionState, SessionAction))
    ensures
        res.0 == SessionState::Closed,
        res.1@ == ActionView::Close,
{
    (SessionState::Closed, SessionAction::Close)
}

/// Moves a connection on by one event.
pub fn step(state: SessionState, event: SessionEvent) -> (res: (SessionState, SessionAction))
    ensures
        (res.0, res.1@) == next(state, event),
{
    match state {
        SessionState::AwaitLength => match event {
            SessionEvent::LengthRead(n) => (SessionState::AwaitPayload, SessionAction::ReadPayload(n)),
            _ => close(),
        },
        SessionState::AwaitPayload => match event {
            SessionEvent::PayloadRead(bytes) => match utf8_string(bytes) {
                Some(text) => (SessionState::AwaitQuery, SessionAction::DecodeQuery(text)),
                None => close(),
            },
            _ => close(),
        },
        SessionState::AwaitQuery => match event {
            SessionEvent::QueryDecoded(q) => (
                SessionState::AwaitRows,
                SessionAction::RunQuery(select_statement(&q)),
            ),
            _ => close(),
        },
        SessionState::AwaitRows => match event {
            SessionEvent::RowsEncoded(rows) => (
                SessionState::AwaitResponseWritten,
                SessionAction::Write(encode_frame(rows.as_slice())),
            ),
            SessionEvent::QueryFailed => (
                SessionState::AwaitFinishWritten,
                SessionAction::Write(encode_u32(0)),
            ),
            _ => close(),
        },
        SessionState::AwaitResponseWritten => match event {
            SessionEvent::Written => (
                SessionState::AwaitFinishWritten,
                SessionAction::Write(encode_u32(0)),
            ),
            _ => close(),
        },
        SessionState::AwaitFinishWritten => close(),
        SessionState::Closed => close(),
    }
}

/// A closed connection stays closed, whatever is reported.
pub proof fn lemma_closed_stays_closed(event: SessionEvent)
    ensures
        next(SessionState::Closed, event) == (SessionState::Closed, ActionView::Close),
{
}

/// A decoded query is run as the statement built from it; records that were
/// encoded go out in one frame, then the finish flag, then the connection
/// closes, whether or not the last write succeeds.
pub proof fn lemma_query_answered(q: Query, rows: Vec<u8>, last: SessionEvent)
    requires
        last is Written || last is WriteFailed,
    ensures
        next(SessionState::AwaitQuery, SessionEvent::QueryDecoded(q)) == (
            SessionState::AwaitRows,
            ActionView::RunQuery(spec_select_statement(&q)),
        ),
        next(SessionState::AwaitRows, SessionEvent::RowsEncoded(rows)) == (
            SessionState::AwaitResponseWritten,
            ActionView::Write(frame(rows@)),
        ),
        next(SessionState::AwaitResponseWritten, SessionEvent::Written) == (
            SessionState::AwaitFinishWritten,
            ActionView::Write(finish_flag()),
        ),
        next(SessionState::AwaitFinishWritten, last) == (SessionState::Closed, ActionView::Close),
{
}

/// A query that could not be run is answered with the finish flag alone.
pub proof fn lemma_failed_query_finished()
    ensures
        next(SessionState::AwaitRows, SessionEvent::QueryFailed) == (
            SessionState::AwaitFinishWritten,
            ActionView::Write(finish_flag()),
        ),
{
}

/// Failed reads, undecodable payloads and rejected queries close the
/// connection without any answer.
pub proof fn lemma_bad_request_closes(bytes: Vec<u8>)
    requires
        !valid_utf8(bytes@),
    ensures
        next(SessionState::AwaitLength, SessionEvent::ReadFailed) == (SessionState::Closed, ActionView::Close),
        next(SessionState::AwaitPayload, SessionEvent::ReadFailed) == (SessionState::Closed, ActionView::Close),
        next(SessionState::AwaitPayload, SessionEvent::PayloadRead(bytes)) == (SessionState::Closed, ActionView::Close),
        next(SessionState::AwaitQuery, SessionEvent::QueryRejected) == (SessionState::Closed, ActionView::Close),
{
}

/// The only statements a connection ever runs are selections from the
/// record table.
pub proof fn lemma_only_selects(state: SessionState, event: SessionEvent)
    ensures
        next(state, event).1 matches ActionView::RunQuery(sql) ==> is_prefix(
            "select * from "@ + TABLE_NAME@ + " "@,
            sql,
        ),
{
    if let SessionEvent::QueryDecoded(q) = event {
        let head = "select * from "@ + TABLE_NAME@ + " "@;
        assert((head + spec_sqlcat(&q)).subrange(0, head.len() as int) =~= head);
    }
}

} // verus!
