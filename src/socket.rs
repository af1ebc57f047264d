use vstd::prelude::*;

use crate::event::{spec_decode, spec_encoded, ZoneEvent, ZoneEventType};
use crate::json::JsonValue;

verus! {

/// How long `close` waits for both sides of the connection, in milliseconds.
pub const CLOSE_TIMEOUT_MS: u64 = 5000;

/// How often `close` looks at both sides of the connection, in milliseconds.
pub const CLOSE_POLL_MS: u64 = 100;

/// One inbound item of the duplex connection, as the reader sees it.
#[derive(Debug, PartialEq)]
pub enum InboundFrame {
    /// A text frame holding this JSON document.
    Json(JsonValue),
    /// A text frame that is not JSON.
    NotJson,
    /// The peer closed the connection.
    Close,
    /// The connection has no more data.
    NoDataAvailable,
    /// Any other frame (binary, ping, pong).
    Other,
}

/// What the reader does with one inbound item.
#[derive(Debug, PartialEq)]
pub enum ReaderAction {
    /// Push this event onto the inbound queue.
    Forward(ZoneEvent),
    /// Log this and read on.
    Skip(String),
    /// End the reader.
    Stop,
}

/// The reader's decision for one inbound item: events are decoded and forwarded,
/// except the server's permission to close, which ends the reader; undecodable
/// and unknown frames are skipped; a close or the end of data ends the reader.
pub fn reader_step(frame: InboundFrame) -> (r: ReaderAction)
    ensures
        match frame {
            InboundFrame::Json(v) => match spec_decode(v) {
                Some(e) => if e.event_type is ServerPermitClose {
                    r == ReaderAction::Stop
                } else {
                    r matches ReaderAction::Forward(f) && f@ == e
                },
                None => r is Skip,
            },
            InboundFrame::NotJson => r is Skip,
            InboundFrame::Other => r is Skip,
            InboundFrame::Close => r == ReaderAction::Stop,
            InboundFrame::NoDataAvailable => r == ReaderAction::Stop,
        },
{
    match frame {
        InboundFrame::Json(value) => match ZoneEvent::from_value(value) {
            Ok(event) => match event.event_type {
                ZoneEventType::ServerPermitClose => ReaderAction::Stop,
                _ => ReaderAction::Forward(event),
            },
            Err(message) => ReaderAction::Skip(String::from_str("Error while decoding event: ").concat(message.as_str())),
        },
        InboundFrame::NotJson => ReaderAction::Skip(String::from_str("Error when interpreting event as JSON")),
        InboundFrame::Other => ReaderAction::Skip(String::from_str("Unknown websocket message received")),
        InboundFrame::Close => ReaderAction::Stop,
        InboundFrame::NoDataAvailable => ReaderAction::Stop,
    }
}

/// The writer's decision for one outbound event: the text frame to write, as a
/// JSON document, and whether the writer ends after it (for the request to close).
pub fn writer_step(event: &ZoneEvent) -> (r: (JsonValue, bool))
    ensures
        spec_encoded(event@, r.0),
        r.1 == (event@.event_type is ClientWantClose),
{
    let frame = event.to_value();
    let last = match event.event_type {
        ZoneEventType::ClientWantClose => true,
        _ => false,
    };
    (frame, last)
}

/// What `close` does next.
#[derive(Clone, Copy, Debug, PartialEq, Eq, Structural)]
pub enum CloseAction {
    /// Queue the request to close for the writer.
    SendCloseRequest,
    /// Wait a poll period and look again.
    Wait,
    /// Return: both sides are closed, or the timeout passed (`forced`).
    Finish { forced: bool },
}

/// The close handshake: whether the request to close was queued.
#[derive(Clone, Copy, Debug, PartialEq, Eq, Structural)]
pub struct CloseHandshake {
    pub request_sent: bool,
}

impl CloseHandshake {
    pub fn new() -> (r: Self)
        ensures
            !r.request_sent,
    {
        CloseHandshake { request_sent: false }
    }

    /// The next step of `close`, given whether the reader and the writer have
    /// ended and how long the handshake has run. The request to close is queued
    /// once, first; then `close` returns as soon as both sides ended or the
    /// timeout passed.
    pub fn step(&mut self, reader_closed: bool, writer_closed: bool, elapsed_ms: u64, timeout_ms: u64) -> (r: CloseAction)
        ensures
            !old(self).request_sent ==> r == CloseAction::SendCloseRequest,
            final(self).request_sent,
            old(self).request_sent ==> r != CloseAction::SendCloseRequest,
            old(self).request_sent && reader_closed && writer_closed ==> r == (CloseAction::Finish { forced: false }),
            old(self).request_sent && !(reader_closed && writer_closed) && elapsed_ms > timeout_ms ==> r == (
            CloseAction::Finish { forced: true }),
            old(self).request_sent && !(reader_closed && writer_closed) && elapsed_ms <= timeout_ms ==> r
                == CloseAction::Wait,
            r == spec_close_step(old(self).request_sent, (reader_closed, writer_closed, elapsed_ms), timeout_ms),
    {
        if !self.request_sent {
            self.request_sent = true;
            return CloseAction::SendCloseRequest;
        }
        if reader_closed && writer_closed {
            CloseAction::Finish { forced: false }
        } else if elapsed_ms > timeout_ms {
            CloseAction::Finish { forced: true }
        } else {
            CloseAction::Wait
        }
    }
}

/// The step of a close handshake that has or has not queued its request, on one
/// observation `(reader_closed, writer_closed, elapsed_ms)`.
pub open spec fn spec_close_step(request_sent: bool, o: (bool, bool, u64), timeout_ms: u64) -> CloseAction {
    if !request_sent {
        CloseAction::SendCloseRequest
    } else if o.0 && o.1 {
        CloseAction::Finish { forced: false }
    } else if o.2 > timeout_ms {
        CloseAction::Finish { forced: true }
    } else {
        CloseAction::Wait
    }
}

/// The steps of a close handshake, from its start, over a run of observations
/// `(reader_closed, writer_closed, elapsed_ms)`.
pub open spec fn close_run(observations: Seq<(bool, bool, u64)>, timeout_ms: u64) -> Seq<CloseAction>
    decreases observations.len(),
{
    if observations.len() == 0 {
        seq![]
    } else {
        let prev = close_run(observations.drop_last(), timeout_ms);
        let o = observations.last();
        prev.push(spec_close_step(observations.len() > 1, o, timeout_ms))
    }
}

/// Over any run of a close handshake, the request to close is queued exactly
/// once, at the first step, and the handshake finishes at the first observation
/// after the first that finds both sides closed or the timeout passed.
pub proof fn lemma_close_requests_once(observations: Seq<(bool, bool, u64)>, timeout_ms: u64)
    ensures
        close_run(observations, timeout_ms).len() == observations.len(),
        forall|i: int|
            0 <= i < observations.len() ==> (#[trigger] close_run(observations, timeout_ms)[i]
                == CloseAction::SendCloseRequest <==> i == 0),
        forall|i: int|
            1 <= i < observations.len() && #[trigger] observations[i].2 > timeout_ms ==> close_run(
                observations,
                timeout_ms,
            )[i] is Finish,
    decreases observations.len(),
{
    if observations.len() > 0 {
        lemma_close_requests_once(observations.drop_last(), timeout_ms);
        let prev = observations.drop_last();
        assert forall|i: int| 0 <= i < prev.len() implies #[trigger] observations[i] == prev[i] by {}
    }
}

} // verus!
