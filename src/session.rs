//! The decisions of the client surface: stream ids, the transaction
//! lifecycle, what a caller does with a reply, and the supervisor loop that
//! keeps a connection alive.
use vstd::prelude::*;
use std::sync::atomic::{AtomicU32, Ordering};
use crate::consts::TransactionIsolationLevel;
use crate::msgpack::mp_map_len;
use crate::errors::Error;
use crate::request::{Begin, Commit, EncodedRequest, Request, Rollback};
use crate::response::{Response, ResponseBody};

verus! {

/// A stream id taken from a counter that may have wrapped to zero: zero
/// means "no stream", so the next value is taken instead.
pub fn skip_zero(first: u32, second: u32) -> (r: u32)
    ensures
        first != 0 ==> r == first,
        first == 0 ==> r == second,
{
    if first != 0 {
        first
    } else {
        second
    }
}

/// The next stream id from the shared counter. When the counter has just
/// wrapped to zero, the value after it is taken instead.
pub fn next_stream_id(counter: &AtomicU32) -> u32 {
    let first = counter.fetch_add(1, Ordering::Relaxed);
    if first != 0 {
        first
    } else {
        skip_zero(first, counter.fetch_add(1, Ordering::Relaxed))
    }
}

/// `request` bound to `stream_id`, everything else unchanged.
pub fn pin_to_stream(request: EncodedRequest, stream_id: u32) -> (r: EncodedRequest)
    ensures
        r.stream_id == Some(stream_id),
        r.request_type == request.request_type,
        r.sync == request.sync,
        r.schema_version == request.schema_version,
        r.encoded_body == request.encoded_body,
{
    let mut request = request;
    request.stream_id = Some(stream_id);
    request
}

/// A client pinned to one non-zero stream id: the server handles the
/// requests of a stream one after another, in the order they arrive.
#[derive(Copy, Clone, Debug)]
pub struct StreamBinding {
    pub stream_id: u32,
}

impl StreamBinding {
    pub fn new(stream_id: u32) -> (r: Self)
        requires
            stream_id != 0,
        ensures
            r.stream_id == stream_id,
    {
        StreamBinding { stream_id }
    }

    /// Rewrites the stream id slot of `request` to this stream.
    pub fn bind(&self, request: EncodedRequest) -> (r: EncodedRequest)
        ensures
            r.stream_id == Some(self.stream_id),
            r.request_type == request.request_type,
            r.sync == request.sync,
            r.schema_version == request.schema_version,
            r.encoded_body == request.encoded_body,
    {
        pin_to_stream(request, self.stream_id)
    }
}

/// Where a transaction is in its life.
#[derive(Copy, Clone, Debug, PartialEq, Eq, Structural)]
pub enum TransactionPhase {
    /// BEGIN succeeded; neither COMMIT nor ROLLBACK has.
    InFlight,
    Committed,
    RolledBack,
    /// Dropped while in flight: a ROLLBACK was sent without waiting.
    DroppedWhileUnfinished,
}

/// A transaction: its stream and its phase.
#[derive(Copy, Clone, Debug)]
pub struct TransactionState {
    pub stream_id: u32,
    pub phase: TransactionPhase,
}

/// The request that ends a transaction, or starts one, on its stream.
pub open spec fn on_stream(r: EncodedRequest, stream_id: u32, body: Seq<u8>) -> bool {
    r.stream_id == Some(stream_id) && r.sync == 0 && r.schema_version is None && r.encoded_body@
        == body
}

/// BEGIN on `stream_id` with an optional timeout (IEEE-754 bits of its
/// value in seconds) and an isolation level.
pub fn begin_request(
    stream_id: u32,
    timeout_secs_bits: Option<u64>,
    level: TransactionIsolationLevel,
) -> (r: EncodedRequest)
    ensures
        r.request_type == crate::consts::RequestType::Begin,
        on_stream(r, stream_id, (Begin { timeout_secs_bits, transaction_isolation_level: level }).spec_body()),
{
    let body = Begin::new(timeout_secs_bits, level);
    let mut bytes: Vec<u8> = Vec::new();
    body.encode(&mut bytes);
    assert(bytes@ =~= body.spec_body());
    EncodedRequest {
        request_type: crate::consts::RequestType::Begin,
        sync: 0,
        schema_version: None,
        stream_id: Some(stream_id),
        encoded_body: bytes,
    }
}

/// COMMIT on `stream_id`.
pub fn commit_request(stream_id: u32) -> (r: EncodedRequest)
    ensures
        r.request_type == crate::consts::RequestType::Commit,
        on_stream(r, stream_id, mp_map_len(0)),
{
    let body = Commit {};
    let mut bytes: Vec<u8> = Vec::new();
    body.encode(&mut bytes);
    assert(bytes@ =~= body.spec_body());
    EncodedRequest {
        request_type: crate::consts::RequestType::Commit,
        sync: 0,
        schema_version: None,
        stream_id: Some(stream_id),
        encoded_body: bytes,
    }
}

/// ROLLBACK on `stream_id`.
pub fn rollback_request(stream_id: u32) -> (r: EncodedRequest)
    ensures
        r.request_type == crate::consts::RequestType::Rollback,
        on_stream(r, stream_id, mp_map_len(0)),
{
    let body = Rollback {};
    let mut bytes: Vec<u8> = Vec::new();
    body.encode(&mut bytes);
    assert(bytes@ =~= body.spec_body());
    EncodedRequest {
        request_type: crate::consts::RequestType::Rollback,
        sync: 0,
        schema_version: None,
        stream_id: Some(stream_id),
        encoded_body: bytes,
    }
}

impl TransactionState {
    /// A transaction whose BEGIN succeeded on `stream_id`.
    pub fn new(stream_id: u32) -> (r: Self)
        requires
            stream_id != 0,
        ensures
            r.stream_id == stream_id,
            r.phase == TransactionPhase::InFlight,
    {
        TransactionState { stream_id, phase: TransactionPhase::InFlight }
    }

    /// The COMMIT to send, while the transaction is in flight.
    pub fn commit(&self) -> (r: Option<EncodedRequest>)
        ensures
            self.phase == TransactionPhase::InFlight <==> r is Some,
            r is Some ==> r->Some_0.request_type == crate::consts::RequestType::Commit && on_stream(
                r->Some_0,
                self.stream_id,
                mp_map_len(0),
            ),
    {
        if self.phase == TransactionPhase::InFlight {
            Some(commit_request(self.stream_id))
        } else {
            None
        }
    }

    /// The ROLLBACK to send, while the transaction is in flight.
    pub fn rollback(&self) -> (r: Option<EncodedRequest>)
        ensures
            self.phase == TransactionPhase::InFlight <==> r is Some,
            r is Some ==> r->Some_0.request_type == crate::consts::RequestType::Rollback
                && on_stream(r->Some_0, self.stream_id, mp_map_len(0)),
    {
        if self.phase == TransactionPhase::InFlight {
            Some(rollback_request(self.stream_id))
        } else {
            None
        }
    }

    /// Records the answer to a COMMIT: only success ends the transaction.
    pub fn commit_answered(&mut self, ok: bool)
        ensures
            final(self).stream_id == old(self).stream_id,
            (old(self).phase == TransactionPhase::InFlight && ok) ==> final(self).phase
                == TransactionPhase::Committed,
            !(old(self).phase == TransactionPhase::InFlight && ok) ==> final(self).phase == old(
                self,
            ).phase,
    {
        if self.phase == TransactionPhase::InFlight && ok {
            self.phase = TransactionPhase::Committed;
        }
    }

    /// Records the answer to a ROLLBACK: only success ends the transaction.
    pub fn rollback_answered(&mut self, ok: bool)
        ensures
            final(self).stream_id == old(self).stream_id,
            (old(self).phase == TransactionPhase::InFlight && ok) ==> final(self).phase
                == TransactionPhase::RolledBack,
            !(old(self).phase == TransactionPhase::InFlight && ok) ==> final(self).phase == old(
                self,
            ).phase,
    {
        if self.phase == TransactionPhase::InFlight && ok {
            self.phase = TransactionPhase::RolledBack;
        }
    }

    /// On drop: a transaction still in flight gets a ROLLBACK on its stream,
    /// sent without waiting for the reply; a finished one sends nothing.
    pub fn on_drop(&mut self) -> (r: Option<EncodedRequest>)
        ensures
            final(self).stream_id == old(self).stream_id,
            old(self).phase == TransactionPhase::InFlight ==> final(self).phase
                == TransactionPhase::DroppedWhileUnfinished && r is Some
                && r->Some_0.request_type == crate::consts::RequestType::Rollback && on_stream(
                r->Some_0,
                old(self).stream_id,
                mp_map_len(0),
            ),
            old(self).phase != TransactionPhase::InFlight ==> final(self).phase == old(self).phase
                && r is None,
    {
        if self.phase == TransactionPhase::InFlight {
            self.phase = TransactionPhase::DroppedWhileUnfinished;
            Some(rollback_request(self.stream_id))
        } else {
            None
        }
    }
}

/// What the connection sends back to a caller.
pub enum DispatcherResponse {
    /// The request ended: a response, or an error.
    Finished(Result<Response, Error>),
    /// The request was never written; offer it again.
    NeedsResend(EncodedRequest),
}

/// What a caller does next with the answer on its one-shot sink.
pub enum SendStep {
    Return(Result<Response, Error>),
    Resend(EncodedRequest),
}

/// The caller's decision on what arrived on its sink: none means the
/// connection dropped the sink without answering.
pub fn after_reply(reply: Option<DispatcherResponse>) -> (r: SendStep)
    ensures
        match reply {
            None => r matches SendStep::Return(Err(Error::ConnectionClosed)),
            Some(DispatcherResponse::Finished(x)) => r == SendStep::Return(x),
            Some(DispatcherResponse::NeedsResend(q)) => r == SendStep::Resend(q),
        },
{
    match reply {
        None => SendStep::Return(Err(Error::ConnectionClosed)),
        Some(DispatcherResponse::Finished(x)) => SendStep::Return(x),
        Some(DispatcherResponse::NeedsResend(q)) => SendStep::Resend(q),
    }
}

/// The OK body of a response, or the server's error.
pub fn into_result(resp: Response) -> (r: Result<Vec<u8>, Error>)
    ensures
        match resp.body {
            ResponseBody::Value(v) => r == Ok::<Vec<u8>, Error>(v),
            ResponseBody::Error(e) => r matches Err(Error::Response(x)) && x == e,
        },
{
    match resp.body {
        ResponseBody::Value(v) => Ok(v),
        ResponseBody::Error(e) => Err(Error::Response(e)),
    }
}

/// The outcome of the AUTH exchange: any error reply is an `Auth` error.
pub fn auth_result(resp: Response) -> (r: Result<(), Error>)
    ensures
        match resp.body {
            ResponseBody::Value(_) => r is Ok,
            ResponseBody::Error(e) => r matches Err(Error::Auth(x)) && x == e,
        },
{
    match resp.body {
        ResponseBody::Value(_) => Ok(()),
        ResponseBody::Error(e) => Err(Error::Auth(e)),
    }
}

/// How the supervisor stands.
#[derive(Copy, Clone, Debug, PartialEq, Eq, Structural)]
pub enum DispatcherState {
    /// A connection is installed and running.
    Connected,
    /// No connection; `failed_attempts` connects have failed in a row.
    Disconnected { failed_attempts: u32 },
    /// Every caller is gone; the supervisor has stopped.
    Stopped,
}

/// What happened to the supervisor.
#[derive(Copy, Clone, Debug, PartialEq, Eq, Structural)]
pub enum DispatcherEvent {
    /// The running connection returned: `senders_gone` when every caller
    /// dropped its sender, else it died.
    ConnectionEnded { senders_gone: bool },
    /// A connect attempt ended.
    ConnectFinished { ok: bool },
}

/// What the supervisor does next.
#[derive(Copy, Clone, Debug, PartialEq, Eq, Structural)]
pub enum DispatcherAction {
    /// Run the installed connection.
    Run,
    /// Try to connect now.
    Connect,
    /// Wait out the reconnect interval, when one is configured, then connect.
    SleepThenConnect,
    /// Stop for good.
    Exit,
}

/// The supervisor's step. A dead connection is dropped and replaced at
/// once (the first attempt has no delay); a failed attempt waits for the
/// backoff; the loop ends only when every caller is gone.
pub fn dispatcher_step(state: DispatcherState, event: DispatcherEvent) -> (r: (DispatcherState, DispatcherAction))
    ensures
        match event {
            DispatcherEvent::ConnectionEnded { senders_gone: true } => r == (DispatcherState::Stopped, DispatcherAction::Exit),
            DispatcherEvent::ConnectionEnded { senders_gone: false } => r == (DispatcherState::Disconnected { failed_attempts: 0 }, DispatcherAction::Connect),
            DispatcherEvent::ConnectFinished { ok: true } => r == (DispatcherState::Connected, DispatcherAction::Run),
            DispatcherEvent::ConnectFinished { ok: false } => r == (DispatcherState::Disconnected {
                failed_attempts: match state {
                    DispatcherState::Disconnected { failed_attempts } => if failed_attempts == u32::MAX { u32::MAX } else { (failed_attempts + 1) as u32 },
                    _ => 1,
                },
            }, DispatcherAction::SleepThenConnect),
        },
{
    match event {
        DispatcherEvent::ConnectionEnded { senders_gone } => {
            if senders_gone {
                (DispatcherState::Stopped, DispatcherAction::Exit)
            } else {
                (DispatcherState::Disconnected { failed_attempts: 0 }, DispatcherAction::Connect)
            }
        },
        DispatcherEvent::ConnectFinished { ok } => {
            if ok {
                (DispatcherState::Connected, DispatcherAction::Run)
            } else {
                let n = match state {
                    DispatcherState::Disconnected { failed_attempts } => if failed_attempts == u32::MAX { u32::MAX } else { failed_attempts + 1 },
                    _ => 1,
                };
                (DispatcherState::Disconnected { failed_attempts: n }, DispatcherAction::SleepThenConnect)
            }
        },
    }
}

/// The smallest minimum interval of exponential backoff, in microseconds:
/// a smaller one would make the reconnect loop spin.
pub const MIN_RECONNECT_INTERVAL_MICROS: u64 = 1;

/// The minimum interval actually used, floored at one microsecond.
pub fn floor_min_interval(min_micros: u64) -> (r: u64)
    ensures
        r == if min_micros < MIN_RECONNECT_INTERVAL_MICROS { MIN_RECONNECT_INTERVAL_MICROS } else { min_micros },
{
    if min_micros < MIN_RECONNECT_INTERVAL_MICROS {
        MIN_RECONNECT_INTERVAL_MICROS
    } else {
        min_micros
    }
}

} // verus!
