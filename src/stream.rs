use vstd::prelude::*;

use crate::parsers::{
    header_rules, body_decodes, frame_outcome, grammar_error, lemma_frame_outcome_len, parse_telemetry_message,
    FrameOutcome,
};
use crate::structures::{
    HighLevelError, ParseResult, TelemetryError, TelemetryErrorKind, TelemetryMessage,
};
use crate::wire::{push_all, rule_ok};

verus! {

/// What the reader made of the head of its buffer
#[derive(Debug, Clone, PartialEq, Eq)]
pub enum StreamEvent {
    /// A message was read from a frame, whose bytes are given
    Message(TelemetryMessage, Vec<u8>),
    /// A frame was rejected with an error to report
    Error(HighLevelError),
    /// The buffer ends before the frame does: wait for more bytes
    NeedMore,
    /// The head of the buffer holds no frame: its first byte was dropped
    Skipped,
}

/// High-level error of a rejection, if it is one to report
pub open spec fn reported_error(kind: TelemetryErrorKind) -> Option<HighLevelError> {
    match kind {
        TelemetryErrorKind::ParserError => None,
        TelemetryErrorKind::CrcError { expected, computed } => Some(
            HighLevelError::CrcError { expected, computed },
        ),
        TelemetryErrorKind::UnsupportedProtocolVersion { maximum_supported, found } => Some(
            HighLevelError::UnsupportedProtocolVersion { maximum_supported, found },
        ),
    }
}

/// Buffer left once its head was read: a message or a rejected frame is skipped whole, a byte
/// that starts no frame is dropped, and an unfinished frame is kept
pub open spec fn next_buffer(b: Seq<u8>) -> Seq<u8> {
    match frame_outcome(b) {
        FrameOutcome::Record(n) => b.subrange(n as int, b.len() as int),
        FrameOutcome::NeedMore => b,
        FrameOutcome::Rejected(TelemetryError(n, _)) => b.subrange(n as int, b.len() as int),
    }
}

/// Buffer left after `k` readings
pub open spec fn buffer_after(b: Seq<u8>, k: nat) -> Seq<u8>
    decreases k,
{
    if k == 0 {
        b
    } else {
        buffer_after(next_buffer(b), (k - 1) as nat)
    }
}

/// Whether an event is the one that reading the head of `b` gives
pub open spec fn event_of(b: Seq<u8>, ev: StreamEvent) -> bool {
    match ev {
        StreamEvent::Message(m, frame) => frame_outcome(b) == FrameOutcome::Record(frame@.len() as usize)
            && frame@ == b.subrange(0, frame@.len() as int) && body_decodes(
            b.subrange(2, b.len() as int),
            m,
        ),
        StreamEvent::Error(e) => match frame_outcome(b) {
            FrameOutcome::Rejected(TelemetryError(_, kind)) => reported_error(kind) == Some(e),
            _ => false,
        },
        StreamEvent::NeedMore => frame_outcome(b) == FrameOutcome::NeedMore,
        StreamEvent::Skipped => frame_outcome(b) == FrameOutcome::Rejected(grammar_error()),
    }
}

fn tail_from(b: &Vec<u8>, n: usize) -> (r: Vec<u8>)
    requires
        n <= b@.len(),
    ensures
        r@ == b@.subrange(n as int, b@.len() as int),
{
    let mut r: Vec<u8> = Vec::new();
    push_all(&mut r, &b.as_slice()[n..b.len()]);
    r
}

/// Read the head of a buffer of received bytes, and take from it what was read
///
/// A message is returned with the bytes of its frame; a CRC error or an unsupported protocol
/// version is returned as an error to report, and the buffer then goes on after the rejected
/// bytes; bytes that start no frame are dropped one at a time; an unfinished frame stays.
pub fn process_buffer(buffer: &mut Vec<u8>) -> (r: StreamEvent)
    ensures
        final(buffer)@ == next_buffer(old(buffer)@),
        event_of(old(buffer)@, r),
{
    let len = buffer.len();
    let parsed = parse_telemetry_message(buffer.as_slice());
    proof {
        lemma_frame_outcome_len(old(buffer)@);
    }
    match parsed {
        ParseResult::Done(m, n) => {
            let mut frame: Vec<u8> = Vec::new();
            push_all(&mut frame, &buffer.as_slice()[0..n]);
            assert(frame@.len() == n);
            let rest = tail_from(buffer, n);
            *buffer = rest;
            StreamEvent::Message(m, frame)
        },
        ParseResult::Incomplete => StreamEvent::NeedMore,
        ParseResult::Failed(TelemetryError(n, kind)) => {
            let rest = tail_from(buffer, n);
            *buffer = rest;
            match kind {
                TelemetryErrorKind::ParserError => StreamEvent::Skipped,
                TelemetryErrorKind::CrcError { expected, computed } => {
                    let e = HighLevelError::CrcError { expected, computed };
                    assert(reported_error(kind) == Some(e));
                    StreamEvent::Error(e)
                },
                TelemetryErrorKind::UnsupportedProtocolVersion { maximum_supported, found } => {
                    let e = HighLevelError::UnsupportedProtocolVersion { maximum_supported, found };
                    assert(reported_error(kind) == Some(e));
                    StreamEvent::Error(e)
                },
            }
        },
    }
}

/// Pause that replaying a recording makes after a message, in milliseconds: the pace at which
/// the device sends it (a data snapshot every 10 ms, a stopped message every 100 ms)
pub open spec fn replay_delay(m: TelemetryMessage) -> u64 {
    match m {
        TelemetryMessage::DataSnapshot(_) => 10,
        TelemetryMessage::StoppedMessage(_) => 100,
        _ => 0,
    }
}

/// Pause that replaying a recording makes after a message, in milliseconds
pub fn replay_delay_ms(m: &TelemetryMessage) -> (r: u64)
    ensures
        r == replay_delay(*m),
{
    match m {
        TelemetryMessage::DataSnapshot(_) => 10,
        TelemetryMessage::StoppedMessage(_) => 100,
        _ => 0,
    }
}

/// Time that a sequence of messages covers, in milliseconds
pub open spec fn duration_of(s: Seq<TelemetryMessage>) -> int
    decreases s.len(),
{
    if s.len() == 0 {
        0
    } else {
        duration_of(s.drop_last()) + replay_delay(s.last())
    }
}

/// Time that a recording covers, in milliseconds: 10 for each data snapshot and 100 for each
/// stopped message
pub fn compute_duration(messages: Vec<TelemetryMessage>) -> (r: u32)
    requires
        duration_of(messages@) <= u32::MAX,
    ensures
        r == duration_of(messages@),
{
    let mut duration: u32 = 0;
    let mut i: usize = 0;
    while i < messages.len()
        invariant
            i <= messages@.len(),
            duration == duration_of(messages@.subrange(0, i as int)),
            duration_of(messages@) <= u32::MAX,
        decreases messages.len() - i,
    {
        proof {
            assert(messages@.subrange(0, i + 1).drop_last() =~= messages@.subrange(0, i as int));
            lemma_duration_prefix(messages@, i + 1);
        }
        duration = duration + replay_delay_ms(&messages[i]) as u32;
        i = i + 1;
    }
    assert(messages@.subrange(0, i as int) =~= messages@);
    duration
}

proof fn lemma_duration_prefix(s: Seq<TelemetryMessage>, k: int)
    requires
        0 <= k <= s.len(),
    ensures
        duration_of(s.subrange(0, k)) <= duration_of(s),
    decreases s.len() - k,
{
    if k < s.len() {
        lemma_duration_prefix(s, k + 1);
        assert(s.subrange(0, k + 1).drop_last() =~= s.subrange(0, k));
    } else {
        assert(s.subrange(0, k) =~= s);
    }
}

/// Whether no frame header (0x03 followed by 0x0C) starts in the first `n` bytes of `b`
pub open spec fn header_free(b: Seq<u8>, n: int) -> bool {
    forall|i: int| 0 <= i < n && i + 1 < b.len() ==> !(b[i] == 0x03 && #[trigger] b[i + 1] == 0x0c)
}

/// A buffer that starts with no frame header is rejected as bytes outside the grammar
proof fn lemma_no_header(b: Seq<u8>)
    requires
        2 <= b.len() <= usize::MAX,
        !(b[0] == 0x03 && b[1] == 0x0c),
    ensures
        frame_outcome(b) == FrameOutcome::Rejected(grammar_error()),
        next_buffer(b) == b.subrange(1, b.len() as int),
{
    reveal(frame_outcome);
    if b[0] != 0x03 {
        let i: int = 0;
        assert(!rule_ok(header_rules()[i], b[0 + i]));
    } else {
        let i: int = 1;
        assert(!rule_ok(header_rules()[i], b[0 + i]));
    }
}

/// Bytes in which no frame header starts are dropped one at a time: each reading rejects one of
/// them, and after as many readings as there are such bytes the buffer holds what follows them
pub proof fn lemma_resync(garbage: Seq<u8>, rest: Seq<u8>)
    requires
        rest.len() >= 1,
        garbage.len() + rest.len() <= usize::MAX,
        header_free(garbage + rest, garbage.len() as int),
    ensures
        buffer_after(garbage + rest, garbage.len()) == rest,
        forall|k: int|
            0 <= k < garbage.len() ==> frame_outcome(
                #[trigger] (garbage + rest).subrange(k, (garbage + rest).len() as int),
            ) == FrameOutcome::Rejected(grammar_error()),
    decreases garbage.len(),
{
    let b = garbage + rest;
    if garbage.len() == 0 {
        assert(b =~= rest);
    } else {
        assert(!(b[0] == 0x03 && b[0int + 1] == 0x0c));
        lemma_no_header(b);
        let g = garbage.drop_first();
        assert(b.subrange(1, b.len() as int) =~= g + rest);
        assert forall|i: int| 0 <= i < g.len() && i + 1 < (g + rest).len() implies !((g
            + rest)[i] == 0x03 && #[trigger] (g + rest)[i + 1] == 0x0c) by {
            assert((g + rest)[i] == b[i + 1]);
            assert((g + rest)[i + 1] == b[i + 1 + 1]);
        }
        lemma_resync(g, rest);
        assert(b.subrange(0, b.len() as int) =~= b);
        assert forall|k: int| 0 <= k < garbage.len() implies frame_outcome(
            #[trigger] b.subrange(k, b.len() as int),
        ) == FrameOutcome::Rejected(grammar_error()) by {
            if k > 0 {
                assert((g + rest).subrange(k - 1, (g + rest).len() as int) =~= b.subrange(
                    k,
                    b.len() as int,
                ));
            }
        }
    }
}

/// Pause before a transport session opens again after a failure, in milliseconds
pub const RECONNECT_DELAY_MS: u64 = 1000;

/// State of a transport session (a serial port or a WebSocket connection)
#[derive(Debug, Clone, Copy, PartialEq, Eq, Structural)]
pub enum SessionState {
    /// No connection: the next action opens one
    Closed,
    /// The connection is open and being configured
    Configuring,
    /// Bytes are being read
    Streaming,
}

/// What the transport reports back after an action
#[derive(Debug, Clone, Copy, PartialEq, Eq, Structural)]
pub enum SessionEvent {
    /// The connection was opened
    Opened,
    /// The connection could not be opened
    OpenFailed,
    /// The connection was configured
    Configured,
    /// The connection could not be configured
    ConfigureFailed,
    /// Some bytes were read
    Received,
    /// A read timed out without bytes
    TimedOut,
    /// A read failed otherwise
    ReadFailed,
}

/// What the transport does next
#[derive(Debug, Clone, Copy, PartialEq, Eq, Structural)]
pub enum SessionAction {
    /// Open the connection
    Open,
    /// Configure the connection (8N1 at 115200 bauds, no flow control, for a serial port)
    Configure,
    /// Read more bytes
    Read,
    /// Flush the capture file, then read more bytes
    FlushAndRead,
    /// Report the error, wait this many milliseconds, then open the connection again
    ReportAndWait(u64),
}

/// Next state and action of a transport session after an event
pub open spec fn session_next(state: SessionState, event: SessionEvent) -> (
    SessionState,
    SessionAction,
) {
    match (state, event) {
        (SessionState::Closed, SessionEvent::Opened) => (
            SessionState::Configuring,
            SessionAction::Configure,
        ),
        (SessionState::Configuring, SessionEvent::Configured) => (
            SessionState::Streaming,
            SessionAction::Read,
        ),
        (SessionState::Streaming, SessionEvent::Received) => (
            SessionState::Streaming,
            SessionAction::Read,
        ),
        (SessionState::Streaming, SessionEvent::TimedOut) => (
            SessionState::Streaming,
            SessionAction::FlushAndRead,
        ),
        (SessionState::Closed, SessionEvent::OpenFailed)
        | (SessionState::Configuring, SessionEvent::ConfigureFailed)
        | (SessionState::Streaming, SessionEvent::ReadFailed) => (
            SessionState::Closed,
            SessionAction::ReportAndWait(RECONNECT_DELAY_MS),
        ),
        (s, _) => (
            s,
            match s {
                SessionState::Closed => SessionAction::Open,
                SessionState::Configuring => SessionAction::Configure,
                SessionState::Streaming => SessionAction::Read,
            },
        ),
    }
}

/// Next state and action of a transport session after an event: an opened connection is
/// configured, a configured one is read, a timeout keeps reading (after flushing the capture),
/// and every failure closes the session and waits before opening it again; an event that does not
/// belong to the state repeats the state's action
pub fn session_step(state: SessionState, event: SessionEvent) -> (r: (SessionState, SessionAction))
    ensures
        r == session_next(state, event),
{
    match (state, event) {
        (SessionState::Closed, SessionEvent::Opened) => (
            SessionState::Configuring,
            SessionAction::Configure,
        ),
        (SessionState::Configuring, SessionEvent::Configured) => (
            SessionState::Streaming,
            SessionAction::Read,
        ),
        (SessionState::Streaming, SessionEvent::Received) => (
            SessionState::Streaming,
            SessionAction::Read,
        ),
        (SessionState::Streaming, SessionEvent::TimedOut) => (
            SessionState::Streaming,
            SessionAction::FlushAndRead,
        ),
        (SessionState::Closed, SessionEvent::OpenFailed)
        | (SessionState::Configuring, SessionEvent::ConfigureFailed)
        | (SessionState::Streaming, SessionEvent::ReadFailed) => (
            SessionState::Closed,
            SessionAction::ReportAndWait(RECONNECT_DELAY_MS),
        ),
        (s, _) => (
            s,
            match s {
                SessionState::Closed => SessionAction::Open,
                SessionState::Configuring => SessionAction::Configure,
                SessionState::Streaming => SessionAction::Read,
            },
        ),
    }
}

/// A session never closes without waiting at least a second before it opens again, and only a
/// read that fails otherwise than by a timeout ends streaming
pub proof fn lemma_session_backoff(state: SessionState, event: SessionEvent)
    ensures
        session_next(state, event).0 == SessionState::Closed && state != SessionState::Closed
            ==> session_next(state, event).1 == SessionAction::ReportAndWait(1000),
        session_next(state, event).1 is ReportAndWait ==> session_next(state, event).1
            == SessionAction::ReportAndWait(1000) && session_next(state, event).0
            == SessionState::Closed,
        state == SessionState::Streaming && session_next(state, event).0 != SessionState::Streaming
            ==> event == SessionEvent::ReadFailed,
{
}

} // verus!
