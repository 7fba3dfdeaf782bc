//! Decision logic of one relay session and of its unidirectional pumps.
//!
//! A session alternates outside work (bounded reads, the outbound connect,
//! the initial flush) with decisions. The decisions live here as transition
//! functions over an explicit state; the surrounding I/O loop performs each
//! returned action and hands the outcome back as an event.

use vstd::prelude::*;

use crate::http::{
    header_step, http_head_end, injected_content, HeaderPhase, INJECTED_OVERHEAD,
    MAX_PARSE_ATTEMPTS,
};
use crate::ip::IpAddress;

verus! {

/// Bytes a pump reads per chunk.
pub const RELAY_CHUNK_SIZE: usize = 4096;

/// Deadline, in seconds, on each read made to complete a request head.
pub const HEADER_READ_TIMEOUT_SECS: u64 = 10;

/// A transport endpoint, compared by value; the configured management
/// endpoint is the sentinel that turns header injection on.
pub struct Endpoint {
    pub ip: IpAddress,
    pub port: u16,
}

impl Endpoint {
    /// Value equality of endpoints: same family, same octets, same port.
    pub open spec fn same(&self, other: &Endpoint) -> bool {
        &&& self.ip.spec_is_v6() == other.ip.spec_is_v6()
        &&& self.ip.octets() == other.ip.octets()
        &&& self.port == other.port
    }
}

/// True exactly when the resolved target is the management endpoint, the one
/// target whose sessions get a forwarded-client-address header.
pub fn is_management_target(target: &Endpoint, management: &Endpoint) -> (r: bool)
    ensures
        r == target.same(management),
{
    if target.ip.is_v6() != management.ip.is_v6() {
        return false;
    }
    if target.port != management.port {
        return false;
    }
    let a = target.ip.octets_ref();
    let b = management.ip.octets_ref();
    if a.len() != b.len() {
        return false;
    }
    let mut i: usize = 0;
    while i < a.len()
        invariant
            0 <= i <= a@.len(),
            a@.len() == b@.len(),
            a@ == target.ip.octets(),
            b@ == management.ip.octets(),
            target.ip.spec_is_v6() == management.ip.spec_is_v6(),
            target.port == management.port,
            forall|j: int| 0 <= j < i ==> a@[j] == b@[j],
        decreases a@.len() - i,
    {
        if a[i] != b[i] {
            return false;
        }
        i = i + 1;
    }
    proof {
        assert(a@ =~= b@);
    }
    true
}

/// Ghost model of a session's control state; the buffer is the bytes owed to
/// the target once the connection is up.
pub enum SessionModel {
    HeaderWait { buffer: Seq<u8>, attempts: int, ip: Seq<u8> },
    Connecting { buffer: Seq<u8>, injected: bool },
    Flushing { buffer: Seq<u8> },
    Relaying,
    Closed,
}

/// Ghost model of what the last outside operation reported.
pub enum EventModel {
    BytesRead { data: Seq<u8> },
    ReadFailed,
    Connected,
    ConnectFailed,
    FlushOk,
    FlushFailed,
}

/// What the session driver must do next.
#[derive(Clone, Copy, Debug, PartialEq, Eq, Structural)]
pub enum SessionAction {
    /// Read more header bytes, bounded by `HEADER_READ_TIMEOUT_SECS`.
    ReadHeader,
    /// Open the outbound connection to the target.
    Connect,
    /// Write the session buffer to the target in full.
    Flush,
    /// Hand both stream halves to two independent pumps.
    SpawnPumps,
    /// Best-effort shutdown of whatever streams exist; the session is over.
    CloseBoth,
    /// Nothing: the session has left the driver's hands.
    Idle,
}

/// Control state of one session between two outside operations.
pub enum SessionState {
    /// Waiting for more bytes of an incomplete request head.
    HeaderWait { buffer: Vec<u8>, attempts: u8, ip: Vec<u8> },
    /// The header phase is over; the outbound connect is due.
    Connecting { buffer: Vec<u8>, injected: bool },
    /// Connected; the initial flush of the buffer is due.
    Flushing { buffer: Vec<u8> },
    /// Both pumps own the streams; the session driver is done.
    Relaying,
    /// The session ended without reaching the relay.
    Closed,
}

impl SessionState {
    pub open spec fn model(&self) -> SessionModel {
        match self {
            SessionState::HeaderWait { buffer, attempts, ip } => SessionModel::HeaderWait {
                buffer: buffer@,
                attempts: *attempts as int,
                ip: ip@,
            },
            SessionState::Connecting { buffer, injected } => SessionModel::Connecting {
                buffer: buffer@,
                injected: *injected,
            },
            SessionState::Flushing { buffer } => SessionModel::Flushing { buffer: buffer@ },
            SessionState::Relaying => SessionModel::Relaying,
            SessionState::Closed => SessionModel::Closed,
        }
    }
}

/// An outside operation's outcome, as the driver reports it.
pub enum SessionEvent {
    /// A header read returned these bytes; empty means the peer closed.
    BytesRead { data: Vec<u8> },
    /// A header read timed out or failed.
    ReadFailed,
    Connected,
    ConnectFailed,
    FlushOk,
    FlushFailed,
}

impl SessionEvent {
    pub open spec fn model(&self) -> EventModel {
        match self {
            SessionEvent::BytesRead { data } => EventModel::BytesRead { data: data@ },
            SessionEvent::ReadFailed => EventModel::ReadFailed,
            SessionEvent::Connected => EventModel::Connected,
            SessionEvent::ConnectFailed => EventModel::ConnectFailed,
            SessionEvent::FlushOk => EventModel::FlushOk,
            SessionEvent::FlushFailed => EventModel::FlushFailed,
        }
    }
}

/// One parse attempt over `buffer`, `attempts` of the budget already spent:
/// out of budget the buffer goes out as it stands (fail-open); a complete
/// head goes out rewritten; otherwise one more bounded read is due.
pub open spec fn header_advance_model(buffer: Seq<u8>, attempts: int, ip: Seq<u8>) -> (
    SessionModel,
    SessionAction,
) {
    if attempts >= MAX_PARSE_ATTEMPTS {
        (SessionModel::Connecting { buffer, injected: false }, SessionAction::Connect)
    } else {
        match http_head_end(buffer) {
            Some(o) => (
                SessionModel::Connecting {
                    buffer: injected_content(buffer, o, ip),
                    injected: true,
                },
                SessionAction::Connect,
            ),
            None => (
                SessionModel::HeaderWait { buffer, attempts: attempts + 1, ip },
                SessionAction::ReadHeader,
            ),
        }
    }
}

/// Where a session starts: straight to the connect unless the target is the
/// management endpoint, in which case the header phase runs first.
pub open spec fn session_init_model(buffer: Seq<u8>, inject: bool, ip: Seq<u8>) -> (
    SessionModel,
    SessionAction,
) {
    if inject {
        header_advance_model(buffer, 0, ip)
    } else {
        (SessionModel::Connecting { buffer, injected: false }, SessionAction::Connect)
    }
}

/// The session transition relation. A read of zero bytes or a failed read
/// during header completion closes the session with no connect; a connect or
/// flush failure closes both ends; only a successful flush reaches the relay.
pub open spec fn session_next_model(state: SessionModel, event: EventModel) -> (
    SessionModel,
    SessionAction,
) {
    match state {
        SessionModel::HeaderWait { buffer, attempts, ip } => match event {
            EventModel::BytesRead { data } => {
                if data.len() == 0 {
                    (SessionModel::Closed, SessionAction::CloseBoth)
                } else {
                    header_advance_model(buffer + data, attempts, ip)
                }
            },
            _ => (SessionModel::Closed, SessionAction::CloseBoth),
        },
        SessionModel::Connecting { buffer, injected } => match event {
            EventModel::Connected => (
                SessionModel::Flushing { buffer },
                SessionAction::Flush,
            ),
            _ => (SessionModel::Closed, SessionAction::CloseBoth),
        },
        SessionModel::Flushing { buffer } => match event {
            EventModel::FlushOk => (SessionModel::Relaying, SessionAction::SpawnPumps),
            _ => (SessionModel::Closed, SessionAction::CloseBoth),
        },
        SessionModel::Relaying => (SessionModel::Relaying, SessionAction::Idle),
        SessionModel::Closed => (SessionModel::Closed, SessionAction::Idle),
    }
}

fn advance_header(buffer: Vec<u8>, attempts: u8, ip: Vec<u8>) -> (r: (SessionState, SessionAction))
    requires
        buffer@.len() + INJECTED_OVERHEAD + ip@.len() <= usize::MAX,
    ensures
        (r.0.model(), r.1) == header_advance_model(buffer@, attempts as int, ip@),
{
    match header_step(buffer, attempts, &ip) {
        HeaderPhase::Deliver { buffer, injected } => (
            SessionState::Connecting { buffer, injected },
            SessionAction::Connect,
        ),
        HeaderPhase::NeedRead { buffer, attempts } => (
            SessionState::HeaderWait { buffer, attempts, ip },
            SessionAction::ReadHeader,
        ),
    }
}

/// Starts a session over the pre-read `buffer`; `inject` says whether the
/// resolved target is the management endpoint, `ip` is the client address
/// text that injection records.
pub fn session_start(buffer: Vec<u8>, inject: bool, ip: Vec<u8>) -> (r: (
    SessionState,
    SessionAction,
))
    requires
        buffer@.len() + INJECTED_OVERHEAD + ip@.len() <= usize::MAX,
    ensures
        (r.0.model(), r.1) == session_init_model(buffer@, inject, ip@),
{
    if inject {
        advance_header(buffer, 0, ip)
    } else {
        (SessionState::Connecting { buffer, injected: false }, SessionAction::Connect)
    }
}

/// One session transition: the driver performed the previous action, reports
/// its outcome as `event`, and is told the next state and action.
pub fn session_step(state: SessionState, event: SessionEvent) -> (r: (
    SessionState,
    SessionAction,
))
    requires
        state matches SessionState::HeaderWait { buffer, attempts, ip } ==> (event
            matches SessionEvent::BytesRead { data } ==> buffer@.len() + data@.len()
            + INJECTED_OVERHEAD + ip@.len() <= usize::MAX),
    ensures
        (r.0.model(), r.1) == session_next_model(state.model(), event.model()),
{
    match state {
        SessionState::HeaderWait { buffer, attempts, ip } => match event {
            SessionEvent::BytesRead { data } => {
                if data.len() == 0 {
                    (SessionState::Closed, SessionAction::CloseBoth)
                } else {
                    let mut grown = buffer;
                    let mut tail = data;
                    grown.append(&mut tail);
                    advance_header(grown, attempts, ip)
                }
            },
            _ => (SessionState::Closed, SessionAction::CloseBoth),
        },
        SessionState::Connecting { buffer, injected: _ } => match event {
            SessionEvent::Connected => (SessionState::Flushing { buffer }, SessionAction::Flush),
            _ => (SessionState::Closed, SessionAction::CloseBoth),
        },
        SessionState::Flushing { buffer: _ } => match event {
            SessionEvent::FlushOk => (SessionState::Relaying, SessionAction::SpawnPumps),
            _ => (SessionState::Closed, SessionAction::CloseBoth),
        },
        SessionState::Relaying => (SessionState::Relaying, SessionAction::Idle),
        SessionState::Closed => (SessionState::Closed, SessionAction::Idle),
    }
}

/// Control state of one unidirectional pump.
#[derive(Clone, Copy, Debug, PartialEq, Eq, Structural)]
pub enum PumpState {
    /// A bounded read of up to `RELAY_CHUNK_SIZE` bytes is in flight.
    Reading,
    /// `pending` bytes were read and must be written out in full.
    Writing { pending: usize },
    /// The pump is over and its write half has been shut down.
    Done,
}

/// What the pump's last read or write reported.
#[derive(Clone, Copy, Debug, PartialEq, Eq, Structural)]
pub enum PumpEvent {
    /// The read returned this many bytes; zero means the peer closed.
    ReadDone { len: usize },
    /// The read timed out against the idle deadline or failed.
    ReadFailed,
    /// The whole pending chunk was written.
    WriteDone,
    /// The write failed.
    WriteFailed,
}

/// What the pump's driver must do next.
#[derive(Clone, Copy, Debug, PartialEq, Eq, Structural)]
pub enum PumpAction {
    /// Read the next chunk, bounded by the idle timeout.
    Read,
    /// Write the first `len` bytes of the chunk just read, in full.
    Write { len: usize },
    /// Best-effort shutdown of the write half; errors here are ignored.
    Shutdown,
    /// Nothing: the pump already ended.
    Idle,
}

/// The pump transition relation: forward each non-empty chunk as read, and
/// end — shutting the write half down — on an orderly close, a read timeout
/// or error, or a write failure. Termination is the pump's own: nothing
/// outside it can cancel it.
pub open spec fn pump_next_model(state: PumpState, event: PumpEvent) -> (PumpState, PumpAction) {
    match state {
        PumpState::Reading => match event {
            PumpEvent::ReadDone { len } => {
                if len == 0 {
                    (PumpState::Done, PumpAction::Shutdown)
                } else {
                    (PumpState::Writing { pending: len }, PumpAction::Write { len })
                }
            },
            _ => (PumpState::Done, PumpAction::Shutdown),
        },
        PumpState::Writing { pending } => match event {
            PumpEvent::WriteDone => (PumpState::Reading, PumpAction::Read),
            _ => (PumpState::Done, PumpAction::Shutdown),
        },
        PumpState::Done => (PumpState::Done, PumpAction::Idle),
    }
}

/// One pump transition; the driver performs the returned action and reports
/// the outcome as the next event.
pub fn pump_step(state: PumpState, event: PumpEvent) -> (r: (PumpState, PumpAction))
    ensures
        r == pump_next_model(state, event),
{
    match state {
        PumpState::Reading => match event {
            PumpEvent::ReadDone { len } => {
                if len == 0 {
                    (PumpState::Done, PumpAction::Shutdown)
                } else {
                    (PumpState::Writing { pending: len }, PumpAction::Write { len })
                }
            },
            _ => (PumpState::Done, PumpAction::Shutdown),
        },
        PumpState::Writing { pending: _ } => match event {
            PumpEvent::WriteDone => (PumpState::Reading, PumpAction::Read),
            _ => (PumpState::Done, PumpAction::Shutdown),
        },
        PumpState::Done => (PumpState::Done, PumpAction::Idle),
    }
}

/// The state a pump reaches after a sequence of events.
pub open spec fn pump_run(state: PumpState, events: Seq<PumpEvent>) -> PumpState
    decreases events.len(),
{
    if events.len() == 0 {
        state
    } else {
        pump_run(pump_next_model(state, events[0]).0, events.skip(1))
    }
}

/// How many shutdowns of the write half a sequence of events makes a pump
/// perform.
pub open spec fn pump_shutdowns(state: PumpState, events: Seq<PumpEvent>) -> int
    decreases events.len(),
{
    if events.len() == 0 {
        0
    } else {
        (if pump_next_model(state, events[0]).1 is Shutdown {
            1int
        } else {
            0int
        }) + pump_shutdowns(pump_next_model(state, events[0]).0, events.skip(1))
    }
}

/// A pump shuts its write half down when and only when it ends.
pub proof fn lemma_pump_shutdown_marks_end(state: PumpState, event: PumpEvent)
    ensures
        pump_next_model(state, event).1 is Shutdown <==> (state !is Done && pump_next_model(
            state,
            event,
        ).0 is Done),
        state is Done ==> pump_next_model(state, event) == (PumpState::Done, PumpAction::Idle),
{
}

/// A finished pump never acts again, whatever events still arrive.
pub proof fn lemma_pump_done_stays(events: Seq<PumpEvent>)
    ensures
        pump_run(PumpState::Done, events) is Done,
        pump_shutdowns(PumpState::Done, events) == 0,
    decreases events.len(),
{
    if events.len() > 0 {
        lemma_pump_done_stays(events.skip(1));
    }
}

/// Over any whole run, a live pump shuts its write half down exactly once if
/// the run ends it, and never otherwise.
pub proof fn lemma_pump_single_shutdown(state: PumpState, events: Seq<PumpEvent>)
    requires
        state !is Done,
    ensures
        pump_shutdowns(state, events) == if pump_run(state, events) is Done {
            1int
        } else {
            0int
        },
    decreases events.len(),
{
    if events.len() > 0 {
        let (next, action) = pump_next_model(state, events[0]);
        if next is Done {
            lemma_pump_done_stays(events.skip(1));
        } else {
            lemma_pump_single_shutdown(next, events.skip(1));
        }
    }
}

/// During header completion, a closed peer or a failed read never leads to
/// an outbound connect: the session closes at once.
pub proof fn lemma_no_connect_after_dead_read(state: SessionModel, event: EventModel)
    requires
        state is HeaderWait,
        event matches EventModel::BytesRead { data } ==> data.len() == 0,
    ensures
        session_next_model(state, event).0 is Closed,
        session_next_model(state, event).1 != SessionAction::Connect,
{
}

/// The session buffer after the first `i` read chunks have been appended.
pub open spec fn accumulated(buffer: Seq<u8>, chunks: Seq<Seq<u8>>, i: int) -> Seq<u8>
    decreases i,
{
    if i <= 0 {
        buffer
    } else {
        accumulated(buffer, chunks, i - 1) + chunks[i - 1]
    }
}

/// The session state after the header phase has consumed one read event per
/// chunk.
pub open spec fn header_run(state: SessionModel, chunks: Seq<Seq<u8>>) -> SessionModel
    decreases chunks.len(),
{
    if chunks.len() == 0 {
        state
    } else {
        header_run(
            session_next_model(state, EventModel::BytesRead { data: chunks[0] }).0,
            chunks.skip(1),
        )
    }
}

proof fn lemma_accumulated_shift(buffer: Seq<u8>, chunks: Seq<Seq<u8>>, i: int)
    requires
        chunks.len() > 0,
        0 <= i <= chunks.len() - 1,
    ensures
        accumulated(buffer + chunks[0], chunks.skip(1), i) == accumulated(buffer, chunks, i + 1),
    decreases i,
{
    if i == 0 {
        assert(accumulated(buffer + chunks[0], chunks.skip(1), 0) == buffer + chunks[0]);
        assert(accumulated(buffer, chunks, 0) == buffer);
        assert(accumulated(buffer, chunks, 1) == accumulated(buffer, chunks, 0) + chunks[0]);
    } else {
        lemma_accumulated_shift(buffer, chunks, i - 1);
        assert(chunks.skip(1)[i - 1] == chunks[i]);
        assert(accumulated(buffer + chunks[0], chunks.skip(1), i) == accumulated(
            buffer + chunks[0],
            chunks.skip(1),
            i - 1,
        ) + chunks.skip(1)[i - 1]);
        assert(accumulated(buffer, chunks, i + 1) == accumulated(buffer, chunks, i) + chunks[i]);
    }
}

/// A header phase that never sees a complete head — every read brings bytes,
/// no accumulation ever parses — spends its whole retry budget and then
/// forwards exactly the accumulated buffer, unmodified and uninjected.
pub proof fn lemma_fail_open_run(buffer: Seq<u8>, attempts: int, ip: Seq<u8>, chunks: Seq<Seq<u8>>)
    requires
        0 <= attempts <= MAX_PARSE_ATTEMPTS,
        attempts + chunks.len() == MAX_PARSE_ATTEMPTS + 1,
        forall|j: int| 0 <= j < chunks.len() ==> #[trigger] chunks[j].len() > 0,
        forall|j: int| 0 <= j < chunks.len() - 1 ==> (http_head_end(
            #[trigger] accumulated(buffer, chunks, j + 1),
        ) is None),
    ensures
        header_run(SessionModel::HeaderWait { buffer, attempts, ip }, chunks)
            == (SessionModel::Connecting {
            buffer: accumulated(buffer, chunks, chunks.len() as int),
            injected: false,
        }),
    decreases chunks.len(),
{
    let d = chunks[0];
    assert(chunks[0].len() > 0);
    let grown = buffer + d;
    assert(accumulated(buffer, chunks, 0) == buffer);
    assert(accumulated(buffer, chunks, 1) == accumulated(buffer, chunks, 0) + chunks[0]);
    assert(grown == accumulated(buffer, chunks, 1));
    let s0 = SessionModel::HeaderWait { buffer, attempts, ip };
    let stepped = session_next_model(s0, EventModel::BytesRead { data: d }).0;
    assert(header_run(s0, chunks) == header_run(stepped, chunks.skip(1)));
    if attempts >= MAX_PARSE_ATTEMPTS {
        assert(chunks.len() == 1);
        assert(chunks.skip(1).len() == 0);
        assert(stepped == (SessionModel::Connecting { buffer: grown, injected: false }));
        assert(header_run(stepped, chunks.skip(1)) == stepped);
    } else {
        assert(http_head_end(accumulated(buffer, chunks, 1)) is None);
        assert(stepped == (SessionModel::HeaderWait { buffer: grown, attempts: attempts + 1, ip }));
        let rest = chunks.skip(1);
        assert forall|j: int| 0 <= j < rest.len() implies #[trigger] rest[j].len() > 0 by {
            assert(rest[j] == chunks[j + 1]);
        }
        assert forall|j: int| 0 <= j < rest.len() - 1 implies http_head_end(
            #[trigger] accumulated(grown, rest, j + 1),
        ) is None by {
            lemma_accumulated_shift(buffer, chunks, j + 1);
            assert(accumulated(grown, rest, j + 1) == accumulated(buffer, chunks, j + 2));
        }
        lemma_fail_open_run(grown, attempts + 1, ip, rest);
        lemma_accumulated_shift(buffer, chunks, chunks.len() - 1);
        assert(accumulated(grown, rest, rest.len() as int) == accumulated(
            buffer,
            chunks,
            chunks.len() as int,
        ));
    }
}

} // verus!
