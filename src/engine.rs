//! The streaming session engine.
//!
//! The engine holds the decisions of a play session and none of its I/O: each
//! call of [`Engine::step`] takes what happened (a response read, a batch of
//! points from the source, a finished sleep) and says what to do next (send a
//! command and read its response, ask the source for points, sleep, or stop).
//! A driver performs each action and hands the outcome back as the next event.

use crate::error::EtherdreamError;
use crate::protocol::begin_bytes;
use crate::protocol::data_bytes;
use crate::protocol::encode_data;
use crate::protocol::encode_ping;
use crate::protocol::encode_prepare;
use crate::protocol::free_slots_of;
use crate::protocol::status_needs_prepare;
use crate::protocol::AckCode;
use crate::protocol::Begin;
use crate::protocol::Broadcast;
use crate::protocol::CommandCode;
use crate::protocol::DacResponse;
use crate::protocol::DacStatus;
use crate::protocol::Point;
use crate::protocol::COMMAND_PING;
use crate::protocol::COMMAND_PREPARE;
use vstd::prelude::*;

verus! {

/// The buffer capacity of classic EtherDream firmware, for when no broadcast
/// said otherwise.
pub const DEFAULT_CAPACITY: u16 = 1799;
/// The point rate used when the caller names none.
pub const DEFAULT_POINT_RATE: u32 = 30000;
/// The most points sent in one Data command, to bound its latency.
pub const MAX_BATCH: u16 = 1000;
/// How long to wait, in milliseconds, when the buffer has no free place.
pub const WAIT_MS: u64 = 1;
/// The first wait, in milliseconds, after the DAC refused points.
pub const BACKOFF_START_MS: u64 = 1;
/// The longest wait, in milliseconds, after the DAC refused points.
pub const BACKOFF_MAX_MS: u64 = 10;

/// Where a session stands.
#[derive(Clone, Copy, Debug, PartialEq, Eq, Structural)]
pub enum Phase {
    /// Connected; the DAC's hello has not been read yet.
    Connected,
    /// The hello was read; Prepare was sent.
    Ready,
    /// The DAC takes points; the first batch has not been acknowledged.
    Prepared,
    /// The first batch was acknowledged; Begin was sent.
    Primed,
    /// The DAC plays; points are streamed.
    Playing,
    /// The session is over.
    Halted,
}

/// What the engine waits for.
#[derive(Clone, Copy, Debug, PartialEq, Eq, Structural)]
pub enum Expect {
    /// The response to this command.
    Response(CommandCode),
    /// At most this many points from the source.
    Points(u16),
    /// The end of a sleep.
    Wake,
    /// Nothing: the session is over.
    Nothing,
}

/// What happened outside the engine.
#[derive(Debug)]
pub enum Event {
    /// A 22-byte response was read and parsed.
    Response(DacResponse),
    /// The source produced these points; none means the stream has ended.
    Points(Vec<Point>),
    /// A sleep ended.
    Woke,
    /// The caller cancelled the session.
    Cancelled,
    /// Reading or writing the socket failed.
    Failed(EtherdreamError),
}

/// What the driver is to do next.
#[derive(Debug)]
pub enum Action {
    /// Write this command frame, then read exactly one 22-byte response.
    Send(CommandCode, Vec<u8>),
    /// Ask the source for at most this many points.
    Fetch(u16),
    /// Sleep this many milliseconds.
    Sleep(u64),
    /// Close the socket and return this result.
    Finish(Result<(), EtherdreamError>),
}

/// The state of one play session.
#[derive(Debug)]
pub struct Engine {
    /// Where the session stands.
    pub phase: Phase,
    /// What the engine waits for.
    pub expect: Expect,
    /// Capacity of the DAC's point buffer.
    pub capacity: u16,
    /// The point rate that Begin asks for.
    pub point_rate: u32,
    /// The status of the last response.
    pub status: DacStatus,
    /// The batch sent last and not yet acknowledged.
    pub pending: Vec<Point>,
    /// Whether the DAC refused `pending` for want of room.
    pub throttled: bool,
    /// The current wait, in milliseconds, while throttled.
    pub backoff_ms: u64,
}

/// How many points to ask for: the free places, at most `MAX_BATCH`.
pub open spec fn batch_of(capacity: u16, fullness: u16) -> u16 {
    let free = free_slots_of(capacity, fullness);
    if free > MAX_BATCH {
        MAX_BATCH
    } else {
        free
    }
}

/// The next wait while throttled: twice the last, at most `BACKOFF_MAX_MS`.
pub open spec fn next_backoff(ms: u64) -> u64 {
    if ms >= 5 {
        BACKOFF_MAX_MS
    } else {
        (2 * ms) as u64
    }
}

/// A status in which nothing is buffered, idle and at rest.
pub open spec fn idle_status() -> DacStatus {
    DacStatus {
        protocol: 0,
        light_engine_state: 0,
        playback_state: 0,
        source: 0,
        light_engine_flags: 0,
        playback_flags: 0,
        source_flags: 0,
        buffer_fullness: 0,
        point_rate: 0,
        point_count: 0,
    }
}

/// The code that a session stopped by an emergency reports: the refusal the
/// DAC sent, or `NackStop` when it acknowledged.
pub open spec fn emergency_code(ack: AckCode) -> AckCode {
    if ack == AckCode::Ack {
        AckCode::NackStop
    } else {
        ack
    }
}

/// `a` is a Send of command `c` whose frame is `frame`.
pub open spec fn sends(a: Action, c: CommandCode, frame: Seq<u8>) -> bool {
    &&& a is Send
    &&& a->Send_0 == c
    &&& a->Send_1@ == frame
}

/// `e` has stopped with `a`, which returns `res`.
pub open spec fn halts(e: Engine, a: Action, res: Result<(), EtherdreamError>) -> bool {
    &&& e.phase == Phase::Halted
    &&& e.expect == Expect::Nothing
    &&& a == Action::Finish(res)
}

/// `a` is the next step when `e` wants more points: ask the source for a batch
/// sized to the free places, or sleep while there are none.
pub open spec fn refills(e: Engine, a: Action) -> bool {
    let n = batch_of(e.capacity, e.status.buffer_fullness);
    if n == 0 {
        a == Action::Sleep(WAIT_MS) && e.expect == Expect::Wake
    } else {
        a == Action::Fetch(n) && e.expect == Expect::Points(n)
    }
}

/// `e2` keeps the fields that a step leaves alone from `e1`.
pub open spec fn keeps_config(e1: Engine, e2: Engine) -> bool {
    e2.capacity == e1.capacity && e2.point_rate == e1.point_rate
}

/// The rules that tie a Send to what the engine then waits for, and a Data
/// command to the batch it carries: each command sent awaits exactly its own
/// response, and no Data command is empty.
pub open spec fn sends_well(e: Engine, a: Action) -> bool {
    &&& a is Send ==> e.expect == Expect::Response(a->Send_0)
    &&& !(a is Send) ==> !(e.expect is Response)
    &&& (a is Send && a->Send_0 == CommandCode::Data) ==> {
        &&& 0 < e.pending@.len() <= MAX_BATCH
        &&& a->Send_1@ == data_bytes(e.pending@)
    }
}

/// How many points to ask the source for.
pub fn batch_size(capacity: u16, fullness: u16) -> (r: u16)
    ensures
        r == batch_of(capacity, fullness),
{
    let free = if fullness < capacity {
        capacity - fullness
    } else {
        0
    };
    if free > MAX_BATCH {
        MAX_BATCH
    } else {
        free
    }
}

impl Engine {
    /// The engine's invariant: the batch held fits one Data command, a refused
    /// batch is never empty, the wait for room is made of sleeps and pings of
    /// 1 to 10 ms, and a halted session, and only it, waits for nothing.
    pub open spec fn wf(&self) -> bool {
        &&& self.pending@.len() <= MAX_BATCH
        &&& self.throttled ==> self.pending@.len() > 0
        &&& self.throttled ==> (self.expect == Expect::Wake || self.expect == Expect::Response(
            CommandCode::Ping,
        ) || self.expect == Expect::Nothing)
        &&& self.throttled ==> (self.phase == Phase::Prepared || self.phase == Phase::Playing
            || self.phase == Phase::Halted)
        &&& self.expect == Expect::Response(CommandCode::Data) ==> (self.phase == Phase::Prepared
            || self.phase == Phase::Playing)
        &&& self.expect is Points ==> {
            &&& 0 < self.expect->Points_0 <= MAX_BATCH
            &&& (self.phase == Phase::Prepared || self.phase == Phase::Playing)
        }
        &&& self.expect == Expect::Response(CommandCode::Data) ==> self.pending@.len() > 0
        &&& (self.phase == Phase::Halted <==> self.expect == Expect::Nothing)
        &&& self.throttled ==> BACKOFF_START_MS <= self.backoff_ms <= BACKOFF_MAX_MS
    }

    /// A session just connected to a DAC whose buffer holds `capacity` points,
    /// to play at `point_rate`. Its first event is the DAC's hello.
    pub fn new(capacity: u16, point_rate: u32) -> (r: Engine)
        ensures
            r.wf(),
            r.phase == Phase::Connected,
            r.expect == Expect::Response(CommandCode::Ping),
            r.capacity == capacity,
            r.point_rate == point_rate,
            r.status == idle_status(),
            r.pending@.len() == 0,
            !r.throttled,
            r.backoff_ms == 0,
    {
        Engine {
            phase: Phase::Connected,
            expect: Expect::Response(CommandCode::Ping),
            capacity,
            point_rate,
            status: DacStatus {
                protocol: 0,
                light_engine_state: 0,
                playback_state: 0,
                source: 0,
                light_engine_flags: 0,
                playback_flags: 0,
                source_flags: 0,
                buffer_fullness: 0,
                point_rate: 0,
                point_count: 0,
            },
            pending: Vec::new(),
            throttled: false,
            backoff_ms: 0,
        }
    }

    /// A session with the DAC that sent `broadcast`: its buffer capacity is
    /// the broadcast's. None when `point_rate` exceeds the DAC's maximum.
    pub fn from_broadcast(broadcast: &Broadcast, point_rate: u32) -> (r: Option<Engine>)
        ensures
            point_rate > broadcast.max_point_rate ==> r is None,
            point_rate <= broadcast.max_point_rate ==> r is Some && {
                let e = r->Some_0;
                &&& e.wf()
                &&& e.phase == Phase::Connected
                &&& e.expect == Expect::Response(CommandCode::Ping)
                &&& e.capacity == broadcast.buffer_capacity
                &&& e.point_rate == point_rate
                &&& e.status == idle_status()
                &&& e.pending@.len() == 0
                &&& !e.throttled
                &&& e.backoff_ms == 0
            },
    {
        if point_rate > broadcast.max_point_rate {
            None
        } else {
            Some(Engine::new(broadcast.buffer_capacity, point_rate))
        }
    }

    /// Stops the session with `res`.
    fn halt(&mut self, res: Result<(), EtherdreamError>) -> (a: Action)
        ensures
            halts(*final(self), a, res),
            final(self).pending@ == old(self).pending@,
            final(self).throttled == old(self).throttled,
            final(self).backoff_ms == old(self).backoff_ms,
            final(self).status == old(self).status,
            keeps_config(*old(self), *final(self)),
    {
        self.phase = Phase::Halted;
        self.expect = Expect::Nothing;
        Action::Finish(res)
    }

    /// Asks for the next batch, or sleeps while the buffer is full.
    fn refill(&mut self) -> (a: Action)
        ensures
            refills(*final(self), a),
            final(self).phase == old(self).phase,
            final(self).status == old(self).status,
            final(self).pending@ == old(self).pending@,
            final(self).throttled == old(self).throttled,
            final(self).backoff_ms == old(self).backoff_ms,
            keeps_config(*old(self), *final(self)),
    {
        let n = batch_size(self.capacity, self.status.buffer_fullness);
        if n == 0 {
            self.expect = Expect::Wake;
            Action::Sleep(WAIT_MS)
        } else {
            self.expect = Expect::Points(n);
            Action::Fetch(n)
        }
    }

    /// Sends the pending batch as a Data command.
    fn send_pending(&mut self) -> (a: Action)
        requires
            0 < old(self).pending@.len() <= MAX_BATCH,
        ensures
            sends(a, CommandCode::Data, data_bytes(old(self).pending@)),
            final(self).expect == Expect::Response(CommandCode::Data),
            final(self).phase == old(self).phase,
            final(self).status == old(self).status,
            final(self).pending@ == old(self).pending@,
            final(self).throttled == old(self).throttled,
            final(self).backoff_ms == old(self).backoff_ms,
            keeps_config(*old(self), *final(self)),
    {
        let frame = encode_data(self.pending.as_slice());
        match frame {
            Ok(bytes) => {
                self.expect = Expect::Response(CommandCode::Data);
                Action::Send(CommandCode::Data, bytes)
            },
            // never taken: a batch of at most MAX_BATCH points fits one command
            Err(e) => self.halt(Err(e)),
        }
    }

    /// Takes the response `r` to the command the engine waits on.
    ///
    /// A response to anything else breaks the pairing of commands and
    /// responses and stops the session with `WrongResponse`. A refusal for want
    /// of room starts the wait for buffer space, keeping the refused batch; any
    /// other refusal, or an acknowledgement from a DAC in emergency stop, stops
    /// the session. An acknowledgement moves the session on: hello → Prepare
    /// (when the DAC needs it) → first batch → Begin → further batches.
    pub fn on_response(&mut self, r: DacResponse) -> (a: Action)
        requires
            old(self).wf(),
        ensures
            final(self).wf(),
            sends_well(*final(self), a),
            keeps_config(*old(self), *final(self)),
            old(self).responded(r, *final(self), a),
    {
        let c = r.command;
        if self.expect != Expect::Response(c) {
            return self.halt(Err(EtherdreamError::WrongResponse));
        }
        self.status = r.status;
        if r.status.is_emergency() {
            let code = if r.acknowledgement == AckCode::Ack {
                AckCode::NackStop
            } else {
                r.acknowledgement
            };
            return self.halt(Err(EtherdreamError::ReceivedNack { code, command: c }));
        }
        match r.acknowledgement {
            AckCode::Ack => {},
            AckCode::NackBufferFull if c == CommandCode::Data => {
                self.throttled = true;
                self.backoff_ms = BACKOFF_START_MS;
                self.expect = Expect::Wake;
                return Action::Sleep(BACKOFF_START_MS);
            },
            code => {
                return self.halt(Err(EtherdreamError::ReceivedNack { code, command: c }));
            },
        }
        if self.phase == Phase::Connected && c == CommandCode::Ping {
            if r.status.needs_prepare() {
                self.phase = Phase::Ready;
                self.expect = Expect::Response(CommandCode::Prepare);
                Action::Send(CommandCode::Prepare, encode_prepare())
            } else {
                self.phase = Phase::Prepared;
                self.refill()
            }
        } else if self.phase == Phase::Ready && c == CommandCode::Prepare {
            self.phase = Phase::Prepared;
            self.refill()
        } else if self.phase == Phase::Prepared && c == CommandCode::Data {
            self.phase = Phase::Primed;
            self.pending = Vec::new();
            let begin = Begin { low_water_mark: 0, point_rate: self.point_rate };
            self.expect = Expect::Response(CommandCode::Begin);
            Action::Send(CommandCode::Begin, begin.serialize())
        } else if self.phase == Phase::Primed && c == CommandCode::Begin {
            self.phase = Phase::Playing;
            self.refill()
        } else if self.phase == Phase::Playing && c == CommandCode::Data {
            self.pending = Vec::new();
            self.refill()
        } else if (self.phase == Phase::Prepared || self.phase == Phase::Playing) && c
            == CommandCode::Ping {
            if !self.throttled {
                self.refill()
            } else if self.status.buffer_fullness < self.capacity {
                self.throttled = false;
                self.backoff_ms = 0;
                self.send_pending()
            } else {
                let next = if self.backoff_ms >= 5 {
                    BACKOFF_MAX_MS
                } else {
                    2 * self.backoff_ms
                };
                self.backoff_ms = next;
                self.expect = Expect::Wake;
                Action::Sleep(next)
            }
        } else {
            self.halt(Err(EtherdreamError::WrongResponse))
        }
    }

    /// What an acknowledgement of command `c` leads to from this state, given
    /// that the status was already taken from the response: `e` is the engine
    /// after it and `a` the action.
    pub open spec fn acked(&self, c: CommandCode, e: Engine, a: Action) -> bool {
        &&& !((self.phase == Phase::Prepared || self.phase == Phase::Playing) && c
            == CommandCode::Ping) ==> {
            &&& e.throttled == self.throttled
            &&& e.backoff_ms == self.backoff_ms
        }
        &&& if self.phase == Phase::Connected && c == CommandCode::Ping {
            if status_needs_prepare(e.status) {
                e.phase == Phase::Ready && sends(a, CommandCode::Prepare, seq![COMMAND_PREPARE])
                    && e.pending@ == self.pending@
            } else {
                e.phase == Phase::Prepared && refills(e, a) && e.pending@ == self.pending@
            }
        } else if self.phase == Phase::Ready && c == CommandCode::Prepare {
            e.phase == Phase::Prepared && refills(e, a) && e.pending@ == self.pending@
        } else if self.phase == Phase::Prepared && c == CommandCode::Data {
            &&& e.phase == Phase::Primed
            &&& e.pending@.len() == 0
            &&& sends(a, CommandCode::Begin, begin_bytes(Begin { low_water_mark: 0, point_rate: self.point_rate }))
        } else if self.phase == Phase::Primed && c == CommandCode::Begin {
            e.phase == Phase::Playing && refills(e, a) && e.pending@ == self.pending@
        } else if self.phase == Phase::Playing && c == CommandCode::Data {
            e.phase == Phase::Playing && refills(e, a) && e.pending@.len() == 0
        } else if (self.phase == Phase::Prepared || self.phase == Phase::Playing) && c
            == CommandCode::Ping {
            &&& e.phase == self.phase
            &&& e.pending@ == self.pending@
            &&& if !self.throttled {
                refills(e, a) && e.backoff_ms == self.backoff_ms && !e.throttled
            } else if e.status.buffer_fullness < self.capacity {
                &&& !e.throttled
                &&& e.backoff_ms == 0
                &&& sends(a, CommandCode::Data, data_bytes(self.pending@))
            } else {
                &&& e.throttled
                &&& e.backoff_ms == next_backoff(self.backoff_ms)
                &&& a == Action::Sleep(next_backoff(self.backoff_ms))
                &&& e.expect == Expect::Wake
            }
        } else {
            halts(e, a, Err(EtherdreamError::WrongResponse))
        }
    }

    /// How the engine `e` after taking response `r` in this state, and the
    /// action `a`, follow from them (see [`Engine::on_response`]).
    pub open spec fn responded(&self, r: DacResponse, e: Engine, a: Action) -> bool {
        if self.expect != Expect::Response(r.command) {
            halts(e, a, Err(EtherdreamError::WrongResponse))
        } else if r.status.light_engine_state == 3 {
            &&& e.status == r.status
            &&& halts(
                e,
                a,
                Err(
                    EtherdreamError::ReceivedNack {
                        code: emergency_code(r.acknowledgement),
                        command: r.command,
                    },
                ),
            )
        } else if r.acknowledgement == AckCode::NackBufferFull && r.command == CommandCode::Data {
            &&& e.status == r.status
            &&& a == Action::Sleep(BACKOFF_START_MS)
            &&& e.expect == Expect::Wake
            &&& e.throttled
            &&& e.backoff_ms == BACKOFF_START_MS
            &&& e.pending@ == self.pending@
            &&& e.phase == self.phase
        } else if r.acknowledgement != AckCode::Ack {
            &&& e.status == r.status
            &&& halts(
                e,
                a,
                Err(EtherdreamError::ReceivedNack { code: r.acknowledgement, command: r.command }),
            )
        } else {
            e.status == r.status && self.acked(r.command, e, a)
        }
    }

    /// Takes a batch from the source. An empty batch ends the stream and the
    /// session; otherwise the batch, cut to the size asked for, is sent as one
    /// Data command and kept until the DAC acknowledges it.
    pub fn on_points(&mut self, points: Vec<Point>) -> (a: Action)
        requires
            old(self).wf(),
        ensures
            final(self).wf(),
            sends_well(*final(self), a),
            keeps_config(*old(self), *final(self)),
            old(self).took_points(points@, *final(self), a),
    {
        let max = match self.expect {
            Expect::Points(n) => n,
            _ => {
                return self.halt(Err(EtherdreamError::WrongResponse));
            },
        };
        if points.len() == 0 {
            return self.halt(Ok(()));
        }
        let ghost input = points@;
        let mut batch = points;
        batch.truncate(max as usize);
        assert(input.len() <= max ==> batch@ =~= input);
        self.pending = batch;
        self.send_pending()
    }

    /// How the engine `e` after taking `points` from the source in this state,
    /// and the action `a`, follow from them (see [`Engine::on_points`]).
    pub open spec fn took_points(&self, points: Seq<Point>, e: Engine, a: Action) -> bool {
        if !(self.expect is Points) {
            halts(e, a, Err(EtherdreamError::WrongResponse))
        } else if points.len() == 0 {
            halts(e, a, Ok(()))
        } else {
            let n = self.expect->Points_0;
            let kept = if points.len() > n {
                points.subrange(0, n as int)
            } else {
                points
            };
            &&& e.pending@ == kept
            &&& sends(a, CommandCode::Data, data_bytes(kept))
            &&& e.phase == self.phase
            &&& e.status == self.status
            &&& e.throttled == self.throttled
            &&& e.backoff_ms == self.backoff_ms
        }
    }

    /// Ends a sleep: the engine pings the DAC for a fresh status.
    pub fn on_wake(&mut self) -> (a: Action)
        requires
            old(self).wf(),
        ensures
            final(self).wf(),
            sends_well(*final(self), a),
            keeps_config(*old(self), *final(self)),
            old(self).woke(*final(self), a),
    {
        if self.expect != Expect::Wake {
            return self.halt(Err(EtherdreamError::WrongResponse));
        }
        self.expect = Expect::Response(CommandCode::Ping);
        Action::Send(CommandCode::Ping, encode_ping())
    }

    /// How the engine `e` after a sleep ended in this state, and the action
    /// `a`, follow from them (see [`Engine::on_wake`]).
    pub open spec fn woke(&self, e: Engine, a: Action) -> bool {
        if self.expect != Expect::Wake {
            halts(e, a, Err(EtherdreamError::WrongResponse))
        } else {
            &&& sends(a, CommandCode::Ping, seq![COMMAND_PING])
            &&& e.phase == self.phase
            &&& e.status == self.status
            &&& e.pending@ == self.pending@
            &&& e.throttled == self.throttled
            &&& e.backoff_ms == self.backoff_ms
        }
    }

    /// Takes the next event and says what to do next.
    ///
    /// Commands and responses pair up strictly: each Send action is followed by
    /// the engine waiting on the response to that very command, nothing else
    /// is sent until it has come, and a response to any other command, or an
    /// event of another kind in its place, stops the session with
    /// `WrongResponse`. No Data command is ever empty: an empty batch from the
    /// source ends the session instead. Cancellation ends the session, and an
    /// I/O failure ends it with that failure.
    pub fn step(&mut self, event: Event) -> (a: Action)
        requires
            old(self).wf(),
        ensures
            old(self).steps_to(event, *final(self), a),
    {
        match event {
            Event::Response(r) => self.on_response(r),
            Event::Points(points) => self.on_points(points),
            Event::Woke => self.on_wake(),
            Event::Cancelled => self.halt(Ok(())),
            Event::Failed(e) => self.halt(Err(e)),
        }
    }

    /// What [`Engine::step`] does: from this state, event `ev` leads to the
    /// engine `e` and the action `a`.
    pub open spec fn steps_to(&self, ev: Event, e: Engine, a: Action) -> bool {
        &&& e.wf()
        &&& sends_well(e, a)
        &&& keeps_config(*self, e)
        &&& self.expect is Response && !(ev is Response) && !(ev is Cancelled) && !(ev is Failed)
            ==> halts(e, a, Err(EtherdreamError::WrongResponse))
        &&& ev is Response ==> self.responded(ev->Response_0, e, a)
        &&& ev is Points ==> self.took_points(ev->Points_0@, e, a)
        &&& ev is Woke ==> self.woke(e, a)
        &&& ev is Cancelled ==> halts(e, a, Ok(()))
        &&& ev is Failed ==> halts(e, a, Err(ev->Failed_0))
    }
}

/// The number of Send actions in `acts`.
pub open spec fn count_sends(acts: Seq<Action>) -> nat
    decreases acts.len(),
{
    if acts.len() == 0 {
        0
    } else {
        count_sends(acts.drop_last()) + if acts.last() is Send {
            1nat
        } else {
            0nat
        }
    }
}

/// The number of responses among `evs`.
pub open spec fn count_responses(evs: Seq<Event>) -> nat
    decreases evs.len(),
{
    if evs.len() == 0 {
        0
    } else {
        count_responses(evs.drop_last()) + if evs.last() is Response {
            1nat
        } else {
            0nat
        }
    }
}

/// `es`, `evs` and `acts` are a run of the engine: each event `evs[k]` takes
/// `es[k]` to `es[k + 1]` with action `acts[k]`.
pub open spec fn is_run(es: Seq<Engine>, evs: Seq<Event>, acts: Seq<Action>) -> bool {
    &&& es.len() == evs.len() + 1
    &&& acts.len() == evs.len()
    &&& forall|k: int| 0 <= k < evs.len() ==> #[trigger] es[k].steps_to(evs[k], es[k + 1], acts[k])
}

/// Over a whole run from a fresh connection, where each 22-byte response is
/// read exactly when the engine waits on one (so no read fails), the responses
/// read are the hello plus one for each command sent, less the one still
/// awaited; so when the run finishes there is exactly one response for each
/// command and one for the hello. Each response answers the command the engine
/// waits on, or the session stops with `WrongResponse`.
pub proof fn lemma_run_pairing(es: Seq<Engine>, evs: Seq<Event>, acts: Seq<Action>)
    requires
        is_run(es, evs, acts),
        es[0].expect is Response,
        forall|k: int| 0 <= k < evs.len() ==> (#[trigger] evs[k] is Response) == (es[k].expect is Response),
    ensures
        count_responses(evs) + (if es.last().expect is Response {
            1int
        } else {
            0int
        }) == count_sends(acts) + 1,
        evs.len() > 0 && acts.last() is Finish ==> count_responses(evs) == count_sends(acts) + 1,
        forall|k: int|
            0 <= k < evs.len() && #[trigger] evs[k] is Response && es[k].expect != Expect::Response(
                evs[k]->Response_0.command,
            ) ==> acts[k] == Action::Finish(Err(EtherdreamError::WrongResponse)),
    decreases evs.len(),
{
    let n = evs.len() as int;
    if n > 0 {
        let es0 = es.drop_last();
        let evs0 = evs.drop_last();
        let acts0 = acts.drop_last();
        assert forall|k: int| 0 <= k < evs0.len() implies #[trigger] es0[k].steps_to(
            evs0[k],
            es0[k + 1],
            acts0[k],
        ) by {
            assert(es[k].steps_to(evs[k], es[k + 1], acts[k]));
        }
        assert forall|k: int| 0 <= k < evs0.len() implies (#[trigger] evs0[k] is Response) == (
        es0[k].expect is Response) by {
            assert(evs[k] is Response == es[k].expect is Response);
        }
        lemma_run_pairing(es0, evs0, acts0);
        assert(es[n - 1].steps_to(evs[n - 1], es[n], acts[n - 1]));
        assert(evs[n - 1] is Response == es[n - 1].expect is Response);
        assert(es0.last() == es[n - 1]);
    }
    assert forall|k: int|
        0 <= k < evs.len() && #[trigger] evs[k] is Response && es[k].expect != Expect::Response(
            evs[k]->Response_0.command,
        ) implies acts[k] == Action::Finish(Err(EtherdreamError::WrongResponse)) by {
        assert(es[k].steps_to(evs[k], es[k + 1], acts[k]));
    }
}

/// While a refused batch waits for room, the reply to each ping sets the
/// next wait to twice the last, at most 10 ms and never under 1 ms, keeping
/// the batch; once the buffer shows room, that same batch is sent again.
pub proof fn lemma_backoff(e: Engine, r: DacResponse, e2: Engine, a: Action)
    requires
        e.wf(),
        e.throttled,
        e.expect == Expect::Response(CommandCode::Ping),
        r.command == CommandCode::Ping,
        r.acknowledgement == AckCode::Ack,
        r.status.light_engine_state != 3,
        e.steps_to(Event::Response(r), e2, a),
    ensures
        BACKOFF_START_MS <= e.backoff_ms <= BACKOFF_MAX_MS,
        r.status.buffer_fullness >= e.capacity ==> {
            &&& a == Action::Sleep(e2.backoff_ms)
            &&& e2.backoff_ms == (if 2 * e.backoff_ms <= BACKOFF_MAX_MS {
                2 * e.backoff_ms
            } else {
                BACKOFF_MAX_MS as int
            })
            &&& BACKOFF_START_MS <= e2.backoff_ms <= BACKOFF_MAX_MS
            &&& e2.throttled
            &&& e2.expect == Expect::Wake
            &&& e2.pending@ == e.pending@
        },
        r.status.buffer_fullness < e.capacity ==> {
            &&& sends(a, CommandCode::Data, data_bytes(e.pending@))
            &&& e2.pending@ == e.pending@
            &&& !e2.throttled
        },
{
}

}
