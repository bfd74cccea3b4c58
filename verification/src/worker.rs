//! The worker side of the bridge: the instruction and notification variants
//! that cross the two queues, the worker's own state machine, and a driver
//! over a scripted transport that replays exactly the decisions a live worker
//! makes.
//!
//! The live worker runs on its own thread against the real transport; every
//! choice it takes — which frame a command turns into, which events a frame,
//! a read failure or the close-grace timer produce, and when the loop stops —
//! is made by the functions in this module.

use vstd::prelude::*;

use crate::bridge;
use crate::bridge::parses_as_url;
use crate::result::WsppResult;

verus! {

/// A closing session waits this long for the peer's confirmation before the
/// worker forces the closed state.
pub const CLOSE_WAIT_TIMEOUT_MS: u64 = 5000;

/// Bound on one transport read, so the worker stays responsive to new
/// commands. A scheduling detail with no protocol meaning.
pub const READ_QUANTUM_MS: u64 = 10;

/// Host-bound notification, delivered in the order the worker produced it.
#[derive(PartialEq, Eq, Debug)]
pub enum Event {
    Open,
    Close,
    Message { data: Vec<u8>, opcode: i32 },
    Pong(Vec<u8>),
    Error(String),
}

/// Worker-bound instruction, executed in enqueue order.
#[derive(PartialEq, Eq, Debug)]
pub enum Command {
    SendText(String),
    SendBinary(Vec<u8>),
    Ping(Vec<u8>),
    Close { code: u16, reason: Option<String> },
    Shutdown,
}

/// Type tag of one transport frame.
#[derive(Clone, Copy, PartialEq, Eq, Structural, Debug)]
pub enum OpCode {
    Text,
    Binary,
    Ping,
    Pong,
    Close,
    Continuation,
}

/// What one bounded-wait transport read yielded.
#[derive(PartialEq, Eq, Debug)]
pub enum ReadOutcome {
    Frame(OpCode, Vec<u8>),
    Timeout,
    Failed(String),
}

/// A frame the worker hands to the transport.
#[derive(PartialEq, Eq, Debug)]
pub enum FrameOut {
    Text(String),
    Binary(Vec<u8>),
    Ping(Vec<u8>),
    Close { code: u16, reason: String },
}

/// What one command asks of the transport, and how a failure of that send is
/// to be treated afterwards.
#[derive(PartialEq, Eq, Debug)]
pub enum CmdStep {
    /// Send a data or ping frame; a failure is fatal and surfaced.
    Send(FrameOut),
    /// Send a close frame and keep running, awaiting the peer's confirmation.
    SendClose(FrameOut),
    /// Send a close frame best-effort, report the close and stop at once.
    SendCloseAndStop(FrameOut),
}

/// Events one decision produced, and whether the worker loop stops after
/// reporting them.
#[derive(PartialEq, Eq, Debug)]
pub struct StepEvents {
    pub events: Vec<Event>,
    pub stop: bool,
}

/// Why the worker could not be prepared.
#[derive(Debug)]
pub enum WorkerStartError {
    InvalidUrl(url::ParseError),
    RuntimeInit(std::io::Error),
}

impl WorkerStartError {
    pub fn to_wspp_result(&self) -> (r: WsppResult)
        ensures
            self is InvalidUrl ==> r == WsppResult::InvalidArgument,
            self is RuntimeInit ==> r == WsppResult::IoError,
    {
        match self {
            Self::InvalidUrl(_) => WsppResult::InvalidArgument,
            Self::RuntimeInit(_) => WsppResult::IoError,
        }
    }
}

/// Everything a live worker thread owns: the parsed endpoint, its private
/// single-threaded runtime, and the worker ends of the two queues.
pub struct WorkerLaunch {
    pub url: url::Url,
    pub compression: bool,
    pub runtime: tokio::runtime::Runtime,
    pub event_tx: std::sync::mpsc::Sender<Event>,
    pub cmd_rx: std::sync::mpsc::Receiver<Command>,
}

/// Prepares one worker: builds its runtime, parses the endpoint and lays the
/// two queues. Returns the host ends and the bundle a worker thread runs on.
/// The runtime is tried first, so an endpoint complaint means the runtime was
/// fine.
pub fn spawn_ws_worker(uri: String, compression: bool) -> (r: Result<
    (std::sync::mpsc::Sender<Command>, std::sync::mpsc::Receiver<Event>, WorkerLaunch),
    WorkerStartError,
>)
    ensures
        r is Ok ==> parses_as_url(uri@),
        r matches Err(e) && e is InvalidUrl ==> !parses_as_url(uri@),
        r matches Ok(t) ==> t.2.compression == compression,
{
    let runtime = match bridge::build_worker_runtime() {
        Ok(rt) => rt,
        Err(e) => {
            return Err(WorkerStartError::RuntimeInit(e));
        },
    };
    let url = match bridge::parse_endpoint(uri.as_str()) {
        Ok(u) => u,
        Err(e) => {
            return Err(WorkerStartError::InvalidUrl(e));
        },
    };
    let (cmd_tx, cmd_rx) = bridge::queue_pair::<Command>();
    let (event_tx, event_rx) = bridge::queue_pair::<Event>();
    Ok((cmd_tx, event_rx, WorkerLaunch { url, compression, runtime, event_tx, cmd_rx }))
}

/// The close-grace timer: it has fired exactly when a close was requested at
/// some instant and at least `timeout_ms` have passed since. An instant
/// earlier than the request counts as no time passed.
pub open spec fn close_deadline_passed(started_at: Option<u64>, now_ms: u64, timeout_ms: u64) -> bool {
    match started_at {
        Some(s) => (if now_ms >= s { now_ms - s } else { 0 }) >= timeout_ms,
        None => false,
    }
}

pub fn close_timed_out(started_at: Option<u64>, now_ms: u64, timeout_ms: u64) -> (r: bool)
    ensures
        r == close_deadline_passed(started_at, now_ms, timeout_ms),
{
    match started_at {
        Some(s) => (if now_ms >= s { now_ms - s } else { 0 }) >= timeout_ms,
        None => false,
    }
}

/// The events a frame of the given opcode turns into: text, binary and ping
/// frames surface as messages tagged 1, 2 and 9, a pong as `Pong`, a close
/// frame as the terminal `Close`, and a continuation frame as nothing.
pub open spec fn frame_events(opcode: OpCode, payload: Vec<u8>) -> Seq<Event> {
    match opcode {
        OpCode::Text => seq![Event::Message { data: payload, opcode: 1 }],
        OpCode::Binary => seq![Event::Message { data: payload, opcode: 2 }],
        OpCode::Ping => seq![Event::Message { data: payload, opcode: 9 }],
        OpCode::Pong => seq![Event::Pong(payload)],
        OpCode::Close => seq![Event::Close],
        OpCode::Continuation => Seq::<Event>::empty(),
    }
}

/// Turns one received frame into its events. The mapping is exhaustive over
/// the opcodes, and only a close frame stops the worker.
pub fn frame_step(opcode: OpCode, payload: Vec<u8>) -> (step: StepEvents)
    ensures
        step.events@ =~= frame_events(opcode, payload),
        step.stop == (opcode is Close),
{
    match opcode {
        OpCode::Text => StepEvents { events: vec![Event::Message { data: payload, opcode: 1 }], stop: false },
        OpCode::Binary => StepEvents { events: vec![Event::Message { data: payload, opcode: 2 }], stop: false },
        OpCode::Ping => StepEvents { events: vec![Event::Message { data: payload, opcode: 9 }], stop: false },
        OpCode::Pong => StepEvents { events: vec![Event::Pong(payload)], stop: false },
        OpCode::Close => StepEvents { events: vec![Event::Close], stop: true },
        OpCode::Continuation => StepEvents { events: Vec::new(), stop: false },
    }
}

/// What the attempt to open the transport turns into: success is reported as
/// `Open` and the loop runs on; a failure is reported as `Error` alone and
/// the worker is done — the one path that ends without a `Close`.
pub fn on_open_result(outcome: Result<(), String>) -> (step: StepEvents)
    ensures
        outcome is Ok ==> step.events@ =~= seq![Event::Open] && !step.stop,
        outcome matches Err(m) ==> step.events@ =~= seq![Event::Error(m)] && step.stop,
{
    match outcome {
        Ok(()) => StepEvents { events: vec![Event::Open], stop: false },
        Err(m) => StepEvents { events: vec![Event::Error(m)], stop: true },
    }
}

/// Worker-local state: whether the host asked to close, and when the first
/// such request started the grace timer.
#[derive(Clone, Copy, PartialEq, Eq, Debug)]
pub struct Worker {
    pub closing_requested: bool,
    pub close_started_at: Option<u64>,
}

impl Worker {
    pub fn new() -> (w: Worker)
        ensures
            !w.closing_requested,
            w.close_started_at is None,
    {
        Worker { closing_requested: false, close_started_at: None }
    }

    /// Decides what one dequeued command asks of the transport. A close
    /// request marks the session closing and arms the grace timer, the first
    /// time only; a shutdown asks for a best-effort close and an immediate
    /// stop; the data commands leave the worker state untouched.
    pub fn on_command(&mut self, cmd: Command, now_ms: u64) -> (step: CmdStep)
        ensures
            cmd matches Command::SendText(m) ==> step == CmdStep::Send(FrameOut::Text(m))
                && *final(self) == *old(self),
            cmd matches Command::SendBinary(d) ==> step == CmdStep::Send(FrameOut::Binary(d))
                && *final(self) == *old(self),
            cmd matches Command::Ping(d) ==> step == CmdStep::Send(FrameOut::Ping(d))
                && *final(self) == *old(self),
            cmd matches Command::Close { code, reason } ==> {
                &&& final(self).closing_requested
                &&& final(self).close_started_at == (if old(self).close_started_at is Some {
                    old(self).close_started_at
                } else {
                    Some(now_ms)
                })
                &&& step matches CmdStep::SendClose(FrameOut::Close { code: c, reason: t })
                    && c == code
                    && (reason matches Some(s) ==> t@ == s@)
                    && (reason is None ==> t@ =~= Seq::<char>::empty())
            },
            cmd is Shutdown ==> *final(self) == *old(self)
                && (step matches CmdStep::SendCloseAndStop(FrameOut::Close { code: c, reason: t })
                    && c == 1001
                    && t@ == "Going away"@),
    {
        match cmd {
            Command::SendText(m) => CmdStep::Send(FrameOut::Text(m)),
            Command::SendBinary(d) => CmdStep::Send(FrameOut::Binary(d)),
            Command::Ping(d) => CmdStep::Send(FrameOut::Ping(d)),
            Command::Close { code, reason } => {
                self.closing_requested = true;
                if self.close_started_at.is_none() {
                    self.close_started_at = Some(now_ms);
                }
                let text = match reason {
                    Some(s) => s,
                    None => String::new(),
                };
                CmdStep::SendClose(FrameOut::Close { code, reason: text })
            },
            Command::Shutdown => CmdStep::SendCloseAndStop(
                FrameOut::Close { code: 1001, reason: "Going away".to_owned() },
            ),
        }
    }

    /// A failed send of a data or ping frame is fatal: the failure is
    /// surfaced, the terminal close follows, the loop stops.
    pub fn data_send_failed(&self, msg: String) -> (step: StepEvents)
        ensures
            step.events@ =~= seq![Event::Error(msg), Event::Close],
            step.stop,
    {
        StepEvents { events: vec![Event::Error(msg), Event::Close], stop: true }
    }

    /// A failed send of a requested close frame: when the transport was
    /// already closed the failure is expected and only the terminal close is
    /// reported; otherwise the failure is surfaced first. Either way the loop
    /// stops.
    pub fn close_send_failed(&self, transport_closed: bool, msg: String) -> (step: StepEvents)
        ensures
            transport_closed ==> step.events@ =~= seq![Event::Close],
            !transport_closed ==> step.events@ =~= seq![Event::Error(msg), Event::Close],
            step.stop,
    {
        if transport_closed {
            StepEvents { events: vec![Event::Close], stop: true }
        } else {
            StepEvents { events: vec![Event::Error(msg), Event::Close], stop: true }
        }
    }

    /// The host dropped its command handle and nothing is pending: the worker
    /// reports the terminal close and stops.
    pub fn commands_closed(&self) -> (step: StepEvents)
        ensures
            step.events@ =~= seq![Event::Close],
            step.stop,
    {
        StepEvents { events: vec![Event::Close], stop: true }
    }

    /// Whether the close-grace timer has fired at this instant.
    pub fn close_due(&self, now_ms: u64) -> (r: bool)
        ensures
            r == close_deadline_passed(self.close_started_at, now_ms, CLOSE_WAIT_TIMEOUT_MS),
    {
        close_timed_out(self.close_started_at, now_ms, CLOSE_WAIT_TIMEOUT_MS)
    }

    /// A failed transport read during an expected disconnect is swallowed;
    /// any other is surfaced. Either way the terminal close follows and the
    /// loop stops.
    pub fn on_read_error(&self, msg: String) -> (step: StepEvents)
        ensures
            self.closing_requested ==> step.events@ =~= seq![Event::Close],
            !self.closing_requested ==> step.events@ =~= seq![Event::Error(msg), Event::Close],
            step.stop,
    {
        if self.closing_requested {
            StepEvents { events: vec![Event::Close], stop: true }
        } else {
            StepEvents { events: vec![Event::Error(msg), Event::Close], stop: true }
        }
    }

    /// Turns one bounded-wait read into its events: a frame by the opcode
    /// mapping, a timeout into nothing, a failure by the disconnect rule.
    pub fn on_read(&self, outcome: ReadOutcome) -> (step: StepEvents)
        ensures
            outcome matches ReadOutcome::Frame(op, data) ==> step.events@ =~= frame_events(op, data)
                && step.stop == (op is Close),
            outcome is Timeout ==> step.events@ =~= Seq::<Event>::empty() && !step.stop,
            outcome matches ReadOutcome::Failed(m) ==> step.stop
                && (self.closing_requested ==> step.events@ =~= seq![Event::Close])
                && (!self.closing_requested ==> step.events@ =~= seq![Event::Error(m), Event::Close]),
    {
        match outcome {
            ReadOutcome::Frame(op, data) => frame_step(op, data),
            ReadOutcome::Timeout => StepEvents { events: Vec::new(), stop: false },
            ReadOutcome::Failed(m) => self.on_read_error(m),
        }
    }
}

/// Whether some queued command asks to close the connection.
pub open spec fn contains_close_command(s: Seq<Command>) -> bool {
    exists|i: int| 0 <= i < s.len() && s[i] is Close
}

/// Whether some queued command asks to shut the worker down.
pub open spec fn contains_shutdown_command(s: Seq<Command>) -> bool {
    exists|i: int| 0 <= i < s.len() && (#[trigger] s[i]) is Shutdown
}

/// The frame one command turns into: its kind, and its payload value for
/// value; a close request without a reason carries an empty one, and a
/// shutdown carries the going-away close.
pub open spec fn frame_matches_command(f: FrameOut, c: Command) -> bool {
    match c {
        Command::SendText(m) => f matches FrameOut::Text(t) && t == m,
        Command::SendBinary(d) => f matches FrameOut::Binary(b) && b == d,
        Command::Ping(d) => f matches FrameOut::Ping(b) && b == d,
        Command::Close { code, reason } => f matches FrameOut::Close { code: fc, reason: fr }
            && fc == code && fr@ == (match reason {
            Some(s) => s@,
            None => Seq::<char>::empty(),
        }),
        Command::Shutdown => f matches FrameOut::Close { code: fc, reason: fr } && fc == 1001
            && fr@ == "Going away"@,
    }
}

/// A script that asks to close once and then hears nothing from the peer:
/// one close command up front, every read a timeout, and enough reads for
/// the grace period to elapse.
pub open spec fn lone_close_script(cmds: Seq<Command>, reads: Seq<ReadOutcome>) -> bool {
    &&& cmds.len() == 1
    &&& cmds[0] is Close
    &&& (forall|i: int| 0 <= i < reads.len() ==> reads[i] is Timeout)
    &&& reads.len() * (READ_QUANTUM_MS as int) >= CLOSE_WAIT_TIMEOUT_MS as int
}

/// What one scripted worker run produced: the events in order, the frames
/// handed to the transport in order, the clock when the loop ended, and
/// whether it ended by its own decision rather than by the script running
/// out.
#[derive(PartialEq, Eq, Debug)]
pub struct SimRun {
    pub events: Vec<Event>,
    pub frames: Vec<FrameOut>,
    pub end_ms: u64,
    pub stopped: bool,
}

/// Replays one worker lifetime against a scripted transport: the given open
/// outcome, the commands queued at the start, then one scripted read per
/// iteration, the clock advancing by the read quantum on each timeout. Every
/// send the script's transport accepts.
///
/// An open failure is reported as `Error` alone, with nothing before or
/// after. On a successful open the first event delivered is `Open`, no event
/// follows a terminal `Close`, and every self-decided stop ends in `Close`.
/// A script that closes once and then hears only silence is forced closed
/// exactly when the grace period has elapsed.
#[verifier::loop_isolation(false)]
pub fn run_worker(
    open_result: Result<(), String>,
    cmds: Vec<Command>,
    reads: Vec<ReadOutcome>,
    start_ms: u64,
) -> (run: SimRun)
    requires
        start_ms as int + (READ_QUANTUM_MS as int) * reads@.len() <= u64::MAX as int,
    ensures
        open_result matches Err(m) ==> run.events@ =~= seq![Event::Error(m)] && run.stopped
            && run.end_ms == start_ms && run.frames@.len() == 0,
        open_result is Ok ==> run.events@.len() >= 1 && run.events@[0] == Event::Open,
        open_result is Ok && run.stopped ==> run.events@.last() == Event::Close,
        open_result is Ok ==> forall|i: int|
            0 <= i < run.events@.len() - 1 ==> run.events@[i] != Event::Close,
        open_result is Ok ==> forall|i: int|
            0 <= i < run.events@.len() && (#[trigger] run.events@[i]) is Error ==> run.stopped
                && i == run.events@.len() - 2 && run.events@.last() == Event::Close,
        open_result is Ok ==> run.frames@.len() <= cmds@.len() && (forall|i: int|
            0 <= i < run.frames@.len() ==> frame_matches_command(
                #[trigger] run.frames@[i],
                cmds@[i],
            )),
        open_result is Ok && !contains_shutdown_command(cmds@) ==> run.frames@.len()
            == cmds@.len(),
        open_result is Ok && lone_close_script(cmds@, reads@) ==> run.events@ =~= seq![
            Event::Open,
            Event::Close,
        ] && run.stopped && run.end_ms == start_ms + CLOSE_WAIT_TIMEOUT_MS,
{
    let ghost cmds0 = cmds@;
    let ghost reads0 = reads@;
    let ghost hyp = open_result is Ok && lone_close_script(cmds0, reads0);

    let mut cmds = cmds;
    let mut reads = reads;
    let mut w = Worker::new();
    let mut events: Vec<Event> = Vec::new();
    let mut frames: Vec<FrameOut> = Vec::new();

    let ghost opened_ok = open_result is Ok;
    let mut opened = on_open_result(open_result);
    events.append(&mut opened.events);
    if opened.stop {
        return SimRun { events, frames, end_ms: start_ms, stopped: true };
    }

    let ghost mut k: int = 0;
    proof {
        assert(cmds0.skip(0) =~= cmds0);
    }
    while cmds.len() > 0
        invariant
            opened_ok == (open_result is Ok),
            opened_ok,
            hyp == (opened_ok && lone_close_script(cmds0, reads0)),
            0 <= k <= cmds0.len(),
            cmds@ =~= cmds0.skip(k),
            events@ =~= seq![Event::Open],
            frames@.len() == k,
            forall|i: int| 0 <= i < k ==> frame_matches_command(#[trigger] frames@[i], cmds0[i]),
            w.closing_requested == contains_close_command(cmds0.take(k)),
            w.close_started_at == (if w.closing_requested {
                Some(start_ms)
            } else {
                None::<u64>
            }),
        decreases cmds@.len(),
    {
        let cmd = cmds.remove(0);
        proof {
            assert(cmd == cmds0[k]);
            assert(cmds0.skip(k).remove(0) =~= cmds0.skip(k + 1));
        }
        let step = w.on_command(cmd, start_ms);
        match step {
            CmdStep::Send(out) => {
                frames.push(out);
            },
            CmdStep::SendClose(out) => {
                frames.push(out);
            },
            CmdStep::SendCloseAndStop(out) => {
                frames.push(out);
                events.push(Event::Close);
                proof {
                    if hyp {
                        assert(cmds0[k] is Close);
                        assert(false);
                    }
                    assert(cmds0[k] is Shutdown);
                    assert(contains_shutdown_command(cmds0));
                }
                return SimRun { events, frames, end_ms: start_ms, stopped: true };
            },
        }
        proof {
            assert(cmds0.take(k + 1) =~= cmds0.take(k).push(cmds0[k]));
            if cmds0[k] is Close {
                assert(cmds0.take(k + 1)[k] is Close);
                assert(contains_close_command(cmds0.take(k + 1)));
            } else {
                assert(contains_close_command(cmds0.take(k + 1))
                    == contains_close_command(cmds0.take(k))) by {
                    if contains_close_command(cmds0.take(k + 1)) {
                        let i = choose|i: int|
                            0 <= i < cmds0.take(k + 1).len() && (#[trigger] cmds0.take(k + 1)[i]) is Close;
                        assert(i < k);
                        assert(cmds0.take(k)[i] is Close);
                    }
                }
            }
            k = k + 1;
        }
    }
    proof {
        assert(k == cmds0.len());
        assert(cmds0.take(k) =~= cmds0);
        if hyp {
            assert(cmds0[0] is Close);
            assert(contains_close_command(cmds0));
        }
    }

    let mut now: u64 = start_ms;
    while reads.len() > 0
        invariant
            opened_ok == (open_result is Ok),
            opened_ok,
            hyp == (opened_ok && lone_close_script(cmds0, reads0)),
            now as int + (READ_QUANTUM_MS as int) * reads@.len() <= u64::MAX as int,
            events@.len() >= 1 && events@[0] == Event::Open,
            forall|i: int| 0 <= i < events@.len() ==> events@[i] != Event::Close,
            forall|i: int| 0 <= i < events@.len() ==> !((#[trigger] events@[i]) is Error),
            frames@.len() == cmds0.len(),
            forall|i: int|
                0 <= i < frames@.len() ==> frame_matches_command(#[trigger] frames@[i], cmds0[i]),
            w.closing_requested == contains_close_command(cmds0),
            w.close_started_at == (if w.closing_requested {
                Some(start_ms)
            } else {
                None::<u64>
            }),
            start_ms <= now,
            hyp ==> {
                &&& events@ =~= seq![Event::Open]
                &&& w.closing_requested
                &&& (forall|i: int| 0 <= i < reads@.len() ==> reads@[i] is Timeout)
                &&& reads@.len() <= reads0.len()
                &&& now as int == start_ms as int + (READ_QUANTUM_MS as int) * (reads0.len()
                    - reads@.len())
                &&& now as int <= start_ms as int + CLOSE_WAIT_TIMEOUT_MS as int
            },
        decreases reads@.len(),
    {
        if w.close_due(now) {
            events.push(Event::Close);
            return SimRun { events, frames, end_ms: now, stopped: true };
        }
        let ghost reads_pre = reads@;
        let outcome = reads.remove(0);
        proof {
            assert(outcome == reads_pre[0]);
            assert(reads_pre.remove(0) =~= reads_pre.skip(1));
        }
        let is_timeout = match &outcome {
            ReadOutcome::Timeout => true,
            _ => false,
        };
        let ghost outcome0 = outcome;
        let mut step = w.on_read(outcome);
        let ghost step_events = step.events@;
        let ghost events_pre = events@;
        events.append(&mut step.events);
        if step.stop {
            proof {
                match outcome0 {
                    ReadOutcome::Frame(op, data) => {
                        assert(step_events =~= seq![Event::Close]);
                    },
                    ReadOutcome::Timeout => {
                        assert(false);
                    },
                    ReadOutcome::Failed(m) => {},
                }
                assert(events@.last() == Event::Close);
                assert forall|i: int|
                    0 <= i < events@.len() && (#[trigger] events@[i]) is Error implies i
                    == events@.len() - 2 by {
                    if i < events_pre.len() {
                        assert(!(events_pre[i] is Error));
                    }
                }
                if hyp {
                    assert(outcome0 is Timeout);
                    assert(false);
                }
            }
            return SimRun { events, frames, end_ms: now, stopped: true };
        }
        if is_timeout {
            now = now + READ_QUANTUM_MS;
        }
    }
    // the script ran out; one last look at the grace timer, as the live loop
    // would take before its next read
    if w.close_due(now) {
        events.push(Event::Close);
        return SimRun { events, frames, end_ms: now, stopped: true };
    }
    proof {
        if hyp {
            assert(false);
        }
    }
    SimRun { events, frames, end_ms: now, stopped: false }
}

} // verus!
