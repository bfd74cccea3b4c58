//! The host-owned session: a lifecycle state machine driven by non-blocking
//! calls, holding the host ends of the two queues and the callback table.
//!
//! Every operation follows the transition table: `connect` is legal from
//! `New` and `Closed` only and moves to `Connecting`; the send operations are
//! legal while `Connected`; `close` is legal while a worker exists and moves
//! to `Closing` at once, ahead of the peer's confirmation; `shutdown` always
//! ends in `Closed`. `poll` drains whatever events are queued, dispatches
//! each in order, and stops a drain the moment a terminal event is processed.

use vstd::prelude::*;

use crate::bridge;
use crate::bridge::RecvPoll;
use crate::bridge::parses_as_url;
use crate::callback::CallbackCall;
use crate::callback::Callbacks;
use crate::callback::no_callbacks;
use crate::result::WsppResult;
use crate::state::WsState;
use crate::state::is_active_state;
use crate::worker;
use crate::worker::Command;
use crate::worker::Event;
use crate::worker::WorkerLaunch;

verus! {

/// What a session looks like from outside: its state, whether each handle
/// and the pending worker bundle exist, the callback table, the endpoint it
/// was built for, and the log of every command handed to the worker queue,
/// in order. Whether a handed command is still delivered when the worker has
/// already exited is the queue's affair; the log records the handing.
pub ghost struct SessionView {
    pub state: WsState,
    pub has_cmd: bool,
    pub has_rx: bool,
    pub has_launch: bool,
    pub callbacks: Callbacks,
    pub uri: Seq<char>,
    pub compression: bool,
    pub sent: Seq<Command>,
}

/// The session invariant: the two channel handles exist together, and they
/// exist exactly while a worker may be alive.
pub open spec fn view_wf(v: SessionView) -> bool {
    &&& v.has_cmd == v.has_rx
    &&& v.has_cmd == is_active_state(v.state)
}

/// States in which enqueueing a data or ping frame is legal.
pub open spec fn send_allowed(s: WsState) -> bool {
    s is Connected
}

/// The two events that end a session: after either is processed the state is
/// `Closed` and nothing logically follows.
pub open spec fn is_terminal_event(e: Event) -> bool {
    e is Close || e is Error
}

/// How one dispatched event changes the session: `Open` marks it connected;
/// a message or pong changes nothing; a terminal event closes it and
/// releases the handles and any pending launch.
pub open spec fn dispatch_step(v: SessionView, e: Event) -> SessionView {
    match e {
        Event::Open => SessionView { state: WsState::Connected, ..v },
        Event::Message { .. } => v,
        Event::Pong(..) => v,
        Event::Close => SessionView {
            state: WsState::Closed,
            has_cmd: false,
            has_rx: false,
            has_launch: false,
            ..v
        },
        Event::Error(..) => SessionView {
            state: WsState::Closed,
            has_cmd: false,
            has_rx: false,
            has_launch: false,
            ..v
        },
    }
}

/// Which callback invocation one dispatched event asks for: the slot of its
/// kind when filled, carrying the event's data; nothing when empty.
pub open spec fn dispatch_call(cbs: Callbacks, e: Event) -> Option<CallbackCall> {
    match e {
        Event::Open => if cbs.on_open {
            Some(CallbackCall::Open)
        } else {
            None
        },
        Event::Message { data, opcode } => if cbs.on_message {
            Some(CallbackCall::Message { data, opcode })
        } else {
            None
        },
        Event::Pong(data) => if cbs.on_pong {
            Some(CallbackCall::Pong { data })
        } else {
            None
        },
        Event::Close => if cbs.on_close {
            Some(CallbackCall::Close)
        } else {
            None
        },
        Event::Error(message) => if cbs.on_error {
            Some(CallbackCall::Error { message })
        } else {
            None
        },
    }
}

/// The session after a drain has dispatched these events in order.
pub open spec fn poll_fold(v: SessionView, evs: Seq<Event>) -> SessionView
    decreases evs.len(),
{
    if evs.len() == 0 {
        v
    } else {
        dispatch_step(poll_fold(v, evs.drop_last()), evs.last())
    }
}

/// The callback invocations a drain of these events asks for, in order.
pub open spec fn calls_of(cbs: Callbacks, evs: Seq<Event>) -> Seq<CallbackCall>
    decreases evs.len(),
{
    if evs.len() == 0 {
        Seq::<CallbackCall>::empty()
    } else {
        calls_of(cbs, evs.drop_last()) + (match dispatch_call(cbs, evs.last()) {
            Some(c) => seq![c],
            None => Seq::<CallbackCall>::empty(),
        })
    }
}

/// Law: once a terminal event is processed the session is closed — the state
/// is `Closed`, both channel handles and any pending launch are released,
/// and neither a send nor a close is legal any more, so by their contracts
/// every later `send_message`, `send_binary`, `ping` and `close` returns
/// `InvalidState`, changes nothing, and hands nothing to any queue.
pub proof fn lemma_terminal_event_closes(v: SessionView, e: Event)
    requires
        is_terminal_event(e),
    ensures
        dispatch_step(v, e).state is Closed,
        !dispatch_step(v, e).has_cmd,
        !dispatch_step(v, e).has_rx,
        !dispatch_step(v, e).has_launch,
        !send_allowed(dispatch_step(v, e).state),
        !is_active_state(dispatch_step(v, e).state),
{
}

/// Law: a drain whose last processed event is terminal leaves the session
/// closed, with both channel handles and any pending launch released and
/// every send or close illegal — whatever was drained before it.
pub proof fn lemma_terminal_drain_closes(v: SessionView, evs: Seq<Event>)
    requires
        evs.len() > 0,
        is_terminal_event(evs.last()),
    ensures
        poll_fold(v, evs).state is Closed,
        !poll_fold(v, evs).has_cmd,
        !poll_fold(v, evs).has_rx,
        !poll_fold(v, evs).has_launch,
        !send_allowed(poll_fold(v, evs).state),
        !is_active_state(poll_fold(v, evs).state),
{
    lemma_terminal_event_closes(poll_fold(v, evs.drop_last()), evs.last());
}

/// One session: the lifecycle state, the endpoint it was built for, the host
/// ends of the two queues while a worker exists, the prepared worker bundle
/// until a thread picks it up, and the callback table.
pub struct WsppWsImpl {
    state: WsState,
    uri: String,
    compression: bool,
    event_rx: Option<std::sync::mpsc::Receiver<Event>>,
    cmd_tx: Option<std::sync::mpsc::Sender<Command>>,
    launch: Option<WorkerLaunch>,
    pub callbacks: Callbacks,
    sent: Ghost<Seq<Command>>,
}

impl View for WsppWsImpl {
    type V = SessionView;

    closed spec fn view(&self) -> SessionView {
        SessionView {
            state: self.state,
            has_cmd: self.cmd_tx is Some,
            has_rx: self.event_rx is Some,
            has_launch: self.launch is Some,
            callbacks: self.callbacks,
            uri: self.uri@,
            compression: self.compression,
            sent: self.sent@,
        }
    }
}

impl WsppWsImpl {
    /// A fresh session for this endpoint: state `New`, no worker, no
    /// handles, every callback slot empty, nothing handed to any queue yet.
    pub fn new(uri: &str, compression: bool) -> (s: Self)
        ensures
            view_wf(s@),
            s@.state is New,
            !s@.has_cmd,
            !s@.has_rx,
            !s@.has_launch,
            s@.callbacks == no_callbacks(),
            s@.uri == uri@,
            s@.compression == compression,
            s@.sent =~= Seq::<Command>::empty(),
    {
        WsppWsImpl {
            state: WsState::New,
            uri: uri.to_owned(),
            compression,
            event_rx: None,
            cmd_tx: None,
            launch: None,
            callbacks: Callbacks::default(),
            sent: Ghost(Seq::empty()),
        }
    }

    /// Starts a connection attempt. Illegal while a worker may already
    /// exist; from `New` or `Closed` it prepares a worker and moves to
    /// `Connecting`, or reports why the worker could not be prepared and
    /// ends `Closed`: `InvalidArgument` exactly when the endpoint does not
    /// parse, `IoError` when the runtime could not be built.
    pub fn connect(&mut self) -> (r: Result<WsppResult, WsppResult>)
        requires
            view_wf(old(self)@),
        ensures
            view_wf(final(self)@),
            final(self)@.uri == old(self)@.uri,
            final(self)@.compression == old(self)@.compression,
            final(self)@.callbacks == old(self)@.callbacks,
            final(self)@.sent == old(self)@.sent,
            is_active_state(old(self)@.state) ==> r == Err::<WsppResult, WsppResult>(
                WsppResult::InvalidState,
            ) && final(self)@ == old(self)@,
            !is_active_state(old(self)@.state) ==> match r {
                Ok(v) => v == WsppResult::Success && final(self)@.state is Connecting
                    && final(self)@.has_cmd && final(self)@.has_rx && final(self)@.has_launch
                    && parses_as_url(old(self)@.uri),
                Err(e) => (e == WsppResult::InvalidArgument || e == WsppResult::IoError)
                    && final(self)@.state is Closed && !final(self)@.has_cmd
                    && !final(self)@.has_rx && !final(self)@.has_launch && (e
                    == WsppResult::InvalidArgument ==> !parses_as_url(old(self)@.uri)),
            },
            !is_active_state(old(self)@.state) && !parses_as_url(old(self)@.uri) ==> r is Err,
    {
        if matches!(self.state, WsState::Connecting | WsState::Connected | WsState::Closing) {
            return Err(WsppResult::InvalidState);
        }
        self.cleanup();
        match worker::spawn_ws_worker(self.uri.clone(), self.compression) {
            Ok((cmd_tx, event_rx, launch)) => {
                self.cmd_tx = Some(cmd_tx);
                self.event_rx = Some(event_rx);
                self.launch = Some(launch);
                self.state = WsState::Connecting;
                Ok(WsppResult::Success)
            },
            Err(err) => {
                self.state = WsState::Closed;
                Err(err.to_wspp_result())
            },
        }
    }

    /// Hands out the prepared worker bundle, once, for a thread to run.
    pub fn take_launch(&mut self) -> (r: Option<WorkerLaunch>)
        requires
            view_wf(old(self)@),
        ensures
            view_wf(final(self)@),
            (r is Some) == old(self)@.has_launch,
            final(self)@ == (SessionView { has_launch: false, ..old(self)@ }),
    {
        self.launch.take()
    }

    /// Drains the events queued right now without blocking, dispatches each
    /// in order, and returns how many were processed. The invocations the
    /// filled callback slots ask for are appended to `calls` for the caller
    /// to perform. With no worker nothing happens; a drain stops the moment
    /// a terminal event is processed, and the handles are not restored.
    pub fn poll(&mut self, calls: &mut Vec<CallbackCall>) -> (count: u64)
        requires
            view_wf(old(self)@),
        ensures
            view_wf(final(self)@),
            final(self)@.callbacks == old(self)@.callbacks,
            final(self)@.uri == old(self)@.uri,
            final(self)@.compression == old(self)@.compression,
            final(self)@.sent == old(self)@.sent,
            !old(self)@.has_rx ==> count == 0,
            count == 0 ==> final(self)@ == old(self)@ && final(calls)@ == old(calls)@,
            exists|evs: Seq<Event>|
                {
                    &&& evs.len() == count as int
                    &&& final(self)@ == #[trigger] poll_fold(old(self)@, evs)
                    &&& final(calls)@ == old(calls)@ + calls_of(old(self)@.callbacks, evs)
                    &&& forall|i: int| 0 <= i < evs.len() - 1 ==> !is_terminal_event(#[trigger] evs[i])
                },
    {
        let ghost v0 = old(self)@;
        let rx = match self.event_rx.take() {
            Some(rx) => rx,
            None => {
                proof {
                    let evs = Seq::<Event>::empty();
                    assert(poll_fold(v0, evs) == v0);
                    assert(final(calls)@ =~= old(calls)@ + calls_of(v0.callbacks, evs));
                }
                return 0;
            },
        };
        let mut count: u64 = 0;
        let ghost mut evs: Seq<Event> = Seq::<Event>::empty();
        loop
            invariant
                view_wf(v0),
                v0 == old(self)@,
                v0.has_rx,
                self.event_rx is None,
                self@ == (SessionView { has_rx: false, ..poll_fold(v0, evs) }),
                poll_fold(v0, evs).has_cmd,
                poll_fold(v0, evs).has_rx,
                poll_fold(v0, evs).callbacks == v0.callbacks,
                poll_fold(v0, evs).uri == v0.uri,
                poll_fold(v0, evs).compression == v0.compression,
                poll_fold(v0, evs).sent == v0.sent,
                is_active_state(poll_fold(v0, evs).state),
                count as int == evs.len(),
                forall|i: int| 0 <= i < evs.len() ==> !is_terminal_event(#[trigger] evs[i]),
                calls@ == old(calls)@ + calls_of(v0.callbacks, evs),
            decreases u64::MAX - count,
        {
            // bound on one drain, so the count cannot wrap
            if count == u64::MAX {
                break;
            }
            match bridge::queue_try_recv(&rx) {
                RecvPoll::Item(event) => {
                    let ghost e0 = event;
                    let call = self.dispatch(event);
                    proof {
                        assert(evs.push(e0).drop_last() =~= evs);
                        assert(evs.push(e0).last() == e0);
                    }
                    match call {
                        Some(c) => calls.push(c),
                        None => {},
                    }
                    count = count + 1;
                    proof {
                        evs = evs.push(e0);
                    }
                    if matches!(self.state, WsState::Closed) {
                        proof {
                            assert(is_terminal_event(e0));
                            assert(self@ == poll_fold(v0, evs));
                        }
                        return count;
                    }
                    proof {
                        assert(!is_terminal_event(e0));
                    }
                },
                RecvPoll::Empty => {
                    break;
                },
                RecvPoll::Disconnected => {
                    break;
                },
            }
        }
        self.event_rx = Some(rx);
        proof {
            assert(self@ == poll_fold(v0, evs));
            if count == 0 {
                assert(poll_fold(v0, evs) == v0);
            }
        }
        count
    }

    /// Asks the worker to close the connection with this code and reason.
    /// Illegal unless a worker exists, and then nothing changes; from a
    /// legal state the close command carrying exactly this code and reason
    /// is handed to the queue, and either the enqueue is accepted — success,
    /// state `Closing` at once, ahead of the peer's confirmation — or the
    /// worker already exited, reported as `Unknown` with the state left
    /// untouched.
    pub fn close(&mut self, code: u16, reason: &str) -> (r: Result<WsppResult, WsppResult>)
        requires
            view_wf(old(self)@),
        ensures
            view_wf(final(self)@),
            !is_active_state(old(self)@.state) ==> r == Err::<WsppResult, WsppResult>(
                WsppResult::InvalidState,
            ) && final(self)@ == old(self)@,
            is_active_state(old(self)@.state) ==> {
                &&& r == Ok::<WsppResult, WsppResult>(WsppResult::Success) || r == Err::<
                    WsppResult,
                    WsppResult,
                >(WsppResult::Unknown)
                &&& final(self)@.sent.len() == old(self)@.sent.len() + 1
                &&& final(self)@.sent.drop_last() == old(self)@.sent
                &&& (final(self)@.sent.last() matches Command::Close { code: c, reason: rr }
                    && c == code && (rr matches Some(s) && s@ == reason@))
                &&& r is Ok ==> final(self)@ == (SessionView {
                    state: WsState::Closing,
                    sent: final(self)@.sent,
                    ..old(self)@
                })
                &&& r is Err ==> final(self)@ == (SessionView {
                    sent: final(self)@.sent,
                    ..old(self)@
                })
            },
    {
        if !matches!(self.state, WsState::Connecting | WsState::Connected | WsState::Closing) {
            return Err(WsppResult::InvalidState);
        }
        let cmd = Command::Close { code, reason: Some(reason.to_owned()) };
        let ghost logged = cmd;
        let sender = match self.cmd_tx.as_ref() {
            Some(s) => s,
            None => {
                return Err(WsppResult::InvalidState);
            },
        };
        let outcome = bridge::queue_send(sender, cmd);
        self.sent = Ghost(self.sent@.push(logged));
        proof {
            assert(self.sent@.drop_last() =~= old(self)@.sent);
        }
        match outcome {
            Ok(()) => {
                self.state = WsState::Closing;
                Ok(WsppResult::Success)
            },
            Err(_) => Err(WsppResult::Unknown),
        }
    }

    /// Enqueues a text frame for the worker: `InvalidState` exactly when not
    /// `Connected`, and then nothing changes; while `Connected` the text
    /// command carrying exactly this message is handed to the queue, and the
    /// call succeeds unless the worker already exited (`Unknown`). The state
    /// never changes.
    pub fn send_message(&mut self, message: &str) -> (r: Result<WsppResult, WsppResult>)
        requires
            view_wf(old(self)@),
        ensures
            view_wf(final(self)@),
            (r == Err::<WsppResult, WsppResult>(WsppResult::InvalidState)) <==> !send_allowed(
                old(self)@.state,
            ),
            !send_allowed(old(self)@.state) ==> final(self)@ == old(self)@,
            send_allowed(old(self)@.state) ==> {
                &&& r == Ok::<WsppResult, WsppResult>(WsppResult::Success) || r == Err::<
                    WsppResult,
                    WsppResult,
                >(WsppResult::Unknown)
                &&& final(self)@.sent.len() == old(self)@.sent.len() + 1
                &&& final(self)@.sent.drop_last() == old(self)@.sent
                &&& (final(self)@.sent.last() matches Command::SendText(m) && m@ == message@)
                &&& final(self)@ == (SessionView { sent: final(self)@.sent, ..old(self)@ })
            },
    {
        let r = self.send_command(Command::SendText(message.to_owned()));
        proof {
            if send_allowed(old(self)@.state) {
                assert(self@.sent.drop_last() =~= old(self)@.sent);
            }
        }
        r
    }

    /// Enqueues a binary frame for the worker: `InvalidState` exactly when
    /// not `Connected`, and then nothing changes; while `Connected` the
    /// binary command carrying exactly these bytes is handed to the queue,
    /// and the call succeeds unless the worker already exited (`Unknown`).
    /// The state never changes.
    pub fn send_binary(&mut self, data: Vec<u8>) -> (r: Result<WsppResult, WsppResult>)
        requires
            view_wf(old(self)@),
        ensures
            view_wf(final(self)@),
            (r == Err::<WsppResult, WsppResult>(WsppResult::InvalidState)) <==> !send_allowed(
                old(self)@.state,
            ),
            !send_allowed(old(self)@.state) ==> final(self)@ == old(self)@,
            send_allowed(old(self)@.state) ==> {
                &&& r == Ok::<WsppResult, WsppResult>(WsppResult::Success) || r == Err::<
                    WsppResult,
                    WsppResult,
                >(WsppResult::Unknown)
                &&& final(self)@ == (SessionView {
                    sent: old(self)@.sent.push(Command::SendBinary(data)),
                    ..old(self)@
                })
            },
    {
        self.send_command(Command::SendBinary(data))
    }

    /// Enqueues a ping frame for the worker: `InvalidState` exactly when not
    /// `Connected`, and then nothing changes; while `Connected` the ping
    /// command carrying exactly these bytes is handed to the queue, and the
    /// call succeeds unless the worker already exited (`Unknown`). The state
    /// never changes.
    pub fn ping(&mut self, data: Vec<u8>) -> (r: Result<WsppResult, WsppResult>)
        requires
            view_wf(old(self)@),
        ensures
            view_wf(final(self)@),
            (r == Err::<WsppResult, WsppResult>(WsppResult::InvalidState)) <==> !send_allowed(
                old(self)@.state,
            ),
            !send_allowed(old(self)@.state) ==> final(self)@ == old(self)@,
            send_allowed(old(self)@.state) ==> {
                &&& r == Ok::<WsppResult, WsppResult>(WsppResult::Success) || r == Err::<
                    WsppResult,
                    WsppResult,
                >(WsppResult::Unknown)
                &&& final(self)@ == (SessionView {
                    sent: old(self)@.sent.push(Command::Ping(data)),
                    ..old(self)@
                })
            },
    {
        self.send_command(Command::Ping(data))
    }

    /// Tears the session down from any state: while a command handle exists
    /// the shutdown command is handed to the queue best-effort (a send
    /// failure is ignored), everything is released, and the session ends
    /// `Closed`. Never fails and is idempotent.
    pub fn shutdown(&mut self)
        requires
            view_wf(old(self)@),
        ensures
            view_wf(final(self)@),
            final(self)@.state is Closed,
            !final(self)@.has_cmd,
            !final(self)@.has_rx,
            !final(self)@.has_launch,
            final(self)@.callbacks == old(self)@.callbacks,
            final(self)@.uri == old(self)@.uri,
            final(self)@.compression == old(self)@.compression,
            old(self)@.has_cmd ==> final(self)@.sent == old(self)@.sent.push(Command::Shutdown),
            !old(self)@.has_cmd ==> final(self)@.sent == old(self)@.sent,
    {
        match self.cmd_tx.as_ref() {
            Some(sender) => {
                let _ = bridge::queue_send(sender, Command::Shutdown);
                self.sent = Ghost(self.sent@.push(Command::Shutdown));
            },
            None => {},
        }
        self.cleanup();
        self.state = WsState::Closed;
    }

    /// The current lifecycle state.
    pub fn get_state(&self) -> (s: WsState)
        ensures
            s == self@.state,
    {
        self.state
    }

    /// Applies one event to the session: the state transition it calls for,
    /// and the callback invocation it asks of the boundary layer.
    pub fn dispatch(&mut self, event: Event) -> (call: Option<CallbackCall>)
        ensures
            final(self)@ == dispatch_step(old(self)@, event),
            call == dispatch_call(old(self)@.callbacks, event),
    {
        match event {
            Event::Open => {
                self.state = WsState::Connected;
                if self.callbacks.on_open {
                    Some(CallbackCall::Open)
                } else {
                    None
                }
            },
            Event::Message { data, opcode } => {
                if self.callbacks.on_message {
                    Some(CallbackCall::Message { data, opcode })
                } else {
                    None
                }
            },
            Event::Pong(data) => {
                if self.callbacks.on_pong {
                    Some(CallbackCall::Pong { data })
                } else {
                    None
                }
            },
            Event::Close => {
                self.state = WsState::Closed;
                self.cleanup();
                if self.callbacks.on_close {
                    Some(CallbackCall::Close)
                } else {
                    None
                }
            },
            Event::Error(message) => {
                self.state = WsState::Closed;
                self.cleanup();
                if self.callbacks.on_error {
                    Some(CallbackCall::Error { message })
                } else {
                    None
                }
            },
        }
    }

    fn send_command(&mut self, cmd: Command) -> (r: Result<WsppResult, WsppResult>)
        requires
            view_wf(old(self)@),
        ensures
            view_wf(final(self)@),
            (r == Err::<WsppResult, WsppResult>(WsppResult::InvalidState)) <==> !send_allowed(
                old(self)@.state,
            ),
            !send_allowed(old(self)@.state) ==> final(self)@ == old(self)@,
            send_allowed(old(self)@.state) ==> {
                &&& r == Ok::<WsppResult, WsppResult>(WsppResult::Success) || r == Err::<
                    WsppResult,
                    WsppResult,
                >(WsppResult::Unknown)
                &&& final(self)@ == (SessionView {
                    sent: old(self)@.sent.push(cmd),
                    ..old(self)@
                })
            },
    {
        if !matches!(self.state, WsState::Connected) {
            return Err(WsppResult::InvalidState);
        }
        let ghost logged = cmd;
        let sender = match self.cmd_tx.as_ref() {
            Some(s) => s,
            None => {
                return Err(WsppResult::InvalidState);
            },
        };
        let outcome = bridge::queue_send(sender, cmd);
        self.sent = Ghost(self.sent@.push(logged));
        match outcome {
            Ok(()) => Ok(WsppResult::Success),
            Err(_) => Err(WsppResult::Unknown),
        }
    }

    fn cleanup(&mut self)
        ensures
            final(self).cmd_tx is None,
            final(self).event_rx is None,
            final(self).launch is None,
            final(self).state == old(self).state,
            final(self).uri == old(self).uri,
            final(self).compression == old(self).compression,
            final(self).callbacks == old(self).callbacks,
            final(self).sent == old(self).sent,
    {
        self.cmd_tx = None;
        self.event_rx = None;
        self.launch = None;
    }
}

} // verus!
