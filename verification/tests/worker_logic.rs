use wspp::result::WsppResult;
use wspp::worker::CLOSE_WAIT_TIMEOUT_MS;
use wspp::worker::CmdStep;
use wspp::worker::Command;
use wspp::worker::Event;
use wspp::worker::FrameOut;
use wspp::worker::OpCode;
use wspp::worker::ReadOutcome;
use wspp::worker::Worker;
use wspp::worker::WorkerStartError;
use wspp::worker::close_timed_out;
use wspp::worker::frame_step;
use wspp::worker::on_open_result;
use wspp::worker::run_worker;
use wspp::worker::spawn_ws_worker;

#[test]
fn start_error_maps_invalid_url() {
    let err = WorkerStartError::InvalidUrl(url::ParseError::RelativeUrlWithoutBase);
    assert_eq!(err.to_wspp_result(), WsppResult::InvalidArgument);
}

#[test]
fn start_error_maps_runtime_init() {
    let err = WorkerStartError::RuntimeInit(std::io::Error::other("runtime"));
    assert_eq!(err.to_wspp_result(), WsppResult::IoError);
}

#[test]
fn close_timeout_only_after_threshold() {
    let start: u64 = 100_000;
    assert!(!close_timed_out(Some(start), start + 4_000, 5_000));
    assert!(close_timed_out(Some(start), start + 5_000, 5_000));
}

#[test]
fn close_timeout_is_false_without_close_request() {
    assert!(!close_timed_out(None, 100_000, 5_000));
}

#[test]
fn spawn_rejects_a_bad_endpoint() {
    match spawn_ws_worker("no scheme at all".to_owned(), false) {
        Err(WorkerStartError::InvalidUrl(_)) => {}
        _ => panic!("a relative endpoint must be rejected as an invalid url"),
    }
}

#[test]
fn spawn_prepares_a_worker_for_a_good_endpoint() {
    match spawn_ws_worker("ws://127.0.0.1:9/".to_owned(), true) {
        Ok((_cmd_tx, _event_rx, launch)) => {
            assert!(launch.compression);
        }
        Err(_) => panic!("a well-formed endpoint must yield a prepared worker"),
    }
}

#[test]
fn opcode_mapping_is_exhaustive() {
    let text = frame_step(OpCode::Text, b"a".to_vec());
    assert_eq!(
        text.events,
        vec![Event::Message { data: b"a".to_vec(), opcode: 1 }]
    );
    assert!(!text.stop);

    let binary = frame_step(OpCode::Binary, b"b".to_vec());
    assert_eq!(
        binary.events,
        vec![Event::Message { data: b"b".to_vec(), opcode: 2 }]
    );
    assert!(!binary.stop);

    let ping = frame_step(OpCode::Ping, b"c".to_vec());
    assert_eq!(
        ping.events,
        vec![Event::Message { data: b"c".to_vec(), opcode: 9 }]
    );
    assert!(!ping.stop);

    let pong = frame_step(OpCode::Pong, b"d".to_vec());
    assert_eq!(pong.events, vec![Event::Pong(b"d".to_vec())]);
    assert!(!pong.stop);

    let close = frame_step(OpCode::Close, Vec::new());
    assert_eq!(close.events, vec![Event::Close]);
    assert!(close.stop);

    let cont = frame_step(OpCode::Continuation, b"e".to_vec());
    assert!(cont.events.is_empty());
    assert!(!cont.stop);
}

#[test]
fn data_commands_become_their_frames() {
    let mut w = Worker::new();
    assert_eq!(
        w.on_command(Command::SendText("hi".to_owned()), 0),
        CmdStep::Send(FrameOut::Text("hi".to_owned()))
    );
    assert_eq!(
        w.on_command(Command::SendBinary(b"xy".to_vec()), 0),
        CmdStep::Send(FrameOut::Binary(b"xy".to_vec()))
    );
    assert_eq!(
        w.on_command(Command::Ping(b"p".to_vec()), 0),
        CmdStep::Send(FrameOut::Ping(b"p".to_vec()))
    );
    assert!(!w.closing_requested);
    assert_eq!(w.close_started_at, None);
}

#[test]
fn close_command_arms_the_timer_once() {
    let mut w = Worker::new();
    let step = w.on_command(
        Command::Close { code: 1000, reason: Some("bye".to_owned()) },
        250,
    );
    assert_eq!(
        step,
        CmdStep::SendClose(FrameOut::Close { code: 1000, reason: "bye".to_owned() })
    );
    assert!(w.closing_requested);
    assert_eq!(w.close_started_at, Some(250));

    // a second close request keeps the first instant
    let again = w.on_command(Command::Close { code: 1001, reason: None }, 900);
    assert_eq!(
        again,
        CmdStep::SendClose(FrameOut::Close { code: 1001, reason: String::new() })
    );
    assert_eq!(w.close_started_at, Some(250));
}

#[test]
fn shutdown_command_sends_a_going_away_close() {
    let mut w = Worker::new();
    let step = w.on_command(Command::Shutdown, 0);
    assert_eq!(
        step,
        CmdStep::SendCloseAndStop(FrameOut::Close {
            code: 1001,
            reason: "Going away".to_owned(),
        })
    );
}

#[test]
fn failed_sends_surface_and_stop() {
    let w = Worker::new();
    let data = w.data_send_failed("boom".to_owned());
    assert_eq!(data.events, vec![Event::Error("boom".to_owned()), Event::Close]);
    assert!(data.stop);

    let expected = w.close_send_failed(true, "already closed".to_owned());
    assert_eq!(expected.events, vec![Event::Close]);
    assert!(expected.stop);

    let unexpected = w.close_send_failed(false, "broken pipe".to_owned());
    assert_eq!(
        unexpected.events,
        vec![Event::Error("broken pipe".to_owned()), Event::Close]
    );
    assert!(unexpected.stop);

    let hangup = w.commands_closed();
    assert_eq!(hangup.events, vec![Event::Close]);
    assert!(hangup.stop);
}

#[test]
fn read_errors_are_swallowed_only_while_closing() {
    let mut w = Worker::new();
    let loud = w.on_read(ReadOutcome::Failed("reset".to_owned()));
    assert_eq!(loud.events, vec![Event::Error("reset".to_owned()), Event::Close]);
    assert!(loud.stop);

    w.on_command(Command::Close { code: 1000, reason: None }, 0);
    let quiet = w.on_read(ReadOutcome::Failed("reset".to_owned()));
    assert_eq!(quiet.events, vec![Event::Close]);
    assert!(quiet.stop);
}

#[test]
fn open_failure_is_the_only_event() {
    let run = run_worker(Err("refused".to_owned()), Vec::new(), Vec::new(), 0);
    assert_eq!(run.events, vec![Event::Error("refused".to_owned())]);
    assert!(run.frames.is_empty());
    assert!(run.stopped);
}

#[test]
fn frames_follow_commands_one_to_one_in_order() {
    let cmds = vec![
        Command::SendText("hi".to_owned()),
        Command::Ping(b"p".to_vec()),
        Command::SendBinary(b"xy".to_vec()),
    ];
    let run = run_worker(Ok(()), cmds, vec![ReadOutcome::Timeout], 0);
    assert_eq!(
        run.frames,
        vec![
            FrameOut::Text("hi".to_owned()),
            FrameOut::Ping(b"p".to_vec()),
            FrameOut::Binary(b"xy".to_vec()),
        ]
    );
    assert_eq!(run.events, vec![Event::Open]);
    assert!(!run.stopped);
}

#[test]
fn open_comes_first_on_a_successful_connection() {
    let reads = vec![
        ReadOutcome::Frame(OpCode::Text, b"hello".to_vec()),
        ReadOutcome::Timeout,
        ReadOutcome::Frame(OpCode::Pong, b"pg".to_vec()),
    ];
    let run = run_worker(Ok(()), Vec::new(), reads, 0);
    assert_eq!(run.events[0], Event::Open);
    assert_eq!(
        run.events[1],
        Event::Message { data: b"hello".to_vec(), opcode: 1 }
    );
    assert_eq!(run.events[2], Event::Pong(b"pg".to_vec()));
    assert!(!run.stopped);
}

#[test]
fn peer_close_frame_ends_the_run() {
    let reads = vec![
        ReadOutcome::Timeout,
        ReadOutcome::Frame(OpCode::Close, Vec::new()),
        ReadOutcome::Frame(OpCode::Text, b"late".to_vec()),
    ];
    let run = run_worker(Ok(()), Vec::new(), reads, 0);
    assert_eq!(run.events, vec![Event::Open, Event::Close]);
    assert!(run.stopped);
}

#[test]
fn shutdown_skips_the_grace_period() {
    let run = run_worker(Ok(()), vec![Command::Shutdown], Vec::new(), 7);
    assert_eq!(run.events, vec![Event::Open, Event::Close]);
    assert_eq!(
        run.frames,
        vec![FrameOut::Close { code: 1001, reason: "Going away".to_owned() }]
    );
    assert!(run.stopped);
    assert_eq!(run.end_ms, 7);
}

#[test]
fn silent_peer_is_forced_closed_at_the_grace_period() {
    let start: u64 = 40;
    let mut reads = Vec::new();
    for _ in 0..520 {
        reads.push(ReadOutcome::Timeout);
    }
    let cmds = vec![Command::Close { code: 1000, reason: Some("done".to_owned()) }];
    let run = run_worker(Ok(()), cmds, reads, start);
    assert_eq!(run.events, vec![Event::Open, Event::Close]);
    assert_eq!(
        run.frames,
        vec![FrameOut::Close { code: 1000, reason: "done".to_owned() }]
    );
    assert!(run.stopped);
    assert_eq!(run.end_ms, start + CLOSE_WAIT_TIMEOUT_MS);
}

#[test]
fn open_outcome_maps_to_its_event() {
    let ok = on_open_result(Ok(()));
    assert_eq!(ok.events, vec![Event::Open]);
    assert!(!ok.stop);

    let err = on_open_result(Err("tls".to_owned()));
    assert_eq!(err.events, vec![Event::Error("tls".to_owned())]);
    assert!(err.stop);
}
