use vnsd::dispatch::dispatch;
use vnsd::dispatch::on_readiness;
use vnsd::dispatch::on_receive;
use vnsd::dispatch::retry_step;
use vnsd::dispatch::DispatchOutcome;
use vnsd::dispatch::ReadinessDirective;
use vnsd::dispatch::ReceiveDirective;
use vnsd::dispatch::RetryDirective;
use vnsd::dispatch::RetryPolicy;
use vnsd::lifecycle::OperationError;
use vnsd::lifecycle::ServiceHandle;
use vnsd::lifecycle::ServiceState;
use vnsd::protocol::parse_command;
use vnsd::protocol::status_fields;
use vnsd::protocol::u16_to_string;
use vnsd::protocol::ChannelError;
use vnsd::protocol::Command;
use vnsd::protocol::Response;
use vnsd::sim::retry_send;
use vnsd::sim::run_command_loop;
use vnsd::sim::DeliveryResult;
use vnsd::sim::SimChannel;

fn handle() -> ServiceHandle {
    ServiceHandle::new("127.0.0.1".to_string(), 8080)
}

fn ready_ok(n: usize) -> Vec<Result<(), ChannelError>> {
    (0..n).map(|_| Ok(())).collect()
}

#[test]
fn parse_command_keywords() {
    assert_eq!(parse_command("PauseServer"), Command::Pause);
    assert_eq!(parse_command("ResumeServer"), Command::Resume);
    assert_eq!(parse_command("StatusServer"), Command::Status);
    assert_eq!(parse_command("ShutdownServer"), Command::Shutdown);
    assert_eq!(parse_command("RestartServer"), Command::Unrecognized);
    assert_eq!(parse_command("pauseserver"), Command::Unrecognized);
    assert_eq!(parse_command(""), Command::Unrecognized);
}

#[test]
fn port_rendering() {
    assert_eq!(u16_to_string(0), "0");
    assert_eq!(u16_to_string(7), "7");
    assert_eq!(u16_to_string(8080), "8080");
    assert_eq!(u16_to_string(65535), "65535");
}

#[test]
fn lifecycle_transitions() {
    let mut h = handle();
    assert_eq!(h.status(), ServiceState::Running);
    assert_eq!(h.address(), ("127.0.0.1".to_string(), 8080));
    assert!(h.pause().is_ok());
    assert_eq!(h.status(), ServiceState::Paused);
    assert!(h.resume().is_ok());
    assert_eq!(h.status(), ServiceState::Running);
    assert!(h.stop().is_ok());
    assert_eq!(h.status(), ServiceState::Stopped);
}

#[test]
fn invalid_transitions_report_errors() {
    let mut h = handle();
    assert_eq!(
        h.resume(),
        Err(OperationError::InvalidResume { from: ServiceState::Running })
    );
    h.pause().unwrap();
    assert_eq!(
        h.pause(),
        Err(OperationError::InvalidPause { from: ServiceState::Paused })
    );
    h.stop().unwrap();
    assert_eq!(
        h.stop(),
        Err(OperationError::InvalidStop { from: ServiceState::Stopped })
    );
    assert_eq!(
        h.pause(),
        Err(OperationError::InvalidPause { from: ServiceState::Stopped })
    );
    assert_eq!(
        h.resume(),
        Err(OperationError::InvalidResume { from: ServiceState::Stopped })
    );
    assert_eq!(h.status(), ServiceState::Stopped);
}

#[test]
fn error_messages() {
    assert_eq!(
        OperationError::InvalidPause { from: ServiceState::Stopped }.message(),
        "cannot pause: service is not running"
    );
    assert_eq!(
        OperationError::InvalidResume { from: ServiceState::Running }.message(),
        "cannot resume: service is not paused"
    );
    assert_eq!(
        OperationError::InvalidStop { from: ServiceState::Stopped }.message(),
        "cannot stop: service has already stopped"
    );
}

#[test]
fn status_query_immediately_after_bind() {
    let mut h = handle();
    let mut ch = SimChannel::new(
        ready_ok(1),
        vec![Ok(Command::Status)],
        vec![Ok(())],
    );
    let (exit, dispatched) = run_command_loop(&mut h, &mut ch);
    assert!(matches!(exit, ChannelError::Fatal(_)));
    assert_eq!(dispatched, vec![Command::Status]);
    assert_eq!(ch.sent().len(), 1);
    match &ch.sent()[0] {
        Response::Status { state, host, port } => {
            assert_eq!(*state, ServiceState::Running);
            assert_eq!(host, "127.0.0.1");
            assert_eq!(*port, 8080);
            let fields = status_fields(*state, host, *port);
            assert_eq!(
                fields,
                vec![
                    ("status".to_string(), "Running".to_string()),
                    ("ip".to_string(), "127.0.0.1".to_string()),
                    ("port".to_string(), "8080".to_string()),
                ]
            );
        }
        other => panic!("expected a status response, got {:?}", other),
    }
}

#[test]
fn pause_then_status_reports_paused() {
    let mut h = handle();
    let mut ch = SimChannel::new(
        ready_ok(2),
        vec![Ok(Command::Pause), Ok(Command::Status)],
        vec![Ok(())],
    );
    run_command_loop(&mut h, &mut ch);
    assert_eq!(h.status(), ServiceState::Paused);
    assert_eq!(ch.sent().len(), 1);
    match &ch.sent()[0] {
        Response::Status { state, .. } => assert_eq!(*state, ServiceState::Paused),
        other => panic!("expected a status response, got {:?}", other),
    }
}

#[test]
fn resume_from_paused_reports_running() {
    let mut h = handle();
    h.pause().unwrap();
    let mut ch = SimChannel::new(
        ready_ok(2),
        vec![Ok(Command::Resume), Ok(Command::Status)],
        vec![Ok(())],
    );
    run_command_loop(&mut h, &mut ch);
    assert_eq!(h.status(), ServiceState::Running);
    match &ch.sent()[0] {
        Response::Status { state, .. } => assert_eq!(*state, ServiceState::Running),
        other => panic!("expected a status response, got {:?}", other),
    }
}

#[test]
fn shutdown_then_pause_fails() {
    let mut h = handle();
    let mut ch = SimChannel::new(
        ready_ok(2),
        vec![Ok(Command::Shutdown), Ok(Command::Pause)],
        vec![Err(ChannelError::NotReady), Ok(())],
    );
    run_command_loop(&mut h, &mut ch);
    assert_eq!(h.status(), ServiceState::Stopped);
    assert_eq!(ch.sent().len(), 1);
    assert_eq!(
        ch.sent()[0],
        Response::Failure(OperationError::InvalidPause { from: ServiceState::Stopped })
    );
}

#[test]
fn failure_text_survives_three_transient_send_failures() {
    // An invalid resume while already running: the failure response must
    // reach the client unchanged on the fourth attempt.
    let mut h = handle();
    let mut ch = SimChannel::new(
        ready_ok(1),
        vec![Ok(Command::Resume)],
        vec![
            Err(ChannelError::NotReady),
            Err(ChannelError::NotReady),
            Err(ChannelError::NotReady),
            Ok(()),
        ],
    );
    run_command_loop(&mut h, &mut ch);
    assert_eq!(h.status(), ServiceState::Running);
    assert_eq!(ch.sent().len(), 1);
    match &ch.sent()[0] {
        Response::Failure(e) => {
            assert_eq!(
                *e,
                OperationError::InvalidResume { from: ServiceState::Running }
            );
            assert_eq!(e.message(), "cannot resume: service is not paused");
        }
        other => panic!("expected a failure response, got {:?}", other),
    }
}

#[test]
fn unbounded_retry_delivers_after_n_transient_failures() {
    let n = 25;
    let mut script: Vec<Result<(), ChannelError>> = Vec::new();
    for _ in 0..n {
        script.push(Err(ChannelError::NotReady));
    }
    script.push(Ok(()));
    let mut ch = SimChannel::new(vec![], vec![], script);
    let resp = Response::Failure(OperationError::InvalidPause { from: ServiceState::Paused });
    let d = retry_send(&mut ch, &resp, RetryPolicy::Unbounded);
    assert_eq!(d, DeliveryResult::Delivered);
    assert_eq!(ch.sent().as_slice(), &[resp]);
}

#[test]
fn bounded_retry_spends_exactly_one_extra_attempt() {
    let resp = Response::Failure(OperationError::InvalidStop { from: ServiceState::Stopped });

    // One transient failure: the single retry delivers.
    let mut ch = SimChannel::new(vec![], vec![], vec![Err(ChannelError::NotReady), Ok(())]);
    let d = retry_send(&mut ch, &resp, RetryPolicy::SingleRetry);
    assert_eq!(d, DeliveryResult::Delivered);
    assert_eq!(ch.sent().len(), 1);

    // Two transient failures: the response is abandoned even though a later
    // attempt would have succeeded.
    let mut ch = SimChannel::new(
        vec![],
        vec![],
        vec![Err(ChannelError::NotReady), Err(ChannelError::NotReady), Ok(())],
    );
    let d = retry_send(&mut ch, &resp, RetryPolicy::SingleRetry);
    assert_eq!(d, DeliveryResult::Abandoned(ChannelError::NotReady));
    assert_eq!(ch.sent().len(), 0);
}

#[test]
fn fatal_send_abandons_the_response() {
    let resp = Response::Failure(OperationError::InvalidPause { from: ServiceState::Paused });
    let mut ch = SimChannel::new(
        vec![],
        vec![],
        vec![
            Err(ChannelError::NotReady),
            Err(ChannelError::Fatal("pipe broken".to_string())),
        ],
    );
    let d = retry_send(&mut ch, &resp, RetryPolicy::Unbounded);
    assert_eq!(
        d,
        DeliveryResult::Abandoned(ChannelError::Fatal("pipe broken".to_string()))
    );
    assert_eq!(ch.sent().len(), 0);
}

#[test]
fn fatal_receive_ends_the_loop() {
    let mut h = handle();
    let mut ch = SimChannel::new(
        ready_ok(2),
        vec![
            Ok(Command::Pause),
            Err(ChannelError::Fatal("connection reset".to_string())),
        ],
        vec![],
    );
    let (exit, dispatched) = run_command_loop(&mut h, &mut ch);
    assert_eq!(exit, ChannelError::Fatal("connection reset".to_string()));
    assert_eq!(dispatched, vec![Command::Pause]);
    assert_eq!(h.status(), ServiceState::Paused);
}

#[test]
fn fatal_readiness_ends_the_loop() {
    let mut h = handle();
    let mut ch = SimChannel::new(
        vec![Err(ChannelError::Fatal("socket gone".to_string()))],
        vec![Ok(Command::Pause)],
        vec![],
    );
    let (exit, dispatched) = run_command_loop(&mut h, &mut ch);
    assert_eq!(exit, ChannelError::Fatal("socket gone".to_string()));
    assert_eq!(dispatched, vec![]);
    assert_eq!(h.status(), ServiceState::Running);
}

#[test]
fn transient_readiness_and_receive_failures_are_absorbed() {
    let mut h = handle();
    let mut ch = SimChannel::new(
        vec![Err(ChannelError::NotReady), Ok(()), Ok(()), Ok(())],
        vec![Err(ChannelError::NotReady), Ok(Command::Pause), Ok(Command::Status)],
        vec![Ok(())],
    );
    let (exit, dispatched) = run_command_loop(&mut h, &mut ch);
    assert!(matches!(exit, ChannelError::Fatal(_)));
    assert_eq!(dispatched, vec![Command::Pause, Command::Status]);
    assert_eq!(h.status(), ServiceState::Paused);
}

#[test]
fn unrecognized_command_is_silently_ignored() {
    let mut h = handle();
    let mut ch = SimChannel::new(
        ready_ok(1),
        vec![Ok(Command::Unrecognized)],
        vec![Ok(())],
    );
    let (_, dispatched) = run_command_loop(&mut h, &mut ch);
    assert_eq!(dispatched, vec![Command::Unrecognized]);
    assert_eq!(h.status(), ServiceState::Running);
    assert!(ch.sent().is_empty());
}

#[test]
fn replay_matches_the_transition_table() {
    // The state after a whole session is the fold of the transition table
    // over the commands, however many transient failures occurred.
    let cmds = vec![
        Command::Pause,
        Command::Status,
        Command::Resume,
        Command::Status,
        Command::Pause,
        Command::Shutdown,
        Command::Pause,
    ];
    let mut h = handle();
    let mut ch = SimChannel::new(
        (0..cmds.len()).map(|_| Ok(())).collect(),
        cmds.iter().map(|c| Ok(*c)).collect(),
        (0..40)
            .map(|k| {
                if k % 3 == 0 {
                    Ok(())
                } else {
                    Err(ChannelError::NotReady)
                }
            })
            .collect(),
    );
    let (_, dispatched) = run_command_loop(&mut h, &mut ch);
    assert_eq!(dispatched, cmds);
    assert_eq!(h.status(), ServiceState::Stopped);
}

#[test]
fn status_queries_leave_the_trajectory_unchanged() {
    let base = vec![Command::Pause, Command::Resume, Command::Pause];
    let noisy = vec![
        Command::Status,
        Command::Pause,
        Command::Status,
        Command::Status,
        Command::Resume,
        Command::Status,
        Command::Pause,
        Command::Status,
    ];
    let run = |cmds: &[Command]| {
        let mut h = handle();
        let mut ch = SimChannel::new(
            (0..cmds.len()).map(|_| Ok(())).collect(),
            cmds.iter().map(|c| Ok(*c)).collect(),
            (0..cmds.len()).map(|_| Ok(())).collect(),
        );
        run_command_loop(&mut h, &mut ch);
        h.status()
    };
    assert_eq!(run(&base), run(&noisy));
    assert_eq!(run(&base), ServiceState::Paused);
}

#[test]
fn dispatcher_outcomes_follow_the_table() {
    let mut h = handle();
    assert!(matches!(dispatch(&mut h, Command::Pause), DispatchOutcome::NoReply));
    assert_eq!(h.status(), ServiceState::Paused);
    match dispatch(&mut h, Command::Pause) {
        DispatchOutcome::Reply(
            Response::Failure(OperationError::InvalidPause { from: ServiceState::Paused }),
            RetryPolicy::Unbounded,
        ) => {}
        other => panic!("unexpected outcome {:?}", other),
    }
    assert!(matches!(dispatch(&mut h, Command::Shutdown), DispatchOutcome::NoReply));
    match dispatch(&mut h, Command::Shutdown) {
        DispatchOutcome::Reply(
            Response::Failure(OperationError::InvalidStop { from: ServiceState::Stopped }),
            RetryPolicy::SingleRetry,
        ) => {}
        other => panic!("unexpected outcome {:?}", other),
    }
}

#[test]
fn loop_step_decisions() {
    assert_eq!(on_readiness(Ok(())), ReadinessDirective::Proceed);
    assert_eq!(
        on_readiness(Err(ChannelError::NotReady)),
        ReadinessDirective::Retry
    );
    assert_eq!(
        on_readiness(Err(ChannelError::Fatal("gone".to_string()))),
        ReadinessDirective::Terminate(ChannelError::Fatal("gone".to_string()))
    );
    assert_eq!(
        on_receive(Ok(Command::Shutdown)),
        ReceiveDirective::Dispatch(Command::Shutdown)
    );
    assert_eq!(on_receive(Err(ChannelError::NotReady)), ReceiveDirective::Retry);
    assert_eq!(
        on_receive(Err(ChannelError::Fatal("gone".to_string()))),
        ReceiveDirective::Terminate(ChannelError::Fatal("gone".to_string()))
    );
    assert_eq!(
        retry_step(RetryPolicy::Unbounded, 17, Err(ChannelError::NotReady)),
        RetryDirective::TryAgain
    );
    assert_eq!(
        retry_step(RetryPolicy::SingleRetry, 1, Err(ChannelError::NotReady)),
        RetryDirective::TryAgain
    );
    assert_eq!(
        retry_step(RetryPolicy::SingleRetry, 2, Err(ChannelError::NotReady)),
        RetryDirective::Abandon(ChannelError::NotReady)
    );
    assert_eq!(retry_step(RetryPolicy::SingleRetry, 2, Ok(())), RetryDirective::Delivered);
}

#[test]
fn exhausted_channel_reports_closure() {
    let mut h = handle();
    let mut ch = SimChannel::new(vec![], vec![], vec![]);
    let (exit, dispatched) = run_command_loop(&mut h, &mut ch);
    assert_eq!(
        exit,
        ChannelError::Fatal("control channel closed".to_string())
    );
    assert!(dispatched.is_empty());
}

#[test]
fn status_response_survives_transient_send_failures() {
    let mut h = handle();
    let mut ch = SimChannel::new(
        ready_ok(1),
        vec![Ok(Command::Status)],
        vec![
            Err(ChannelError::NotReady),
            Err(ChannelError::NotReady),
            Ok(()),
        ],
    );
    run_command_loop(&mut h, &mut ch);
    assert_eq!(ch.sent().len(), 1);
    match &ch.sent()[0] {
        Response::Status { state, host, port } => {
            assert_eq!(*state, ServiceState::Running);
            assert_eq!(host, "127.0.0.1");
            assert_eq!(*port, 8080);
        }
        other => panic!("expected a status response, got {:?}", other),
    }
}

#[test]
fn abandoned_response_does_not_end_the_loop() {
    // A fatal error on send abandons only that response; the command loop
    // carries on to the next command.
    let mut h = handle();
    let mut ch = SimChannel::new(
        ready_ok(2),
        vec![Ok(Command::Resume), Ok(Command::Status)],
        vec![Err(ChannelError::Fatal("pipe broken".to_string())), Ok(())],
    );
    let (_, dispatched) = run_command_loop(&mut h, &mut ch);
    assert_eq!(dispatched, vec![Command::Resume, Command::Status]);
    // The failed resume's reply was abandoned; the status reply got through.
    assert_eq!(ch.sent().len(), 1);
    assert!(matches!(&ch.sent()[0], Response::Status { .. }));
}
