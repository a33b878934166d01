use procmon::channel::TerminationChannel;
use procmon::descriptor::{CommandDescriptor, RemoteEndpoint, TransportProtocol};
use procmon::error::ErrorKind;
use procmon::monitor::ChildMonitor;
use procmon::spawner::MockSpawner;
use procmon::stream::{RecordedEvent, SinkBuffer};
use procmon::supervisor::{
    run_cycle, run_cycles, status_line, step, LoopAction, LoopEvent, Phase, RESTART_DELAY_MS,
};

fn descriptor(forward_output: bool) -> CommandDescriptor {
    CommandDescriptor::new(
        "/usr/sbin/openvpn".to_string(),
        "/etc/openvpn/client.conf".to_string(),
        vec![RemoteEndpoint {
            host: "alpha.example".to_string(),
            protocol: TransportProtocol::Udp,
        }],
        forward_output,
    )
    .unwrap()
}

#[test]
fn channel_delivers_the_one_outcome() {
    let mut signal = TerminationChannel::new();
    signal.send(true);
    assert!(signal.receive());
    let mut signal = TerminationChannel::new();
    signal.send(false);
    assert!(!signal.receive());
}

#[test]
fn status_line_text() {
    assert_eq!(
        status_line(true).as_str(),
        "Monitored process exited. clean: true"
    );
    assert_eq!(
        status_line(false).as_str(),
        "Monitored process exited. clean: false"
    );
}

#[test]
fn step_starts_then_awaits() {
    let (phase, action) = step(Phase::Starting, LoopEvent::StartSucceeded);
    assert_eq!(phase, Phase::Running);
    assert!(matches!(action, LoopAction::AwaitTermination));
}

#[test]
fn step_reports_and_restarts_after_an_exit() {
    let (phase, action) = step(Phase::Running, LoopEvent::ChildExited(true));
    assert_eq!(phase, Phase::Starting);
    match action {
        LoopAction::ReportAndRestart {
            status_line,
            delay_ms,
        } => {
            assert_eq!(status_line.as_str(), "Monitored process exited. clean: true");
            assert_eq!(delay_ms, RESTART_DELAY_MS);
            assert_eq!(delay_ms, 500);
        }
        _ => panic!("an exit must lead to a report and a restart"),
    }
}

#[test]
fn step_fails_with_exit_code_one_on_a_refused_start() {
    let inner = procmon::error::Error::new(
        ErrorKind::SpawnFailed,
        "executable not found".to_string(),
    );
    let refused = procmon::error::Error::wrapping(
        ErrorKind::StartFailed,
        "unable to start /usr/sbin/openvpn".to_string(),
        inner,
    );
    let (_, action) = step(Phase::Starting, LoopEvent::StartRefused(refused));
    match action {
        LoopAction::Fail { error, exit_code } => {
            assert_eq!(exit_code, 1);
            let lines = error.report_lines();
            assert_eq!(lines[0].as_str(), "error: unable to start /usr/sbin/openvpn");
            assert_eq!(lines[1].as_str(), "caused by: executable not found");
        }
        _ => panic!("a refused start must fail the loop"),
    }
}

#[test]
fn start_without_forwarding_returns_no_streams() {
    let spawner = MockSpawner::succeeding(true, b"quiet".to_vec(), Vec::new());
    let mut monitor = ChildMonitor::new(descriptor(false), spawner);
    let started = monitor.start().unwrap();
    assert!(started.stdout.is_none());
    assert!(started.stderr.is_none());
}

#[test]
fn start_with_forwarding_returns_both_streams() {
    let spawner = MockSpawner::succeeding(true, b"out".to_vec(), b"err".to_vec());
    let mut monitor = ChildMonitor::new(descriptor(true), spawner);
    let started = monitor.start().unwrap();
    assert!(started.stdout.is_some());
    assert!(started.stderr.is_some());
}

#[test]
fn refused_spawn_is_wrapped_with_its_cause() {
    let spawner = MockSpawner::failing("executable not found".to_string());
    let mut monitor = ChildMonitor::new(descriptor(true), spawner);
    let e = match monitor.start() {
        Ok(_) => panic!("a refused spawn must fail the start"),
        Err(e) => e,
    };
    assert!(matches!(e.kind, ErrorKind::StartFailed));
    assert_eq!(e.message.as_str(), "unable to start /usr/sbin/openvpn");
    let cause = e.cause.as_deref().unwrap();
    assert!(matches!(cause.kind, ErrorKind::SpawnFailed));
    assert_eq!(cause.message.as_str(), "executable not found");
    let lines = e.report_lines();
    assert_eq!(lines.len(), 2);
    assert_eq!(lines[0].as_str(), "error: unable to start /usr/sbin/openvpn");
    assert_eq!(lines[1].as_str(), "caused by: executable not found");
}

#[test]
fn cycle_forwards_output_then_reports_a_clean_exit() {
    let spawner = MockSpawner::succeeding(true, b"hello\n".to_vec(), Vec::new());
    let mut monitor = ChildMonitor::new(descriptor(true), spawner);
    let mut out = SinkBuffer::new();
    let mut err = SinkBuffer::new();
    let report = run_cycle(&mut monitor, &mut out, &mut err).unwrap();
    assert!(report.clean);
    assert!(report.out_relay_error.is_none());
    assert!(report.err_relay_error.is_none());
    assert!(report.wait_error.is_none());
    assert_eq!(out.items.len(), 2);
    assert!(matches!(&out.items[0], RecordedEvent::Chunk(b) if b == b"hello\n"));
    assert!(
        matches!(&out.items[1], RecordedEvent::Line(l) if l == "Monitored process exited. clean: true")
    );
    assert!(err.items.is_empty());
}

#[test]
fn cycle_without_forwarding_reports_only_the_status_line() {
    let spawner = MockSpawner::succeeding(false, b"never seen".to_vec(), b"nor this".to_vec());
    let mut monitor = ChildMonitor::new(descriptor(false), spawner);
    let mut out = SinkBuffer::new();
    let mut err = SinkBuffer::new();
    let report = run_cycle(&mut monitor, &mut out, &mut err).unwrap();
    assert!(!report.clean);
    assert_eq!(out.items.len(), 1);
    assert!(
        matches!(&out.items[0], RecordedEvent::Line(l) if l == "Monitored process exited. clean: false")
    );
    assert!(err.items.is_empty());
}

#[test]
fn cycle_relays_the_error_stream_too() {
    let spawner = MockSpawner::succeeding(true, Vec::new(), b"warning: tun\n".to_vec());
    let mut monitor = ChildMonitor::new(descriptor(true), spawner);
    let mut out = SinkBuffer::new();
    let mut err = SinkBuffer::new();
    run_cycle(&mut monitor, &mut out, &mut err).unwrap();
    assert_eq!(err.relayed_bytes(), b"warning: tun\n".to_vec());
    assert!(err
        .items
        .iter()
        .all(|item| matches!(item, RecordedEvent::Chunk(_))));
}

#[test]
fn cycle_with_a_refused_spawn_fails_and_writes_nothing() {
    let spawner = MockSpawner::failing("executable not found".to_string());
    let mut monitor = ChildMonitor::new(descriptor(true), spawner);
    let mut out = SinkBuffer::new();
    let mut err = SinkBuffer::new();
    let e = match run_cycle(&mut monitor, &mut out, &mut err) {
        Ok(_) => panic!("a refused spawn must fail the cycle"),
        Err(e) => e,
    };
    assert!(matches!(e.kind, ErrorKind::StartFailed));
    assert!(out.items.is_empty());
    assert!(err.items.is_empty());
}

#[test]
fn a_failing_wait_is_reported_as_an_unclean_exit() {
    let spawner = MockSpawner::wait_failing("wait primitive broke".to_string());
    let mut monitor = ChildMonitor::new(descriptor(false), spawner);
    let mut out = SinkBuffer::new();
    let mut err = SinkBuffer::new();
    let report = run_cycle(&mut monitor, &mut out, &mut err).unwrap();
    assert!(!report.clean);
    let wait_error = report.wait_error.unwrap();
    assert!(matches!(wait_error.kind, ErrorKind::WaitFailed));
    assert_eq!(wait_error.message.as_str(), "wait primitive broke");
    assert!(
        matches!(&out.items[0], RecordedEvent::Line(l) if l == "Monitored process exited. clean: false")
    );
}

#[test]
fn repeated_cycles_each_deliver_exactly_one_status_line() {
    let spawner = MockSpawner::succeeding(true, Vec::new(), Vec::new());
    let mut monitor = ChildMonitor::new(descriptor(false), spawner);
    let mut out = SinkBuffer::new();
    let mut err = SinkBuffer::new();
    for cycle in 0..5 {
        let report = run_cycle(&mut monitor, &mut out, &mut err).unwrap();
        assert!(report.clean);
        // One status line per completed cycle: never zero, never two.
        assert_eq!(out.items.len(), cycle + 1);
    }
    assert!(out.items.iter().all(
        |item| matches!(item, RecordedEvent::Line(l) if l == "Monitored process exited. clean: true")
    ));
}

#[test]
fn run_cycles_completes_every_requested_cycle() {
    let spawner = MockSpawner::succeeding(true, Vec::new(), Vec::new());
    let mut monitor = ChildMonitor::new(descriptor(false), spawner);
    let mut out = SinkBuffer::new();
    let mut err = SinkBuffer::new();
    let reports = run_cycles(&mut monitor, &mut out, &mut err, 4).unwrap();
    assert_eq!(reports.len(), 4);
    assert!(reports.iter().all(|report| report.clean));
    assert_eq!(out.items.len(), 4);
    assert!(err.items.is_empty());
}

#[test]
fn run_cycles_stops_at_the_first_refused_start() {
    let spawner = MockSpawner::failing("executable not found".to_string());
    let mut monitor = ChildMonitor::new(descriptor(false), spawner);
    let mut out = SinkBuffer::new();
    let mut err = SinkBuffer::new();
    let e = match run_cycles(&mut monitor, &mut out, &mut err, 4) {
        Ok(_) => panic!("a refused spawn must end the run"),
        Err(e) => e,
    };
    assert!(matches!(e.kind, ErrorKind::StartFailed));
    assert!(out.items.is_empty());
}

#[test]
fn cycle_keeps_each_stream_on_its_own_sink() {
    let spawner = MockSpawner::succeeding(true, b"to stdout".to_vec(), b"to stderr".to_vec());
    let mut monitor = ChildMonitor::new(descriptor(true), spawner);
    let mut out = SinkBuffer::new();
    let mut err = SinkBuffer::new();
    run_cycle(&mut monitor, &mut out, &mut err).unwrap();
    assert_eq!(out.relayed_bytes(), b"to stdout".to_vec());
    assert_eq!(err.relayed_bytes(), b"to stderr".to_vec());
}
