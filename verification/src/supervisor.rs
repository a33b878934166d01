//! The supervision loop's decisions.
//!
//! The loop has two phases, `Starting` and `Running`, and no terminal
//! phase of its own: every termination outcome leads back to
//! `Starting` after one status report and one fixed delay; a failed
//! start is the only way out, and it ends the host process with exit
//! code 1.  The decisions are pure functions here; the blocking work
//! around them — spawning, waiting, sleeping — is the caller's.

use vstd::prelude::*;
use vstd::string::StringExecFns;
use crate::channel::TerminationChannel;
use crate::error::{chain_of, Error, ErrorKind};
use crate::monitor::ChildMonitor;
use crate::spawner::{ExitWaiter, ProcessSpawner, SpawnedProcess};
use crate::stream::{chunk_bytes, relay, ByteSource, OutputSink, SinkEvent};

verus! {

/// The delay before a restart, in milliseconds.  Fixed by design: no
/// backoff growth.
pub const RESTART_DELAY_MS: u64 = 500;

/// Where the supervision loop stands.
#[derive(Clone, Copy, PartialEq, Eq, Structural, Debug)]
pub enum Phase {
    /// About to ask the monitor for a start.
    Starting,
    /// Blocked until the termination signal channel delivers.
    Running,
}

/// What the world reports to the loop.
pub enum LoopEvent {
    /// The monitor's start attempt succeeded.
    StartSucceeded,
    /// The monitor's start attempt failed with this error.
    StartRefused(Error),
    /// The termination signal channel delivered this outcome.
    ChildExited(bool),
}

/// What the loop does next.
pub enum LoopAction {
    /// Block on the termination signal channel.
    AwaitTermination,
    /// Report the status line, wait out the delay, then start again.
    ReportAndRestart { status_line: String, delay_ms: u64 },
    /// Report the error and end the host process with the exit code.
    Fail { error: Error, exit_code: i32 },
}

/// The status line reported after a child exits.
pub open spec fn status_line_spec(clean: bool) -> Seq<char> {
    "Monitored process exited. clean: "@ + (if clean {
        "true"@
    } else {
        "false"@
    })
}

/// Builds the status line reported after a child exits.
pub fn status_line(clean: bool) -> (r: String)
    ensures
        r@ == status_line_spec(clean),
{
    let mut s = String::from_str("Monitored process exited. clean: ");
    s.append(if clean {
        "true"
    } else {
        "false"
    });
    s
}

/// The phase that follows an event.
pub open spec fn phase_after(phase: Phase, event: LoopEvent) -> Phase {
    match event {
        LoopEvent::StartSucceeded => Phase::Running,
        LoopEvent::StartRefused(_) => phase,
        LoopEvent::ChildExited(_) => Phase::Starting,
    }
}

/// One decision of the supervision loop: from its phase and an event
/// to the next phase and the action to take.  A refused start is the
/// only path to `Fail`, and it always carries exit code 1; every
/// termination outcome, clean or not, leads back to `Starting` after
/// one status report and the one fixed delay.
pub fn step(phase: Phase, event: LoopEvent) -> (r: (Phase, LoopAction))
    requires
        phase is Starting ==> !(event is ChildExited),
        phase is Running ==> event is ChildExited,
    ensures
        r.0 == phase_after(phase, event),
        event is StartSucceeded ==> r.1 is AwaitTermination,
        (event matches LoopEvent::StartRefused(e) ==> r.1 matches LoopAction::Fail {
            error,
            exit_code,
        } && error == e && exit_code == 1),
        (event matches LoopEvent::ChildExited(clean) ==> r.1
            matches LoopAction::ReportAndRestart { status_line, delay_ms } && status_line@
            == status_line_spec(clean) && delay_ms == RESTART_DELAY_MS),
{
    match event {
        LoopEvent::StartSucceeded => (Phase::Running, LoopAction::AwaitTermination),
        LoopEvent::StartRefused(e) => (phase, LoopAction::Fail { error: e, exit_code: 1 }),
        LoopEvent::ChildExited(clean) => (
            Phase::Starting,
            LoopAction::ReportAndRestart {
                status_line: status_line(clean),
                delay_ms: RESTART_DELAY_MS,
            },
        ),
    }
}

/// The phase after a whole sequence of events.
pub open spec fn phase_after_all(phase: Phase, events: Seq<LoopEvent>) -> Phase
    decreases events.len(),
{
    if events.len() == 0 {
        phase
    } else {
        phase_after_all(phase_after(phase, events[0]), events.skip(1))
    }
}

/// The event trace of completed supervision cycles in which every
/// start succeeds: start, exit, start, exit, ... with the given
/// termination outcomes.
pub open spec fn cycle_trace(outcomes: Seq<bool>) -> Seq<LoopEvent>
    decreases outcomes.len(),
{
    if outcomes.len() == 0 {
        Seq::empty()
    } else {
        seq![LoopEvent::StartSucceeded, LoopEvent::ChildExited(outcomes[0])] + cycle_trace(
            outcomes.skip(1),
        )
    }
}

/// Law: while every start succeeds, supervision never ends.  After
/// any number of completed cycles, whatever their outcomes, the loop
/// stands in `Starting` again, ready for the next cycle.  The trace
/// strictly alternates starts and exits — so, by the contract of
/// `step`, every cycle takes exactly one `AwaitTermination` and one
/// `ReportAndRestart` with the one fixed delay — and no event of such
/// a trace is a refused start, so the failing action, the only
/// terminal one, is never taken.
pub proof fn lemma_supervision_never_ends(outcomes: Seq<bool>)
    ensures
        phase_after_all(Phase::Starting, cycle_trace(outcomes)) == Phase::Starting,
        cycle_trace(outcomes).len() == 2 * outcomes.len(),
        forall|i: int|
            0 <= i < cycle_trace(outcomes).len() && i % 2 == 0 ==> cycle_trace(outcomes)[i]
                is StartSucceeded,
        forall|i: int|
            0 <= i < cycle_trace(outcomes).len() && i % 2 == 1 ==> cycle_trace(outcomes)[i]
                == LoopEvent::ChildExited(outcomes[i / 2]),
    decreases outcomes.len(),
{
    if outcomes.len() == 0 {
    } else {
        let t = cycle_trace(outcomes);
        let rest = cycle_trace(outcomes.skip(1));
        lemma_supervision_never_ends(outcomes.skip(1));
        assert(t.skip(1).skip(1) =~= rest);
        assert(phase_after_all(Phase::Starting, t) == phase_after_all(
            Phase::Running,
            t.skip(1),
        ));
        assert(forall|i: int| 2 <= i < t.len() ==> t[i] == rest[i - 2]);
        assert forall|i: int| 0 <= i < t.len() && i % 2 == 1 implies t[i]
            == LoopEvent::ChildExited(outcomes[i / 2]) by {
            if i >= 2 {
                assert(rest[i - 2] == LoopEvent::ChildExited(outcomes.skip(1)[(i - 2) / 2]));
                assert(outcomes.skip(1)[(i - 2) / 2] == outcomes[i / 2]);
            }
        }
    }
}

/// What one completed supervision cycle reports.
pub struct CycleReport {
    /// Whether the child's exit was clean.  A failure of the wait
    /// primitive is reported here as an unclean exit, so that an
    /// outcome is still delivered and the loop never deadlocks on the
    /// channel.
    pub clean: bool,
    /// The wait primitive's own failure, if it had one: fatal to the
    /// cycle's watch, surfaced here, not fatal to supervision.
    pub wait_error: Option<Error>,
    /// The failure of the output-stream relay, if it had one:
    /// confined here, never fatal to supervision.
    pub out_relay_error: Option<Error>,
    /// The failure of the error-stream relay, likewise.
    pub err_relay_error: Option<Error>,
    /// The bytes forwarded from the child's output stream.
    pub forwarded_out: Ghost<Seq<u8>>,
    /// The bytes forwarded from the child's error stream.
    pub forwarded_err: Ghost<Seq<u8>>,
}

/// Runs a spawned child's cycle: relays each present stream to its
/// own sink, waits for the exit, passes the one outcome through a
/// fresh termination channel, and reports the status line to the
/// host's output sink.
///
/// The report's outcome is the child's: whatever the waiter was bound
/// to report, the report carries.  A failure of the wait primitive is
/// converted into an unclean outcome rather than into a failure of
/// supervision (the documented choice: fatal to the cycle's watch,
/// not to the loop).  Each stream feeds its own sink and no other;
/// when its relay succeeds, the forwarded bytes are exactly the
/// stream's bytes.
pub fn run_spawned<O, E, W, DO, DE>(
    process: SpawnedProcess<O, E, W>,
    out_sink: &mut DO,
    err_sink: &mut DE,
) -> (rep: CycleReport) where
    O: ByteSource,
    E: ByteSource,
    W: ExitWaiter,
    DO: OutputSink,
    DE: OutputSink,

    ensures
        (process.waiter.outcome() matches Some(c) ==> rep.clean == c && rep.wait_error is None),
        (rep.wait_error matches Some(w) ==> w.kind == ErrorKind::WaitFailed && !rep.clean),
        (process.stdout matches Some(s) ==> (rep.out_relay_error is None
            ==> rep.forwarded_out@ == s.remaining())),
        process.stdout is None ==> rep.out_relay_error is None && rep.forwarded_out@
            == Seq::<u8>::empty() && final(out_sink).events() == old(out_sink).events().push(
            SinkEvent::Line(status_line_spec(rep.clean)),
        ),
        (process.stderr matches Some(s) ==> (rep.err_relay_error is None
            ==> rep.forwarded_err@ == s.remaining())),
        process.stderr is None ==> rep.err_relay_error is None && rep.forwarded_err@
            == Seq::<u8>::empty() && final(err_sink).events() == old(err_sink).events(),
        rep.out_relay_error matches Some(e) ==> e.kind == ErrorKind::StreamCopyFailed,
        rep.err_relay_error matches Some(e) ==> e.kind == ErrorKind::StreamCopyFailed,
        final(out_sink).events() == final(out_sink).events().drop_last().push(
            SinkEvent::Line(status_line_spec(rep.clean)),
        ),
        old(out_sink).events().is_prefix_of(final(out_sink).events().drop_last()),
        forall|i: int|
            old(out_sink).events().len() <= i < final(out_sink).events().len() - 1
                ==> final(out_sink).events()[i] is Chunk,
        chunk_bytes(final(out_sink).events()) == chunk_bytes(old(out_sink).events())
            + rep.forwarded_out@,
        old(err_sink).events().is_prefix_of(final(err_sink).events()),
        forall|i: int|
            old(err_sink).events().len() <= i < final(err_sink).events().len()
                ==> final(err_sink).events()[i] is Chunk,
        chunk_bytes(final(err_sink).events()) == chunk_bytes(old(err_sink).events())
            + rep.forwarded_err@,
{
    let mut out_relay_error: Option<Error> = None;
    let mut err_relay_error: Option<Error> = None;
    let ghost mut forwarded_out = Seq::<u8>::empty();
    let ghost mut forwarded_err = Seq::<u8>::empty();
    match process.stdout {
        Some(mut stream) => {
            let ghost out0 = out_sink.events();
            let ghost pre = stream.remaining();
            match relay(&mut stream, out_sink) {
                Ok(_) => {
                    proof {
                        forwarded_out = pre;
                    }
                },
                Err(e) => {
                    out_relay_error = Some(e);
                    proof {
                        forwarded_out = chunk_bytes(out_sink.events()).skip(
                            chunk_bytes(out0).len() as int,
                        );
                    }
                },
            }
            proof {
                assert(chunk_bytes(out_sink.events()) =~= chunk_bytes(out0) + forwarded_out);
            }
        },
        None => {},
    }
    match process.stderr {
        Some(mut stream) => {
            let ghost err0 = err_sink.events();
            let ghost pre = stream.remaining();
            match relay(&mut stream, err_sink) {
                Ok(_) => {
                    proof {
                        forwarded_err = pre;
                    }
                },
                Err(e) => {
                    err_relay_error = Some(e);
                    proof {
                        forwarded_err = chunk_bytes(err_sink.events()).skip(
                            chunk_bytes(err0).len() as int,
                        );
                    }
                },
            }
            proof {
                assert(chunk_bytes(err_sink.events()) =~= chunk_bytes(err0) + forwarded_err);
            }
        },
        None => {},
    }
    let (clean, wait_error) = match process.waiter.wait() {
        Ok(c) => (c, None),
        Err(e) => (false, Some(e)),
    };
    let mut signal = TerminationChannel::new();
    signal.send(clean);
    let delivered = signal.receive();
    let line = status_line(delivered);
    let ghost out_before_line = out_sink.events();
    out_sink.write_line(&line);
    proof {
        crate::stream::lemma_chunk_bytes_push_line(out_before_line, line@);
    }
    CycleReport {
        clean: delivered,
        wait_error,
        out_relay_error,
        err_relay_error,
        forwarded_out: Ghost(forwarded_out),
        forwarded_err: Ghost(forwarded_err),
    }
}


/// Runs one whole supervision cycle: one start attempt, then — on
/// success — the spawned child's cycle (`run_spawned`).  A refused
/// start is the cycle's only error and leaves both sinks untouched;
/// where the refusal was fixed in advance, the error's chain is
/// exactly the wrapping message followed by that refusal.
pub fn run_cycle<S, DO, DE>(
    monitor: &mut ChildMonitor<S>,
    out_sink: &mut DO,
    err_sink: &mut DE,
) -> (r: Result<CycleReport, Error>) where
    S: ProcessSpawner,
    S::Stdout: ByteSource,
    S::Stderr: ByteSource,
    DO: OutputSink,
    DE: OutputSink,

    ensures
        final(monitor).descriptor == old(monitor).descriptor,
        old(monitor).spawner.spawn_ok() ==> r is Ok && final(monitor).spawner.spawn_ok(),
        old(monitor).spawner.spawn_fails() ==> r is Err,
        (r matches Err(e) ==> {
            &&& e.kind == ErrorKind::StartFailed
            &&& e.message@ == "unable to start "@ + old(monitor).descriptor@.executable_path
            &&& e.cause matches Some(c) && c.kind == ErrorKind::SpawnFailed
            &&& e.backtrace is None
            &&& old(monitor).spawner.spawn_fails() ==> chain_of(e) == seq![
                e.message@,
                old(monitor).spawner.refusal(),
            ]
            &&& final(out_sink).events() == old(out_sink).events()
            &&& final(err_sink).events() == old(err_sink).events()
        }),
        (r matches Ok(rep) ==> {
            &&& rep.wait_error matches Some(w) ==> w.kind == ErrorKind::WaitFailed && !rep.clean
            &&& rep.out_relay_error matches Some(e) ==> e.kind == ErrorKind::StreamCopyFailed
            &&& rep.err_relay_error matches Some(e) ==> e.kind == ErrorKind::StreamCopyFailed
            &&& final(out_sink).events() == final(out_sink).events().drop_last().push(
                SinkEvent::Line(status_line_spec(rep.clean)),
            )
            &&& old(out_sink).events().is_prefix_of(final(out_sink).events().drop_last())
            &&& forall|i: int|
                old(out_sink).events().len() <= i < final(out_sink).events().len() - 1
                    ==> final(out_sink).events()[i] is Chunk
            &&& chunk_bytes(final(out_sink).events()) == chunk_bytes(old(out_sink).events())
                + rep.forwarded_out@
            &&& old(err_sink).events().is_prefix_of(final(err_sink).events())
            &&& forall|i: int|
                old(err_sink).events().len() <= i < final(err_sink).events().len()
                    ==> final(err_sink).events()[i] is Chunk
            &&& chunk_bytes(final(err_sink).events()) == chunk_bytes(old(err_sink).events())
                + rep.forwarded_err@
            &&& !old(monitor).descriptor@.forward_output ==> {
                &&& rep.forwarded_out@ == Seq::<u8>::empty()
                &&& rep.forwarded_err@ == Seq::<u8>::empty()
                &&& rep.out_relay_error is None
                &&& rep.err_relay_error is None
                &&& final(err_sink).events() == old(err_sink).events()
                &&& final(out_sink).events() == old(out_sink).events().push(
                    SinkEvent::Line(status_line_spec(rep.clean)),
                )
            }
        }),
{
    let started = match monitor.start() {
        Ok(p) => p,
        Err(e) => {
            return Err(e);
        },
    };
    Ok(run_spawned(started, out_sink, err_sink))
}

/// Runs supervision cycles in a row.  With a spawner that keeps
/// succeeding, every requested cycle completes — supervision goes on
/// for as long as it is asked to — with one report per cycle and at
/// least one event, the status line, on the host's output sink per
/// cycle.  The first refused start ends the run with the same error
/// a single cycle would give.
pub fn run_cycles<S, DO, DE>(
    monitor: &mut ChildMonitor<S>,
    out_sink: &mut DO,
    err_sink: &mut DE,
    cycles: usize,
) -> (r: Result<Vec<CycleReport>, Error>) where
    S: ProcessSpawner,
    S::Stdout: ByteSource,
    S::Stderr: ByteSource,
    DO: OutputSink,
    DE: OutputSink,

    ensures
        final(monitor).descriptor == old(monitor).descriptor,
        old(monitor).spawner.spawn_ok() ==> r is Ok && final(monitor).spawner.spawn_ok(),
        cycles > 0 && old(monitor).spawner.spawn_fails() ==> r is Err,
        (r matches Ok(reports) ==> {
            &&& reports@.len() == cycles
            &&& final(out_sink).events().len() >= old(out_sink).events().len() + cycles
            &&& forall|i: int|
                0 <= i < reports@.len() ==> ((#[trigger] reports@[i]).wait_error matches Some(w) ==> w.kind
                    == ErrorKind::WaitFailed && !reports@[i].clean)
            &&& forall|i: int|
                0 <= i < reports@.len() ==> ((#[trigger] reports@[i]).out_relay_error matches Some(e)
                    ==> e.kind == ErrorKind::StreamCopyFailed)
            &&& forall|i: int|
                0 <= i < reports@.len() ==> ((#[trigger] reports@[i]).err_relay_error matches Some(e)
                    ==> e.kind == ErrorKind::StreamCopyFailed)
        }),
        (r matches Err(e) ==> {
            &&& e.kind == ErrorKind::StartFailed
            &&& e.message@ == "unable to start "@ + old(monitor).descriptor@.executable_path
            &&& e.cause matches Some(c) && c.kind == ErrorKind::SpawnFailed
            &&& e.backtrace is None
            &&& old(monitor).spawner.spawn_fails() ==> chain_of(e) == seq![
                e.message@,
                old(monitor).spawner.refusal(),
            ]
        }),
{
    let mut reports: Vec<CycleReport> = Vec::new();
    let mut i: usize = 0;
    while i < cycles
        invariant
            i <= cycles,
            reports@.len() == i,
            monitor.descriptor == old(monitor).descriptor,
            old(monitor).spawner.spawn_ok() ==> monitor.spawner.spawn_ok(),
            old(monitor).spawner.spawn_fails() ==> i == 0 && monitor.spawner == old(
                monitor,
            ).spawner,
            out_sink.events().len() >= old(out_sink).events().len() + i,
            forall|j: int|
                0 <= j < reports@.len() ==> ((#[trigger] reports@[j]).wait_error matches Some(w) ==> w.kind
                    == ErrorKind::WaitFailed && !reports@[j].clean),
            forall|j: int|
                0 <= j < reports@.len() ==> ((#[trigger] reports@[j]).out_relay_error matches Some(e)
                    ==> e.kind == ErrorKind::StreamCopyFailed),
            forall|j: int|
                0 <= j < reports@.len() ==> ((#[trigger] reports@[j]).err_relay_error matches Some(e)
                    ==> e.kind == ErrorKind::StreamCopyFailed),
        decreases cycles - i,
    {
        match run_cycle(monitor, out_sink, err_sink) {
            Ok(report) => {
                reports.push(report);
            },
            Err(e) => {
                return Err(e);
            },
        }
        i = i + 1;
    }
    Ok(reports)
}

} // verus!
