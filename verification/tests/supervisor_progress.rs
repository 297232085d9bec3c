use resample2::errors::OrchestratorError;
use resample2::progress::{parse_progress_line, ProgressKind};
use resample2::supervisor::{
    build_cleanup_commands, build_kill_command, plan_stop, ExitDirective, Phase, ProcessSlot,
    SupervisorState,
};

#[test]
fn progress_line_with_fraction() {
    let r = parse_progress_line("[download]  45.3% of 3.5MiB at 1.2MiB/s");
    assert_eq!(r, Some((45300, ProgressKind::Download)));
}

#[test]
fn progress_line_whole_percent() {
    assert_eq!(
        parse_progress_line("[download] 100% of 3.5MiB"),
        Some((100000, ProgressKind::Download))
    );
    assert_eq!(parse_progress_line("[download] 7% done"), Some((7000, ProgressKind::Download)));
}

#[test]
fn progress_line_postprocess_template() {
    assert_eq!(
        parse_progress_line("[postprocess] 80.5% done"),
        Some((80500, ProgressKind::Postprocess))
    );
    // the download template wins when both occur
    assert_eq!(
        parse_progress_line("[download] [postprocess] 10%"),
        Some((10000, ProgressKind::Download))
    );
}

#[test]
fn progress_line_requires_template() {
    assert_eq!(parse_progress_line("45.3% of 3.5MiB"), None);
    assert_eq!(parse_progress_line("[ffmpeg] merging formats"), None);
    assert_eq!(parse_progress_line("[download] Destination: a.mp3"), None);
}

#[test]
fn failed_attempt_then_successful_retry_is_overall_success() {
    let (st, ev0) = SupervisorState::start();
    assert_eq!(ev0.phase, Phase::Downloading);
    assert_eq!(ev0.percent_milli, 0);

    // first attempt fails: one reduced retry, no error event
    let (st, dir, ev1) = st.on_exit(false);
    assert!(matches!(dir, ExitDirective::RetryReduced));
    assert!(ev1.is_none());

    // the retry succeeds: overall success, completion event
    let (st, dir2, ev2) = st.on_exit(true);
    assert!(matches!(st, SupervisorState::Succeeded));
    assert!(matches!(dir2, ExitDirective::Proceed));
    let ev2 = ev2.unwrap();
    assert_eq!(ev2.phase, Phase::Completed);
    assert_eq!(ev2.percent_milli, 100000);
    assert_ne!(ev0.phase, Phase::Error);
}

#[test]
fn second_failure_surfaces_last_diagnostic() {
    let (st, _) = SupervisorState::start();
    let (st, ev) = st.on_line("[download] 12% of 1MiB");
    let ev = ev.unwrap();
    assert_eq!(ev.percent_milli, 12000);
    assert_eq!(ev.phase, Phase::Downloading);
    let (st, ev) = st.on_line("[postprocess] 40% done");
    let ev = ev.unwrap();
    assert_eq!(ev.phase, Phase::Processing);
    assert_eq!(ev.message, "Processing...");
    let (st, ev) = st.on_line("ERROR: fragment 3 not found");
    assert!(ev.is_none());
    let (st, dir, _) = st.on_exit(false);
    assert!(matches!(dir, ExitDirective::RetryReduced));
    let (st, dir, ev) = st.on_exit(false);
    assert!(matches!(st, SupervisorState::Failed { .. }));
    match dir {
        ExitDirective::Surface(OrchestratorError::ExternalToolFailure(msg)) => {
            assert_eq!(msg, "ERROR: fragment 3 not found");
        },
        _ => panic!("expected a surfaced external-tool failure"),
    }
    let ev = ev.unwrap();
    assert_eq!(ev.phase, Phase::Error);
}

#[test]
fn latest_diagnostic_wins() {
    // the error stream is fed last by the outer layer, so the tool's own
    // error text replaces earlier incidental lines
    let (st, _) = SupervisorState::start();
    let (st, _) = st.on_line("WARNING: something incidental");
    let (st, _) = st.on_line("ERROR: the tool's own error text");
    let (st, _, _) = st.on_exit(false);
    let (_, dir, _) = st.on_exit(false);
    match dir {
        ExitDirective::Surface(OrchestratorError::ExternalToolFailure(msg)) => {
            assert_eq!(msg, "ERROR: the tool's own error text");
        },
        _ => panic!("expected a surfaced external-tool failure"),
    }
}

#[test]
fn second_failure_without_diagnostic_uses_generic_message() {
    let (st, _) = SupervisorState::start();
    let (st, _, _) = st.on_exit(false);
    let (_, dir, _) = st.on_exit(false);
    match dir {
        ExitDirective::Surface(OrchestratorError::ExternalToolFailure(msg)) => {
            assert_eq!(msg, "External tool failed with no diagnostic output");
        },
        _ => panic!("expected a surfaced external-tool failure"),
    }
}

#[test]
fn stop_plan_with_and_without_tracked_process() {
    let p = plan_stop(0);
    assert!(p.kill_pid.is_none());
    assert!(p.cleanup);
    let p = plan_stop(4711);
    assert_eq!(p.kill_pid, Some(4711));
    assert!(p.cleanup);
}

#[test]
fn kill_and_cleanup_commands() {
    let (prog, args) = build_kill_command(false, 4711);
    assert_eq!(prog, "kill");
    assert_eq!(args, vec!["-TERM", "4711"]);
    let (prog, args) = build_kill_command(true, 4711);
    assert_eq!(prog, "taskkill");
    assert_eq!(args, vec!["/PID", "4711", "/T", "/F"]);

    let cmds = build_cleanup_commands(true);
    assert_eq!(cmds.len(), 1);
    assert_eq!(cmds[0].0, "taskkill");
    assert_eq!(cmds[0].1, vec!["/F", "/IM", "ffmpeg.exe"]);
    let cmds = build_cleanup_commands(false);
    assert_eq!(cmds.len(), 2);
    assert_eq!(cmds[0].1, vec!["-9", "-f", "ffmpeg"]);
    assert_eq!(cmds[1].1, vec!["-f", "ffmpeg"]);
}

#[test]
fn process_slot_set_take() {
    let mut slot = ProcessSlot::new();
    assert_eq!(slot.current(), 0);
    slot.set(99);
    assert_eq!(slot.current(), 99);
    assert_eq!(slot.take(), 99);
    assert_eq!(slot.current(), 0);
    assert_eq!(slot.take(), 0);
}
