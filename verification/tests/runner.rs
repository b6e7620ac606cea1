use xcopr::errors::XcoprError;
use xcopr::runner::Action;
use xcopr::runner::Runner;
use xcopr::runner::SpawnReply;
use xcopr::runner::WaitReply;
use xcopr::status::StageStatus;
use xcopr::wiring::StdinSource;
use xcopr::wiring::StdoutSink;

fn commands(texts: &[&str]) -> Vec<String> {
    texts.iter().map(|t| t.to_string()).collect()
}

fn expect_spawn(r: &Runner) -> (usize, String, StdinSource, StdoutSink) {
    match r.next_action() {
        Action::Spawn { index, command, stdin, stdout } => (index, command, stdin, stdout),
        _ => panic!("expected a spawn action"),
    }
}

fn expect_wait(r: &Runner) -> usize {
    match r.next_action() {
        Action::Wait { index } => index,
        _ => panic!("expected a wait action"),
    }
}

fn expect_finish(r: &Runner) -> bool {
    match r.next_action() {
        Action::Finish { success } => success,
        _ => panic!("expected the run to be finished"),
    }
}

#[test]
fn single_stage_inherits_both_streams() {
    let mut r = Runner::new(commands(&["cat"]));
    let (index, command, stdin, stdout) = expect_spawn(&r);
    assert_eq!(index, 0);
    assert_eq!(command, "cat");
    assert_eq!(stdin, StdinSource::RunnerInherited);
    assert_eq!(stdout, StdoutSink::RunnerInherited);
    r.on_spawn_reply(SpawnReply::Spawned { stdout_captured: false });
    assert_eq!(expect_wait(&r), 0);
    r.on_wait_reply(WaitReply::Exited { status: StageStatus { code: Some(0) } });
    assert!(expect_finish(&r));
    assert!(matches!(r.into_result(), Ok(())));
}

#[test]
fn three_stage_chain_is_wired_in_order() {
    let mut r = Runner::new(commands(&["echo hi", "tr a-z A-Z", "sed s/^/m:/"]));

    let (index, command, stdin, stdout) = expect_spawn(&r);
    assert_eq!(index, 0);
    assert_eq!(command, "echo hi");
    assert_eq!(stdin, StdinSource::RunnerInherited);
    assert_eq!(stdout, StdoutSink::Piped);
    r.on_spawn_reply(SpawnReply::Spawned { stdout_captured: true });

    let (index, command, stdin, stdout) = expect_spawn(&r);
    assert_eq!(index, 1);
    assert_eq!(command, "tr a-z A-Z");
    assert_eq!(stdin, StdinSource::PipeFromPrev);
    assert_eq!(stdout, StdoutSink::Piped);
    r.on_spawn_reply(SpawnReply::Spawned { stdout_captured: true });

    let (index, command, stdin, stdout) = expect_spawn(&r);
    assert_eq!(index, 2);
    assert_eq!(command, "sed s/^/m:/");
    assert_eq!(stdin, StdinSource::PipeFromPrev);
    assert_eq!(stdout, StdoutSink::RunnerInherited);
    r.on_spawn_reply(SpawnReply::Spawned { stdout_captured: false });

    for i in 0..3 {
        assert_eq!(expect_wait(&r), i);
        r.on_wait_reply(WaitReply::Exited { status: StageStatus { code: Some(0) } });
    }
    assert!(expect_finish(&r));
    assert!(matches!(r.into_result(), Ok(())));
}

#[test]
fn empty_commands_fail_without_spawning() {
    let r = Runner::new(Vec::new());
    assert!(!expect_finish(&r));
    match r.into_result() {
        Err(XcoprError::MissingArgs(arg)) => assert_eq!(arg, "coproc"),
        other => panic!("expected MissingArgs, got {:?}", other),
    }
}

#[test]
fn first_stage_failure_is_reported_over_second() {
    let mut r = Runner::new(commands(&["exit 3", "cat"]));
    r.on_spawn_reply(SpawnReply::Spawned { stdout_captured: true });
    r.on_spawn_reply(SpawnReply::Spawned { stdout_captured: false });
    assert_eq!(expect_wait(&r), 0);
    r.on_wait_reply(WaitReply::Exited { status: StageStatus { code: Some(3) } });
    assert!(!expect_finish(&r));
    match r.into_result() {
        Err(XcoprError::SubprocExitError { command, status }) => {
            assert_eq!(command, "exit 3");
            assert_eq!(status, StageStatus { code: Some(3) });
        },
        other => panic!("expected SubprocExitError, got {:?}", other),
    }
}

#[test]
fn second_stage_failure_is_reported_after_first_succeeds() {
    let mut r = Runner::new(commands(&["echo hi", "exit 2"]));
    r.on_spawn_reply(SpawnReply::Spawned { stdout_captured: true });
    r.on_spawn_reply(SpawnReply::Spawned { stdout_captured: false });
    assert_eq!(expect_wait(&r), 0);
    r.on_wait_reply(WaitReply::Exited { status: StageStatus { code: Some(0) } });
    assert_eq!(expect_wait(&r), 1);
    r.on_wait_reply(WaitReply::Exited { status: StageStatus { code: Some(2) } });
    assert!(!expect_finish(&r));
    match r.into_result() {
        Err(XcoprError::SubprocExitError { command, status }) => {
            assert_eq!(command, "exit 2");
            assert_eq!(status, StageStatus { code: Some(2) });
        },
        other => panic!("expected SubprocExitError, got {:?}", other),
    }
}

#[test]
fn spawn_failure_of_second_stage_skips_the_third() {
    let mut r = Runner::new(commands(&["echo hi", "no-such-executable", "cat"]));
    r.on_spawn_reply(SpawnReply::Spawned { stdout_captured: true });
    let (index, command, _, _) = expect_spawn(&r);
    assert_eq!(index, 1);
    assert_eq!(command, "no-such-executable");
    r.on_spawn_reply(SpawnReply::Failed { error: "No such file or directory".to_string() });
    // The run is over at once: the third command is never asked to spawn.
    assert!(!expect_finish(&r));
    match r.into_result() {
        Err(XcoprError::SubprocSpawnFailed { command, source }) => {
            assert_eq!(command, "no-such-executable");
            assert_eq!(source, "No such file or directory");
        },
        other => panic!("expected SubprocSpawnFailed, got {:?}", other),
    }
}

#[test]
fn uncaptured_stdout_of_a_middle_stage_fails_the_run() {
    let mut r = Runner::new(commands(&["echo hi", "cat"]));
    r.on_spawn_reply(SpawnReply::Spawned { stdout_captured: false });
    assert!(!expect_finish(&r));
    match r.into_result() {
        Err(XcoprError::SubprocStdoutNotCaptured(command)) => assert_eq!(command, "echo hi"),
        other => panic!("expected SubprocStdoutNotCaptured, got {:?}", other),
    }
}

#[test]
fn wait_failure_is_reported_as_wait_failed() {
    let mut r = Runner::new(commands(&["cat"]));
    r.on_spawn_reply(SpawnReply::Spawned { stdout_captured: false });
    r.on_wait_reply(WaitReply::Failed { error: "interrupted".to_string() });
    assert!(!expect_finish(&r));
    match r.into_result() {
        Err(XcoprError::SubprocWaitFailed { command, source }) => {
            assert_eq!(command, "cat");
            assert_eq!(source, "interrupted");
        },
        other => panic!("expected SubprocWaitFailed, got {:?}", other),
    }
}

#[test]
fn signal_termination_counts_as_failure() {
    let mut r = Runner::new(commands(&["cat"]));
    r.on_spawn_reply(SpawnReply::Spawned { stdout_captured: false });
    r.on_wait_reply(WaitReply::Exited { status: StageStatus { code: None } });
    assert!(!expect_finish(&r));
    match r.into_result() {
        Err(XcoprError::SubprocExitError { command, status }) => {
            assert_eq!(command, "cat");
            assert_eq!(status, StageStatus { code: None });
        },
        other => panic!("expected SubprocExitError, got {:?}", other),
    }
}
