use vstd::prelude::*;
use crate::errors::XcoprError;
use crate::status::StageStatus;
use crate::wiring::spec_stage_stdin;
use crate::wiring::spec_stage_stdout;
use crate::wiring::stage_stdin;
use crate::wiring::stage_stdout;
use crate::wiring::StdinSource;
use crate::wiring::StdoutSink;

verus! {

/// What the caller learned from trying to spawn one stage.
pub enum SpawnReply {
    /// The process started. `stdout_captured` says whether its standard
    /// output was obtained as a pipe read end; it is only consulted for
    /// non-final stages, whose output must feed the next stage.
    Spawned { stdout_captured: bool },
    /// The operating system refused to start the process; carries the
    /// rendered OS error.
    Failed { error: String },
}

/// What the caller learned from waiting on one stage.
pub enum WaitReply {
    /// The process terminated with the given status.
    Exited { status: StageStatus },
    /// Waiting itself failed at the OS level; carries the rendered OS
    /// error. This is not a non-zero exit.
    Failed { error: String },
}

/// The next thing the caller must do to move the run forward.
pub enum Action {
    /// Start stage `index` by running the command interpreter on
    /// `command` with the given stream wiring, then report a
    /// [`SpawnReply`].
    Spawn { index: usize, command: String, stdin: StdinSource, stdout: StdoutSink },
    /// Block until the stage spawned `index`-th terminates, then report a
    /// [`WaitReply`].
    Wait { index: usize },
    /// The run is over; `success` tells the overall verdict, and
    /// [`Runner::into_result`] yields the detailed outcome.
    Finish { success: bool },
}

/// Which part of its lifecycle a run is in.
pub enum Phase {
    /// Stages `0..next` were started; stage `next` is to be spawned.
    Spawning { next: usize },
    /// Every stage was started; stage `next` is to be waited on.
    Waiting { next: usize },
    /// The run ended with this outcome.
    Done { result: Result<(), XcoprError> },
}

/// The pipeline run lifecycle as a state machine.
///
/// A run walks two strict phases over the command sequence: first every
/// stage is spawned in order (so all stages execute concurrently), then
/// every stage is waited on in spawn order (so failure attribution is
/// deterministic). The caller performs the actual spawn and wait calls
/// and feeds each result back; every decision — stream wiring, abort on
/// the first error, outcome aggregation — is made here.
pub struct Runner {
    /// The command strings, one per stage, in pipeline order.
    pub commands: Vec<String>,
    /// Where the run currently stands.
    pub phase: Phase,
    /// How many stages have been started (ghost bookkeeping).
    pub spawned: Ghost<int>,
    /// The termination statuses observed so far, in wait order (ghost
    /// bookkeeping).
    pub waited: Ghost<Seq<StageStatus>>,
}

impl Runner {
    /// The number of stages.
    pub open spec fn n(self) -> int {
        self.commands@.len() as int
    }

    /// Every status among the first `k` observed is a success.
    pub open spec fn all_waited_succeeded_before(self, k: int) -> bool {
        forall|j: int| 0 <= j < k ==> self.waited@[j].spec_success()
    }

    /// The well-formedness invariant: what each phase guarantees about
    /// the spawn and wait history.
    pub open spec fn wf(self) -> bool {
        match self.phase {
            Phase::Spawning { next } => {
                &&& 0 < self.n()
                &&& (next as int) < self.n()
                &&& self.spawned@ == next as int
                &&& self.waited@.len() == 0
            },
            Phase::Waiting { next } => {
                &&& 0 < self.n()
                &&& (next as int) < self.n()
                &&& self.spawned@ == self.n()
                &&& self.waited@.len() == next as int
                &&& self.all_waited_succeeded_before(next as int)
            },
            Phase::Done { result } => match result {
                Ok(u) => {
                    &&& 0 < self.n()
                    &&& self.spawned@ == self.n()
                    &&& self.waited@.len() == self.n()
                    &&& self.all_waited_succeeded_before(self.n())
                },
                Err(e) => match e {
                    XcoprError::MissingArgs(arg) => {
                        &&& self.n() == 0
                        &&& self.spawned@ == 0
                        &&& self.waited@.len() == 0
                    },
                    XcoprError::SubprocSpawnFailed { command, source } => {
                        &&& 0 <= self.spawned@ < self.n()
                        &&& command@ == self.commands@[self.spawned@]@
                        &&& self.waited@.len() == 0
                    },
                    XcoprError::SubprocStdoutNotCaptured(command) => {
                        &&& 1 <= self.spawned@ < self.n()
                        &&& command@ == self.commands@[self.spawned@ - 1]@
                        &&& self.waited@.len() == 0
                    },
                    XcoprError::SubprocWaitFailed { command, source } => {
                        &&& 0 < self.n()
                        &&& self.spawned@ == self.n()
                        &&& self.waited@.len() < self.n()
                        &&& command@ == self.commands@[self.waited@.len() as int]@
                        &&& self.all_waited_succeeded_before(self.waited@.len() as int)
                    },
                    XcoprError::SubprocExitError { command, status } => {
                        let k = self.waited@.len() as int - 1;
                        &&& 0 < self.n()
                        &&& self.spawned@ == self.n()
                        &&& 1 <= self.waited@.len() <= self.n()
                        &&& command@ == self.commands@[k]@
                        &&& status == self.waited@[k]
                        &&& !status.spec_success()
                        &&& self.all_waited_succeeded_before(k)
                    },
                },
            },
        }
    }

    /// Starts a run over the given command sequence. An empty sequence
    /// ends the run at once with `MissingArgs`, before any stage is
    /// spawned; otherwise the run begins by spawning stage 0.
    pub fn new(commands: Vec<String>) -> (r: Runner)
        ensures
            r.wf(),
            r.commands == commands,
            r.spawned@ == 0,
            r.waited@.len() == 0,
            commands@.len() == 0 ==> r.phase matches Phase::Done {
                result: Err(XcoprError::MissingArgs(arg)),
            },
            commands@.len() > 0 ==> r.phase == (Phase::Spawning { next: 0 }),
    {
        if commands.len() == 0 {
            Runner {
                commands,
                phase: Phase::Done { result: Err(XcoprError::MissingArgs("coproc")) },
                spawned: Ghost(0),
                waited: Ghost(Seq::empty()),
            }
        } else {
            Runner {
                commands,
                phase: Phase::Spawning { next: 0 },
                spawned: Ghost(0),
                waited: Ghost(Seq::empty()),
            }
        }
    }

    /// Tells the caller what to do next. While spawning, the request
    /// carries exactly the wiring of the stage at hand: the first stage
    /// reads the runner's input, every later stage reads the previous
    /// stage's pipe, every non-final stage writes a fresh pipe, and the
    /// last stage writes the runner's output.
    pub fn next_action(&self) -> (a: Action)
        requires
            self.wf(),
        ensures
            self.phase matches Phase::Spawning { next } ==> (a matches Action::Spawn {
                index,
                command,
                stdin,
                stdout,
            } && index == next && command@ == self.commands@[next as int]@ && stdin
                == spec_stage_stdin(next as int) && stdout == spec_stage_stdout(
                next as int,
                self.n(),
            )),
            self.phase matches Phase::Waiting { next } ==> (a matches Action::Wait { index }
                && index == next),
            self.phase matches Phase::Done { result } ==> (a matches Action::Finish { success }
                && success == (result is Ok)),
    {
        match &self.phase {
            Phase::Spawning { next } => {
                let i = *next;
                Action::Spawn {
                    index: i,
                    command: self.commands[i].clone(),
                    stdin: stage_stdin(i),
                    stdout: stage_stdout(i, self.commands.len()),
                }
            },
            Phase::Waiting { next } => Action::Wait { index: *next },
            Phase::Done { result } => Action::Finish { success: result.is_ok() },
        }
    }

    /// Records the result of spawning the stage at hand. A spawn failure
    /// ends the run at once with `SubprocSpawnFailed` for that stage's
    /// command — later stages are never started. A non-final stage whose
    /// output was not captured ends the run with `SubprocStdoutNotCaptured`.
    /// Otherwise the run moves to the next stage, or, after the last one,
    /// into the wait phase.
    pub fn on_spawn_reply(&mut self, reply: SpawnReply)
        requires
            old(self).wf(),
            old(self).phase is Spawning,
        ensures
            final(self).wf(),
            final(self).commands == old(self).commands,
            final(self).waited@ == old(self).waited@,
            ({
                let i = old(self).phase->Spawning_next as int;
                let n = old(self).n();
                match reply {
                    SpawnReply::Failed { error } => {
                        &&& final(self).spawned@ == i
                        &&& final(self).phase matches Phase::Done {
                            result: Err(XcoprError::SubprocSpawnFailed { command, source }),
                        } && command@ == old(self).commands@[i]@ && source == error
                    },
                    SpawnReply::Spawned { stdout_captured } => {
                        &&& final(self).spawned@ == i + 1
                        &&& (i < n - 1 && !stdout_captured) ==> (final(self).phase matches
                        Phase::Done {
                            result: Err(XcoprError::SubprocStdoutNotCaptured(command)),
                        } && command@ == old(self).commands@[i]@)
                        &&& (i < n - 1 && stdout_captured) ==> final(self).phase == (
                        Phase::Spawning { next: (i + 1) as usize })
                        &&& i == n - 1 ==> final(self).phase == (Phase::Waiting { next: 0 })
                    },
                }
            }),
    {
        let i = match &self.phase {
            Phase::Spawning { next } => *next,
            _ => 0,
        };
        let n = self.commands.len();
        match reply {
            SpawnReply::Failed { error } => {
                self.phase = Phase::Done {
                    result: Err(
                        XcoprError::SubprocSpawnFailed {
                            command: self.commands[i].clone(),
                            source: error,
                        },
                    ),
                };
            },
            SpawnReply::Spawned { stdout_captured } => {
                self.spawned = Ghost(self.spawned@ + 1);
                if i < n - 1 {
                    if !stdout_captured {
                        self.phase = Phase::Done {
                            result: Err(
                                XcoprError::SubprocStdoutNotCaptured(self.commands[i].clone()),
                            ),
                        };
                    } else {
                        self.phase = Phase::Spawning { next: i + 1 };
                    }
                } else {
                    self.phase = Phase::Waiting { next: 0 };
                }
            },
        }
    }

    /// Records the result of waiting on the stage at hand. An OS-level
    /// wait failure ends the run with `SubprocWaitFailed`; a non-success
    /// termination ends it with `SubprocExitError`, naming that stage's
    /// command and status; a success moves the wait on to the next stage,
    /// and past the last stage the run ends in overall success. Later
    /// stages are never waited on after a failure.
    pub fn on_wait_reply(&mut self, reply: WaitReply)
        requires
            old(self).wf(),
            old(self).phase is Waiting,
        ensures
            final(self).wf(),
            final(self).commands == old(self).commands,
            final(self).spawned@ == old(self).spawned@,
            ({
                let i = old(self).phase->Waiting_next as int;
                let n = old(self).n();
                match reply {
                    WaitReply::Failed { error } => {
                        &&& final(self).waited@ == old(self).waited@
                        &&& final(self).phase matches Phase::Done {
                            result: Err(XcoprError::SubprocWaitFailed { command, source }),
                        } && command@ == old(self).commands@[i]@ && source == error
                    },
                    WaitReply::Exited { status } => {
                        &&& final(self).waited@ == old(self).waited@.push(status)
                        &&& !status.spec_success() ==> (final(self).phase matches Phase::Done {
                            result: Err(XcoprError::SubprocExitError { command, status: st }),
                        } && command@ == old(self).commands@[i]@ && st == status)
                        &&& (status.spec_success() && i < n - 1) ==> final(self).phase == (
                        Phase::Waiting { next: (i + 1) as usize })
                        &&& (status.spec_success() && i == n - 1) ==> final(self).phase == (
                        Phase::Done { result: Ok(()) })
                    },
                }
            }),
    {
        let i = match &self.phase {
            Phase::Waiting { next } => *next,
            _ => 0,
        };
        let n = self.commands.len();
        match reply {
            WaitReply::Failed { error } => {
                self.phase = Phase::Done {
                    result: Err(
                        XcoprError::SubprocWaitFailed {
                            command: self.commands[i].clone(),
                            source: error,
                        },
                    ),
                };
            },
            WaitReply::Exited { status } => {
                self.waited = Ghost(self.waited@.push(status));
                let ok = status.success();
                if !ok {
                    self.phase = Phase::Done {
                        result: Err(
                            XcoprError::SubprocExitError {
                                command: self.commands[i].clone(),
                                status,
                            },
                        ),
                    };
                } else if i < n - 1 {
                    self.phase = Phase::Waiting { next: i + 1 };
                } else {
                    self.phase = Phase::Done { result: Ok(()) };
                }
            },
        }
    }

    /// Hands out the outcome of a finished run.
    pub fn into_result(self) -> (r: Result<(), XcoprError>)
        requires
            self.wf(),
            self.phase is Done,
        ensures
            r == self.phase->Done_result,
    {
        match self.phase {
            Phase::Done { result } => result,
            _ => vstd::pervasive::unreached(),
        }
    }
}

/// Law: a run that ends in `SubprocExitError` reports the first failure
/// in wait order. Every stage waited on earlier terminated successfully,
/// and the named command and status are those of the failing stage
/// itself, so an earlier stage's failure is never masked by a later one.
pub proof fn lemma_exit_error_is_first_wait_failure(r: Runner)
    requires
        r.wf(),
        r.phase is Done,
        r.phase->Done_result is Err,
        r.phase->Done_result->Err_0 is SubprocExitError,
    ensures
        ({
            let e = r.phase->Done_result->Err_0;
            let k = r.waited@.len() as int - 1;
            &&& 0 <= k < r.commands@.len()
            &&& e->SubprocExitError_command@ == r.commands@[k]@
            &&& e->SubprocExitError_status == r.waited@[k]
            &&& !e->SubprocExitError_status.spec_success()
            &&& forall|j: int| 0 <= j < k ==> r.waited@[j].spec_success()
        }),
{
}

/// Law: a run that ends in `SubprocSpawnFailed` names the first stage
/// whose spawn failed, exactly the stages before it were ever started,
/// and — since a finished run only ever answers `Finish` — no later stage
/// is spawned afterwards either.
pub proof fn lemma_spawn_failure_stops_pipeline(r: Runner)
    requires
        r.wf(),
        r.phase is Done,
        r.phase->Done_result is Err,
        r.phase->Done_result->Err_0 is SubprocSpawnFailed,
    ensures
        0 <= r.spawned@ < r.commands@.len(),
        r.phase->Done_result->Err_0->SubprocSpawnFailed_command@ == r.commands@[r.spawned@]@,
        r.waited@.len() == 0,
{
}

/// Law: a run over an empty command sequence ends in `MissingArgs` with
/// no stage ever spawned or waited on, and a run can end in
/// `MissingArgs` only over an empty sequence.
pub proof fn lemma_missing_args_spawns_nothing(r: Runner)
    requires
        r.wf(),
        r.phase is Done,
        r.phase->Done_result is Err,
        r.phase->Done_result->Err_0 is MissingArgs,
    ensures
        r.commands@.len() == 0,
        r.spawned@ == 0,
        r.waited@.len() == 0,
{
}

/// Law: a run that ends in overall success waited on every stage, in
/// spawn order, and every one of them terminated successfully.
pub proof fn lemma_success_means_all_stages_succeeded(r: Runner)
    requires
        r.wf(),
        r.phase is Done,
        r.phase->Done_result is Ok,
    ensures
        r.spawned@ == r.commands@.len(),
        r.waited@.len() == r.commands@.len(),
        forall|j: int| 0 <= j < r.commands@.len() ==> r.waited@[j].spec_success(),
{
}

} // verus!
