use vstd::prelude::*;

verus! {

/// Where one stage's standard input comes from.
#[derive(Clone, Copy, Debug, PartialEq, Eq, Structural)]
pub enum StdinSource {
    /// Inherited from the runner itself; only the first stage gets this.
    RunnerInherited,
    /// The read end of the pipe that captured the previous stage's output.
    PipeFromPrev,
}

/// Where one stage's standard output goes.
#[derive(Clone, Copy, Debug, PartialEq, Eq, Structural)]
pub enum StdoutSink {
    /// Inherited from the runner itself; only the last stage gets this.
    RunnerInherited,
    /// A fresh anonymous pipe whose read end feeds the next stage.
    Piped,
}

/// The input wiring of the stage at index `i`.
pub open spec fn spec_stage_stdin(i: int) -> StdinSource {
    if i == 0 {
        StdinSource::RunnerInherited
    } else {
        StdinSource::PipeFromPrev
    }
}

/// The output wiring of the stage at index `i` in a pipeline of `n` stages.
pub open spec fn spec_stage_stdout(i: int, n: int) -> StdoutSink {
    if i == n - 1 {
        StdoutSink::RunnerInherited
    } else {
        StdoutSink::Piped
    }
}

/// Picks the input wiring for the stage at index `i`.
pub fn stage_stdin(i: usize) -> (r: StdinSource)
    ensures
        r == spec_stage_stdin(i as int),
{
    if i == 0 {
        StdinSource::RunnerInherited
    } else {
        StdinSource::PipeFromPrev
    }
}

/// Picks the output wiring for the stage at index `i` of `n`.
pub fn stage_stdout(i: usize, n: usize) -> (r: StdoutSink)
    requires
        i < n,
    ensures
        r == spec_stage_stdout(i as int, n as int),
{
    if i == n - 1 {
        StdoutSink::RunnerInherited
    } else {
        StdoutSink::Piped
    }
}

/// Law: pipe wiring is order-preserving and exclusive. In a pipeline of
/// `n` stages, exactly the first stage reads the runner's own input,
/// exactly the last stage writes the runner's own output, and every
/// adjacent pair is bridged by exactly one pipe: stage `i - 1` writes into
/// a pipe and stage `i` reads from the pipe of its predecessor, so each
/// stage's input is precisely its predecessor's output.
pub proof fn lemma_pipe_wiring(n: int)
    requires
        1 <= n,
    ensures
        forall|i: int|
            0 <= i < n ==> (spec_stage_stdin(i) == StdinSource::RunnerInherited <==> i == 0),
        forall|i: int|
            0 <= i < n ==> (spec_stage_stdout(i, n) == StdoutSink::RunnerInherited <==> i == n
                - 1),
        forall|i: int|
            1 <= i < n ==> spec_stage_stdin(i) == StdinSource::PipeFromPrev && spec_stage_stdout(
                i - 1,
                n,
            ) == StdoutSink::Piped,
{
}

/// The program used to interpret each command string.
pub fn interpreter_program() -> (r: &'static str)
    ensures
        r@ == "sh"@,
{
    "sh"
}

/// The arguments handed to the interpreter for one command string:
/// `-eu` makes the stage's shell abort on the first internal error and
/// treat any use of an unset variable as an error, and `-c` makes it run
/// the given string as a single command.
pub fn interpreter_args(command: &str) -> (r: Vec<String>)
    ensures
        r@.len() == 3,
        r@[0]@ == "-eu"@,
        r@[1]@ == "-c"@,
        r@[2]@ == command@,
{
    let mut v: Vec<String> = Vec::new();
    v.push(String::from_str("-eu"));
    v.push(String::from_str("-c"));
    v.push(String::from_str(command));
    v
}

} // verus!
