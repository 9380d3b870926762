//! The job schema: what a submission asks for and what is reported back.
//!
//! Every type that owns text or a list has a view made of mathematical
//! sequences; contracts throughout the crate speak of these views.

use vstd::prelude::*;

verus! {

/// Resource ceilings of one command.
///
/// The runner never interprets these numbers; it forwards them to the
/// isolation runtime unchanged. For `output_limit` and `process_limit` the
/// runtime reads 0 as "unlimited".
#[derive(Clone, Copy, Debug, PartialEq, Eq, Structural)]
pub struct Config {
    pub time_limit: u64,
    pub time_reserved: u64,
    pub memory_limit: u64,
    pub memory_reserved: u64,
    pub large_stack: bool,
    pub output_limit: u64,
    pub process_limit: u64,
}

/// Mathematical value of a [`CMD`].
pub ghost struct CmdView {
    pub command: Seq<char>,
    pub args: Seq<Seq<char>>,
    pub input: Seq<char>,
    pub config: Config,
}

/// One step of a submission: a program, its arguments, the text fed to its
/// standard input, and its resource ceilings.
#[derive(Debug, PartialEq, Eq)]
pub struct CMD {
    pub command: String,
    pub args: Vec<String>,
    pub input: String,
    pub config: Config,
}

impl View for CMD {
    type V = CmdView;

    open spec fn view(&self) -> CmdView {
        CmdView {
            command: self.command@,
            args: self.args.deep_view(),
            input: self.input@,
            config: self.config,
        }
    }
}

impl DeepView for CMD {
    type V = CmdView;

    open spec fn deep_view(&self) -> CmdView {
        self@
    }
}

/// Copies a list of strings, text for text.
pub fn clone_strings(items: &Vec<String>) -> (r: Vec<String>)
    ensures
        r.deep_view() == items.deep_view(),
{
    let mut out: Vec<String> = Vec::new();
    let mut i: usize = 0;
    while i < items.len()
        invariant
            i <= items.len(),
            out.len() == i,
            forall|j: int| 0 <= j < i ==> out[j]@ == items[j]@,
        decreases items.len() - i,
    {
        out.push(items[i].clone());
        i += 1;
    }
    assert(out.deep_view() =~= items.deep_view());
    out
}

impl Clone for CMD {
    fn clone(&self) -> (r: CMD)
        ensures
            r@ == self@,
    {
        CMD {
            command: self.command.clone(),
            args: clone_strings(&self.args),
            input: self.input.clone(),
            config: self.config,
        }
    }
}

/// How one command ended. Exactly one of these is reported per command.
#[derive(Clone, Copy, Debug, PartialEq, Eq, Structural)]
pub enum ExitState {
    /// The command ran to completion and exited with status zero.
    Success,
    /// The command exited with a nonzero status or faulted.
    RuntimeError,
    /// The command ran past its time limit.
    TimeLimitExceeded,
    /// The command used more memory than its limit.
    MemoryLimitExceeded,
    /// The isolation runtime could not run the command at all.
    OtherError,
}

/// Mathematical value of a [`SandboxResult`].
pub ghost struct ResultView {
    pub state: ExitState,
    pub stdout: Seq<char>,
    pub stderr: Seq<char>,
    pub time: u64,
    pub memory: u64,
}

/// What the isolation runtime reports of one command: how it ended, what it
/// wrote to its two output streams, and the time and peak memory it used.
#[derive(Debug, PartialEq, Eq)]
pub struct SandboxResult {
    pub state: ExitState,
    pub stdout: String,
    pub stderr: String,
    pub time: u64,
    pub memory: u64,
}

impl View for SandboxResult {
    type V = ResultView;

    open spec fn view(&self) -> ResultView {
        ResultView {
            state: self.state,
            stdout: self.stdout@,
            stderr: self.stderr@,
            time: self.time,
            memory: self.memory,
        }
    }
}

impl DeepView for SandboxResult {
    type V = ResultView;

    open spec fn deep_view(&self) -> ResultView {
        self@
    }
}

impl Clone for SandboxResult {
    fn clone(&self) -> (r: SandboxResult)
        ensures
            r@ == self@,
    {
        SandboxResult {
            state: self.state,
            stdout: self.stdout.clone(),
            stderr: self.stderr.clone(),
            time: self.time,
            memory: self.memory,
        }
    }
}

/// Copies a list of commands, value for value.
pub fn clone_commands(items: &Vec<CMD>) -> (r: Vec<CMD>)
    ensures
        r.deep_view() == items.deep_view(),
{
    let mut out: Vec<CMD> = Vec::new();
    let mut i: usize = 0;
    while i < items.len()
        invariant
            i <= items.len(),
            out.len() == i,
            forall|j: int| 0 <= j < i ==> out[j]@ == items[j]@,
        decreases items.len() - i,
    {
        out.push(items[i].clone());
        i += 1;
    }
    assert(out.deep_view() =~= items.deep_view());
    out
}

/// Copies a list of results, value for value.
pub fn clone_results(items: &Vec<SandboxResult>) -> (r: Vec<SandboxResult>)
    ensures
        r.deep_view() == items.deep_view(),
{
    let mut out: Vec<SandboxResult> = Vec::new();
    let mut i: usize = 0;
    while i < items.len()
        invariant
            i <= items.len(),
            out.len() == i,
            forall|j: int| 0 <= j < i ==> out[j]@ == items[j]@,
        decreases items.len() - i,
    {
        out.push(items[i].clone());
        i += 1;
    }
    assert(out.deep_view() =~= items.deep_view());
    out
}

/// Mathematical value of a [`FormData`].
pub ghost struct FormView {
    pub commands: Seq<CmdView>,
    pub image: Seq<char>,
    pub submit_id: Seq<char>,
}

/// A submission: the commands to run, in the order in which they run, the
/// isolation image to run them in, and the submitter's own identifier, which
/// is carried through to the response and never looked into.
#[derive(Debug, PartialEq, Eq)]
pub struct FormData {
    pub commands: Vec<CMD>,
    pub image: String,
    pub submit_id: String,
}

impl View for FormData {
    type V = FormView;

    open spec fn view(&self) -> FormView {
        FormView {
            commands: self.commands.deep_view(),
            image: self.image@,
            submit_id: self.submit_id@,
        }
    }
}

impl Clone for FormData {
    fn clone(&self) -> (r: FormData)
        ensures
            r@ == self@,
    {
        FormData {
            commands: clone_commands(&self.commands),
            image: self.image.clone(),
            submit_id: self.submit_id.clone(),
        }
    }
}

/// Mathematical value of a [`ResponseData`].
pub ghost struct ResponseView {
    pub sandbox_results: Seq<ResultView>,
    pub submit_id: Seq<char>,
}

/// What is sent back for one submission: one result per command, in the
/// order of the commands, under the submitter's identifier.
#[derive(Debug, PartialEq, Eq)]
pub struct ResponseData {
    pub sandbox_results: Vec<SandboxResult>,
    pub submit_id: String,
}

impl View for ResponseData {
    type V = ResponseView;

    open spec fn view(&self) -> ResponseView {
        ResponseView {
            sandbox_results: self.sandbox_results.deep_view(),
            submit_id: self.submit_id@,
        }
    }
}

impl Clone for ResponseData {
    fn clone(&self) -> (r: ResponseData)
        ensures
            r@ == self@,
    {
        ResponseData {
            sandbox_results: clone_results(&self.sandbox_results),
            submit_id: self.submit_id.clone(),
        }
    }
}

} // verus!
