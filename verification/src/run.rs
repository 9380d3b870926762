//! One job's run, as a state machine.
//!
//! Running a job alternates outside work (creating a directory, starting
//! the isolation runtime, reading a file) with decisions about what to do
//! next. The decisions are here: a [`JobRun`] says which piece of outside
//! work it wants done ([`JobRun::request`]) and moves on when told how that
//! went ([`JobRun::advance`]). Whoever drives it performs the work and does
//! nothing else.
//!
//! The order is: check that the baseline image is there, create the
//! workspace, open its permissions, copy the baseline image into it, write
//! the command list, start the runtime, read the result list, remove the
//! workspace. A failure at any point after the check skips ahead to the
//! removal, so a workspace is removed on every path, and the job is then
//! dropped with the error.

use vstd::prelude::*;
use crate::runtime::{arguments, launch_args, PROGRAM};
use crate::schema::{clone_results, clone_strings, CMD, ResultView, SandboxResult};
use crate::wire::{
    commands_unwritable, is_commands_text, read_results, results_in, write_commands, CodecError,
};
use crate::workspace::{
    is_workspace_id, lemma_workspaces_disjoint, owns, Workspace, TEMPLATE_DIR, TEMPLATE_ENTRY,
};

verus! {

/// Why a job was dropped without a result.
#[derive(Clone, Copy, Debug, PartialEq, Eq, Structural)]
pub enum JobError {
    /// The baseline image is not where it should be. This is a fault of the
    /// installation, not of the job.
    TemplateMissing,
    /// The workspace could not be created, opened, filled or written.
    WorkspaceIo,
    /// The isolation runtime could not be started.
    RuntimeInvocation,
    /// The runtime left no result file.
    ResultMissing,
    /// The result file does not hold a result list.
    ResultMalformed,
    /// The result list has more or fewer entries than the job has commands.
    ResultMismatch,
}

/// The piece of outside work that a run is waiting for.
#[derive(Clone, Copy, Debug, PartialEq, Eq, Structural)]
pub enum Phase {
    /// Staging: is the baseline image in place?
    Check,
    /// Staging: the workspace's directory is being created.
    Create,
    /// Staging: the directory is being opened to the isolation runtime.
    Permit,
    /// Staging: the baseline image is being copied in.
    Fill,
    /// The command list is being written into the workspace.
    Write,
    /// The isolation runtime is executing the commands.
    Launch,
    /// The result list is being read from the workspace.
    Collect,
    /// The workspace is being removed.
    Release,
    /// Nothing is left to do; the outcome is final.
    Done,
}

/// How a piece of outside work went.
#[derive(Debug, PartialEq, Eq)]
pub enum Reply {
    /// It was done. For the runtime this means that it was started and has
    /// exited, with whatever status.
    Done,
    /// It could not be done.
    Failed,
    /// The file was read and held this text.
    Text(String),
}

impl Clone for Reply {
    fn clone(&self) -> (r: Reply)
        ensures
            r == *self,
    {
        match self {
            Reply::Done => Reply::Done,
            Reply::Failed => Reply::Failed,
            Reply::Text(text) => Reply::Text(text.clone()),
        }
    }
}

/// Mathematical value of a [`Request`].
pub ghost enum RequestView {
    CheckTemplate { path: Seq<char> },
    CreateDir { path: Seq<char> },
    SetMode { path: Seq<char>, mode: u32 },
    CopyInto { from: Seq<char>, into: Seq<char> },
    WriteFile { path: Seq<char>, text: Seq<char> },
    Launch { program: Seq<char>, args: Seq<Seq<char>> },
    ReadFile { path: Seq<char> },
    RemoveDir { path: Seq<char> },
    Finished,
}

/// A piece of outside work. All paths are relative to the working
/// directory.
#[derive(Debug, PartialEq, Eq)]
pub enum Request {
    /// Find out whether the directory exists.
    CheckTemplate { path: String },
    /// Create the directory unless it exists.
    CreateDir { path: String },
    /// Set the directory's permission bits.
    SetMode { path: String, mode: u32 },
    /// Copy the entry `from`, with all below it, into the directory `into`.
    CopyInto { from: String, into: String },
    /// Write the text to the file, replacing what it held.
    WriteFile { path: String, text: String },
    /// Start the program with the arguments and wait until it exits.
    Launch { program: String, args: Vec<String> },
    /// Read the file as text.
    ReadFile { path: String },
    /// Remove the directory with all below it.
    RemoveDir { path: String },
    /// Nothing is left to do.
    Finished,
}

impl View for Request {
    type V = RequestView;

    open spec fn view(&self) -> RequestView {
        match *self {
            Request::CheckTemplate { path } => RequestView::CheckTemplate { path: path@ },
            Request::CreateDir { path } => RequestView::CreateDir { path: path@ },
            Request::SetMode { path, mode } => RequestView::SetMode { path: path@, mode },
            Request::CopyInto { from, into } => RequestView::CopyInto { from: from@, into: into@ },
            Request::WriteFile { path, text } => RequestView::WriteFile { path: path@, text: text@ },
            Request::Launch { program, args } => RequestView::Launch {
                program: program@,
                args: args.deep_view(),
            },
            Request::ReadFile { path } => RequestView::ReadFile { path: path@ },
            Request::RemoveDir { path } => RequestView::RemoveDir { path: path@ },
            Request::Finished => RequestView::Finished,
        }
    }
}

impl Clone for Request {
    fn clone(&self) -> (r: Request)
        ensures
            r@ == self@,
    {
        match self {
            Request::CheckTemplate { path } => Request::CheckTemplate { path: path.clone() },
            Request::CreateDir { path } => Request::CreateDir { path: path.clone() },
            Request::SetMode { path, mode } => Request::SetMode { path: path.clone(), mode: *mode },
            Request::CopyInto { from, into } => Request::CopyInto {
                from: from.clone(),
                into: into.clone(),
            },
            Request::WriteFile { path, text } => Request::WriteFile {
                path: path.clone(),
                text: text.clone(),
            },
            Request::Launch { program, args } => Request::Launch {
                program: program.clone(),
                args: clone_strings(args),
            },
            Request::ReadFile { path } => Request::ReadFile { path: path.clone() },
            Request::RemoveDir { path } => Request::RemoveDir { path: path.clone() },
            Request::Finished => Request::Finished,
        }
    }
}

/// Mathematical value of a job's outcome.
pub open spec fn outcome_view(outcome: Result<Vec<SandboxResult>, JobError>) -> Result<
    Seq<ResultView>,
    JobError,
> {
    match outcome {
        Ok(results) => Ok(results.deep_view()),
        Err(e) => Err(e),
    }
}

/// Mathematical value of a [`JobRun`].
pub ghost struct RunView {
    /// The workspace's identifier.
    pub id: Seq<char>,
    /// The isolation image.
    pub image: Seq<char>,
    /// The command list, as the text of the command file.
    pub text: Seq<char>,
    /// How many commands the job has.
    pub expected: nat,
    /// What the run is waiting for.
    pub phase: Phase,
    /// How the job ended, once that is known.
    pub outcome: Option<Result<Seq<ResultView>, JobError>>,
}

/// Permission bits of a workspace: everyone may read, write and search it.
pub const WORKSPACE_MODE: u32 = 0o777;

/// What holds of every run: the outcome is known exactly from the moment
/// the workspace is due for removal, and a result list has one entry per
/// command.
pub open spec fn run_inv(s: RunView) -> bool {
    &&& s.outcome is Some <==> (s.phase is Release || s.phase is Done)
    &&& s.outcome matches Some(Ok(results)) ==> results.len() == s.expected
}

/// The run at its start. Where the command list could not be written as
/// text, the run is over before it began, and nothing was created.
pub open spec fn begun(text: Option<Seq<char>>, expected: nat, image: Seq<char>, id: Seq<char>)
    -> RunView {
    match text {
        Some(t) => RunView { id, image, text: t, expected, phase: Phase::Check, outcome: None },
        None => RunView {
            id,
            image,
            text: Seq::empty(),
            expected,
            phase: Phase::Done,
            outcome: Some(Err(JobError::WorkspaceIo)),
        },
    }
}

/// The outside work that a run in state `s` asks for.
pub open spec fn wanted(s: RunView) -> RequestView {
    match s.phase {
        Phase::Check => RequestView::CheckTemplate { path: "sandbox"@ },
        Phase::Create => RequestView::CreateDir { path: s.id },
        Phase::Permit => RequestView::SetMode { path: s.id, mode: 0o777 },
        Phase::Fill => RequestView::CopyInto { from: "sandbox/sandbox"@, into: s.id },
        Phase::Write => RequestView::WriteFile {
            path: Workspace::file(s.id, "commands.yaml"@),
            text: s.text,
        },
        Phase::Launch => RequestView::Launch {
            program: "docker"@,
            args: launch_args(s.id, s.image),
        },
        Phase::Collect => RequestView::ReadFile { path: Workspace::file(s.id, "results.yaml"@) },
        Phase::Release => RequestView::RemoveDir { path: s.id },
        Phase::Done => RequestView::Finished,
    }
}

/// What is made of a decoded result file: the results, if there is one per
/// command; `ResultMismatch` if their number is wrong; `ResultMalformed` if
/// the file held no result list.
pub open spec fn settled(decoded: Option<Seq<ResultView>>, expected: nat) -> Result<
    Seq<ResultView>,
    JobError,
> {
    match decoded {
        Some(results) => if results.len() == expected {
            Ok(results)
        } else {
            Err(JobError::ResultMismatch)
        },
        None => Err(JobError::ResultMalformed),
    }
}

/// How the job ends, given the reply to the request for the result file.
/// Any reply without a text means that there is no result file.
pub open spec fn collected(reply: Reply, expected: nat) -> Result<Seq<ResultView>, JobError> {
    match reply {
        Reply::Text(text) => settled(results_in(text@), expected),
        _ => Err(JobError::ResultMissing),
    }
}

/// The state after a step of staging or launching: on to `next`, or, after
/// a failure, straight to the removal of the workspace with `error`.
pub open spec fn onward(s: RunView, reply: Reply, next: Phase, error: JobError) -> RunView {
    if reply is Failed {
        RunView { phase: Phase::Release, outcome: Some(Err(error)), ..s }
    } else {
        RunView { phase: next, ..s }
    }
}

/// The state that follows `s` when the work it asked for is answered by
/// `reply`.
pub open spec fn step(s: RunView, reply: Reply) -> RunView {
    match s.phase {
        Phase::Check => if reply is Failed {
            RunView { phase: Phase::Done, outcome: Some(Err(JobError::TemplateMissing)), ..s }
        } else {
            RunView { phase: Phase::Create, ..s }
        },
        Phase::Create => onward(s, reply, Phase::Permit, JobError::WorkspaceIo),
        Phase::Permit => onward(s, reply, Phase::Fill, JobError::WorkspaceIo),
        Phase::Fill => onward(s, reply, Phase::Write, JobError::WorkspaceIo),
        Phase::Write => onward(s, reply, Phase::Launch, JobError::WorkspaceIo),
        Phase::Launch => onward(s, reply, Phase::Collect, JobError::RuntimeInvocation),
        Phase::Collect => RunView {
            phase: Phase::Release,
            outcome: Some(collected(reply, s.expected)),
            ..s
        },
        Phase::Release => RunView { phase: Phase::Done, ..s },
        Phase::Done => s,
    }
}

/// How many replies a run in this phase needs at most to be done.
pub open spec fn steps_left(phase: Phase) -> nat {
    match phase {
        Phase::Check => 8,
        Phase::Create => 7,
        Phase::Permit => 6,
        Phase::Fill => 5,
        Phase::Write => 4,
        Phase::Launch => 3,
        Phase::Collect => 2,
        Phase::Release => 1,
        Phase::Done => 0,
    }
}

/// Whether a request creates, changes, reads or removes `path` in a
/// workspace. The baseline image, which every job only reads, does not
/// count.
pub open spec fn touches(request: RequestView, path: Seq<char>) -> bool {
    match request {
        RequestView::CreateDir { path: p } => p == path,
        RequestView::SetMode { path: p, .. } => p == path,
        RequestView::CopyInto { into, .. } => into == path,
        RequestView::WriteFile { path: p, .. } => p == path,
        RequestView::ReadFile { path: p } => p == path,
        RequestView::RemoveDir { path: p } => p == path,
        _ => false,
    }
}

/// Every step keeps the invariant of runs: a result list that a run holds
/// has exactly one entry per command of the job.
pub proof fn lemma_step_keeps_inv(s: RunView, reply: Reply)
    requires
        run_inv(s),
    ensures
        run_inv(step(s, reply)),
{
}

/// Every reply brings an unfinished run closer to its end, so a run is done
/// after at most eight replies, whatever they are.
pub proof fn lemma_step_progress(s: RunView, reply: Reply)
    requires
        !(s.phase is Done),
    ensures
        steps_left(step(s, reply).phase) < steps_left(s.phase),
{
}

/// Once the baseline image was found, a run ends only by way of the
/// workspace's removal: no reply takes it from staging, launching or
/// collecting to the end directly.
pub proof fn lemma_release_on_every_path(s: RunView, reply: Reply)
    requires
        !(s.phase is Check),
        !(s.phase is Done),
        step(s, reply).phase is Done,
    ensures
        s.phase is Release,
{
}

/// A failure after the check always leads to the removal next, with the
/// error already decided.
pub proof fn lemma_failure_goes_to_release(s: RunView)
    requires
        s.phase is Create || s.phase is Permit || s.phase is Fill || s.phase is Write
            || s.phase is Launch || s.phase is Collect,
    ensures
        step(s, Reply::Failed).phase is Release,
        step(s, Reply::Failed).outcome is Some,
        step(s, Reply::Failed).outcome.unwrap() is Err,
{
}

/// Results are those of the result file: a run that ends with results
/// holds exactly the list that the file's text stands for, entry for entry
/// and in the file's order, and that list has one entry per command.
pub proof fn lemma_results_are_the_files(s: RunView, file: String)
    requires
        s.phase is Collect,
        step(s, Reply::Text(file)).outcome matches Some(Ok(_)),
    ensures
        results_in(file@) == Some(step(s, Reply::Text(file)).outcome.unwrap().unwrap()),
        results_in(file@).unwrap().len() == s.expected,
{
}

/// A failure is never a result: whatever piece of outside work fails
/// before the workspace's removal, the outcome is decided as an error at
/// once.
pub proof fn lemma_failure_is_never_a_result(s: RunView)
    requires
        run_inv(s),
        !(s.phase is Release),
        !(s.phase is Done),
    ensures
        step(s, Reply::Failed).outcome matches Some(Err(_)),
{
}

/// Removal is best effort: whether it succeeds, fails or finds nothing to
/// remove, the run ends the same way, with the outcome it already had.
pub proof fn lemma_release_never_fails(s: RunView, first: Reply, second: Reply)
    requires
        s.phase is Release,
    ensures
        step(s, first) == step(s, second),
        step(s, first).phase is Done,
        step(s, first).outcome == s.outcome,
{
}

/// A finished run stays as it is.
pub proof fn lemma_done_is_final(s: RunView, reply: Reply)
    requires
        s.phase is Done,
    ensures
        step(s, reply) == s,
{
}

/// No step changes the workspace, the image, the command text or the
/// number of commands; and an outcome, once decided, stays.
pub proof fn lemma_step_keeps_job(s: RunView, reply: Reply)
    ensures
        step(s, reply).id == s.id,
        step(s, reply).image == s.image,
        step(s, reply).text == s.text,
        step(s, reply).expected == s.expected,
        s.outcome is Some && run_inv(s) ==> step(s, reply).outcome == s.outcome,
{
}

/// Whatever a run touches lies in its own workspace.
pub proof fn lemma_requests_stay_inside(s: RunView, path: Seq<char>)
    requires
        touches(wanted(s), path),
    ensures
        owns(s.id, path),
{
    Workspace::lemma_file_owned(s.id, "commands.yaml"@);
    Workspace::lemma_file_owned(s.id, "results.yaml"@);
}

/// Two runs in different workspaces never touch the same path, in whatever
/// phase each of them is.
pub proof fn lemma_runs_do_not_interfere(a: RunView, b: RunView, path: Seq<char>)
    requires
        is_workspace_id(a.id),
        is_workspace_id(b.id),
        a.id != b.id,
        touches(wanted(a), path),
    ensures
        !touches(wanted(b), path),
{
    lemma_requests_stay_inside(a, path);
    if touches(wanted(b), path) {
        lemma_requests_stay_inside(b, path);
        lemma_workspaces_disjoint(a.id, b.id, path);
    }
}

/// Decides how a job ends from its decoded result file.
///
/// The results are accepted only if there is exactly one per command; a
/// list of another length is an error, and so is a file that could not be
/// decoded.
pub fn settle(decoded: Result<Vec<SandboxResult>, CodecError>, expected: usize) -> (r: Result<
    Vec<SandboxResult>,
    JobError,
>)
    ensures
        match decoded {
            Ok(results) => outcome_view(r) == settled(Some(results.deep_view()), expected as nat),
            Err(_) => r == Err::<Vec<SandboxResult>, JobError>(JobError::ResultMalformed),
        },
{
    match decoded {
        Ok(results) => {
            if results.len() == expected {
                Ok(results)
            } else {
                Err(JobError::ResultMismatch)
            }
        },
        Err(_) => Err(JobError::ResultMalformed),
    }
}

/// One job's run.
pub struct JobRun {
    workspace: Workspace,
    image: String,
    text: String,
    expected: usize,
    phase: Phase,
    outcome: Option<Result<Vec<SandboxResult>, JobError>>,
}

impl View for JobRun {
    type V = RunView;

    closed spec fn view(&self) -> RunView {
        RunView {
            id: self.workspace@,
            image: self.image@,
            text: self.text@,
            expected: self.expected as nat,
            phase: self.phase,
            outcome: match self.outcome {
                Some(o) => Some(outcome_view(o)),
                None => None,
            },
        }
    }
}

impl JobRun {
    #[verifier::type_invariant]
    spec fn inv(self) -> bool {
        run_inv(self@)
    }

    /// Sets a run up from the command list as text, or from the failure to
    /// write it.
    pub fn begin(
        rendered: Result<String, CodecError>,
        expected: usize,
        image: &str,
        workspace: Workspace,
    ) -> (r: JobRun)
        ensures
            r@ == begun(
                match rendered {
                    Ok(text) => Some(text@),
                    Err(_) => None,
                },
                expected as nat,
                image@,
                workspace@,
            ),
            run_inv(r@),
    {
        match rendered {
            Ok(text) => JobRun {
                workspace,
                image: image.to_owned(),
                text,
                expected,
                phase: Phase::Check,
                outcome: None,
            },
            Err(_) => JobRun {
                workspace,
                image: image.to_owned(),
                text: String::new(),
                expected,
                phase: Phase::Done,
                outcome: Some(Err(JobError::WorkspaceIo)),
            },
        }
    }

    /// Sets a run up for a job's commands and image in the given workspace.
    ///
    /// The run expects one result per command. It starts at the check for
    /// the baseline image, holding the command list as YAML text; only if
    /// the YAML writer fails on the command list is it over at once, with
    /// `WorkspaceIo`.
    pub fn start(commands: &Vec<CMD>, image: &str, workspace: Workspace) -> (r: JobRun)
        ensures
            r@.phase is Check ==> r@ == begun(
                Some(r@.text),
                commands.len() as nat,
                image@,
                workspace@,
            ) && is_commands_text(commands.deep_view(), r@.text),
            !(r@.phase is Check) ==> r@ == begun(None, commands.len() as nat, image@, workspace@)
                && commands_unwritable(commands.deep_view()),
            run_inv(r@),
    {
        let rendered = write_commands(commands);
        JobRun::begin(rendered, commands.len(), image, workspace)
    }

    /// What the run is waiting for.
    pub fn phase(&self) -> (r: Phase)
        ensures
            r == self@.phase,
    {
        self.phase
    }

    /// Whether nothing is left to do.
    pub fn is_done(&self) -> (r: bool)
        ensures
            r == (self@.phase is Done),
    {
        match self.phase {
            Phase::Done => true,
            _ => false,
        }
    }

    /// The workspace in which the job runs.
    pub fn workspace(&self) -> (r: &Workspace)
        ensures
            r@ == self@.id,
    {
        &self.workspace
    }

    /// The outside work that is to be done next.
    pub fn request(&self) -> (r: Request)
        ensures
            r@ == wanted(self@),
    {
        match self.phase {
            Phase::Check => Request::CheckTemplate { path: TEMPLATE_DIR.to_owned() },
            Phase::Create => Request::CreateDir { path: self.workspace.dir() },
            Phase::Permit => Request::SetMode { path: self.workspace.dir(), mode: WORKSPACE_MODE },
            Phase::Fill => Request::CopyInto {
                from: TEMPLATE_ENTRY.to_owned(),
                into: self.workspace.dir(),
            },
            Phase::Write => Request::WriteFile {
                path: self.workspace.commands_path(),
                text: self.text.clone(),
            },
            Phase::Launch => Request::Launch {
                program: PROGRAM.to_owned(),
                args: arguments(&self.workspace, self.image.as_str()),
            },
            Phase::Collect => Request::ReadFile { path: self.workspace.results_path() },
            Phase::Release => Request::RemoveDir { path: self.workspace.dir() },
            Phase::Done => Request::Finished,
        }
    }

    /// Takes the reply to the last request and moves on.
    pub fn advance(self, reply: Reply) -> (r: JobRun)
        ensures
            r@ == step(self@, reply),
            run_inv(r@),
    {
        proof {
            use_type_invariant(&self);
            lemma_step_keeps_inv(self@, reply);
        }
        let failed = match reply {
            Reply::Failed => true,
            _ => false,
        };
        let JobRun { workspace, image, text, expected, phase, outcome } = self;
        match phase {
            Phase::Check => {
                if failed {
                    JobRun {
                        workspace,
                        image,
                        text,
                        expected,
                        phase: Phase::Done,
                        outcome: Some(Err(JobError::TemplateMissing)),
                    }
                } else {
                    JobRun { workspace, image, text, expected, phase: Phase::Create, outcome }
                }
            },
            Phase::Create | Phase::Permit | Phase::Fill | Phase::Write => {
                if failed {
                    JobRun {
                        workspace,
                        image,
                        text,
                        expected,
                        phase: Phase::Release,
                        outcome: Some(Err(JobError::WorkspaceIo)),
                    }
                } else {
                    let next = match phase {
                        Phase::Create => Phase::Permit,
                        Phase::Permit => Phase::Fill,
                        Phase::Fill => Phase::Write,
                        _ => Phase::Launch,
                    };
                    JobRun { workspace, image, text, expected, phase: next, outcome }
                }
            },
            Phase::Launch => {
                if failed {
                    JobRun {
                        workspace,
                        image,
                        text,
                        expected,
                        phase: Phase::Release,
                        outcome: Some(Err(JobError::RuntimeInvocation)),
                    }
                } else {
                    JobRun { workspace, image, text, expected, phase: Phase::Collect, outcome }
                }
            },
            Phase::Collect => {
                let ended = match reply {
                    Reply::Text(file) => settle(read_results(file.as_str()), expected),
                    _ => Err(JobError::ResultMissing),
                };
                JobRun {
                    workspace,
                    image,
                    text,
                    expected,
                    phase: Phase::Release,
                    outcome: Some(ended),
                }
            },
            Phase::Release => JobRun {
                workspace,
                image,
                text,
                expected,
                phase: Phase::Done,
                outcome,
            },
            Phase::Done => JobRun { workspace, image, text, expected, phase, outcome },
        }
    }

    /// How the job ended, once the run is done: the results, one per
    /// command and in the order of the result file, or the error for which
    /// the job is dropped. Nothing is given out before the workspace has
    /// been removed.
    pub fn outcome(&self) -> (r: Option<Result<Vec<SandboxResult>, JobError>>)
        ensures
            r is Some <==> self@.phase is Done,
            r matches Some(o) ==> self@.outcome == Some(outcome_view(o)),
            r matches Some(Ok(results)) ==> results.len() == self@.expected,
    {
        proof {
            use_type_invariant(self);
        }
        match self.phase {
            Phase::Done => match &self.outcome {
                Some(Ok(results)) => Some(Ok(clone_results(results))),
                Some(Err(e)) => Some(Err(*e)),
                None => None,
            },
            _ => None,
        }
    }
}

} // verus!
