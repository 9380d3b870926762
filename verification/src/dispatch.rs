//! The life of one inbound message, from its bytes to a response or a
//! drop.
//!
//! A [`Ticket`] is received, parsed, dispatched, and then either succeeds
//! with a response or is dropped with a reason. Nothing here waits for
//! anything: a ticket in flight says what outside work it wants done and
//! takes the reply, so whoever drives the tickets can pull the next message
//! while earlier jobs are still running. A message that cannot be read is
//! dropped at once and has no effect on any other.

use vstd::prelude::*;
use vstd::string::*;
use crate::run::{
    begun, run_inv, step, steps_left, wanted, JobError, JobRun, Reply, Request, RequestView,
    RunView,
};
use crate::schema::{FormData, FormView, ResponseData, ResponseView, ResultView};
use crate::wire::{
    body_text, commands_unwritable, is_commands_text, is_response_text, job_in, read_job,
    response_unwritable, text_in, write_response, CodecError,
};
use crate::workspace::Workspace;
use crate::yaml::parsed;

verus! {

/// Why a submission ends without a response.
#[derive(Clone, Copy, Debug, PartialEq, Eq, Structural)]
pub enum DropReason {
    /// The inbound message could not be read as a submission.
    Message(CodecError),
    /// The job's run ended with an error.
    Job(JobError),
    /// The response could not be written as text.
    Response(CodecError),
    /// The outbound channel did not confirm the response.
    Unconfirmed,
}

/// Where a message stands.
#[derive(Clone, Copy, Debug, PartialEq, Eq, Structural)]
pub enum Stage {
    Received,
    Parsed,
    Dispatched,
    Succeeded,
    Dropped,
}

/// The submission that a message body holds, if it is UTF-8 text that holds
/// one.
pub open spec fn accepted(body: Seq<u8>) -> Option<FormView> {
    match text_in(body) {
        Some(text) => job_in(text),
        None => None,
    }
}

/// Why a message body that holds no submission is refused: it is not text,
/// or the text is not YAML, or the YAML document is no submission.
pub open spec fn refusal(body: Seq<u8>) -> CodecError {
    match text_in(body) {
        None => CodecError::NotText,
        Some(text) => if parsed(text) is None {
            CodecError::NotYaml
        } else {
            CodecError::WrongShape
        },
    }
}

/// Reads the submission from a message body.
///
/// Succeeds exactly when the body holds a submission. Any other body is
/// refused with the reason, and with no other effect.
pub fn accept(body: Vec<u8>) -> (r: Result<FormData, DropReason>)
    ensures
        match r {
            Ok(job) => accepted(body@) == Some(job@),
            Err(reason) => accepted(body@) is None && reason == DropReason::Message(
                refusal(body@),
            ),
        },
{
    match body_text(body) {
        Ok(text) => match read_job(text.as_str()) {
            Ok(job) => Ok(job),
            Err(e) => Err(DropReason::Message(e)),
        },
        Err(e) => Err(DropReason::Message(e)),
    }
}

/// What becomes of a finished job: a response under the submitter's
/// identifier with the results as they are, or a drop with the run's error.
pub open spec fn concluded(submit_id: Seq<char>, outcome: Result<Seq<ResultView>, JobError>)
    -> Result<ResponseView, DropReason> {
    match outcome {
        Ok(results) => Ok(ResponseView { sandbox_results: results, submit_id }),
        Err(e) => Err(DropReason::Job(e)),
    }
}

/// Writes a response as the text of an outbound message.
///
/// The text is the YAML writer's rendering of a document that stands for
/// exactly this response. If the writer fails, the response is dropped.
pub fn outbound(response: &ResponseData) -> (r: Result<String, DropReason>)
    ensures
        match r {
            Ok(text) => is_response_text(response@, text@),
            Err(reason) => reason == DropReason::Response(CodecError::Unwritable)
                && response_unwritable(response@),
        },
{
    match write_response(response) {
        Ok(text) => Ok(text),
        Err(e) => Err(DropReason::Response(e)),
    }
}

/// The words for a reason in a log line.
pub open spec fn reason_text(reason: DropReason) -> Seq<char> {
    match reason {
        DropReason::Message(CodecError::NotText) => "message is not text"@,
        DropReason::Message(CodecError::NotYaml) => "message is not YAML"@,
        DropReason::Message(_) => "message is not a submission"@,
        DropReason::Job(JobError::TemplateMissing) => "baseline image is missing"@,
        DropReason::Job(JobError::WorkspaceIo) => "workspace could not be prepared"@,
        DropReason::Job(JobError::RuntimeInvocation) => "isolation runtime could not be started"@,
        DropReason::Job(JobError::ResultMissing) => "result file is missing"@,
        DropReason::Job(JobError::ResultMalformed) => "result file is malformed"@,
        DropReason::Job(JobError::ResultMismatch) => "result count differs from command count"@,
        DropReason::Response(_) => "response could not be written"@,
        DropReason::Unconfirmed => "response was not confirmed"@,
    }
}

/// The log line for a dropped submission: the word `dropped`, the
/// submitter's identifier in square brackets where it is known, and the
/// reason.
pub open spec fn notice_of(submit_id: Option<Seq<char>>, reason: DropReason) -> Seq<char> {
    match submit_id {
        Some(id) => "dropped ["@ + id + "]: "@ + reason_text(reason),
        None => "dropped: "@ + reason_text(reason),
    }
}

fn reason_words(reason: DropReason) -> (r: &'static str)
    ensures
        r@ == reason_text(reason),
{
    match reason {
        DropReason::Message(CodecError::NotText) => "message is not text",
        DropReason::Message(CodecError::NotYaml) => "message is not YAML",
        DropReason::Message(_) => "message is not a submission",
        DropReason::Job(JobError::TemplateMissing) => "baseline image is missing",
        DropReason::Job(JobError::WorkspaceIo) => "workspace could not be prepared",
        DropReason::Job(JobError::RuntimeInvocation) => "isolation runtime could not be started",
        DropReason::Job(JobError::ResultMissing) => "result file is missing",
        DropReason::Job(JobError::ResultMalformed) => "result file is malformed",
        DropReason::Job(JobError::ResultMismatch) => "result count differs from command count",
        DropReason::Response(_) => "response could not be written",
        DropReason::Unconfirmed => "response was not confirmed",
    }
}

/// Writes the log line for a dropped submission.
pub fn notice(submit_id: Option<&str>, reason: DropReason) -> (r: String)
    ensures
        r@ == notice_of(
            match submit_id {
                Some(id) => Some(id@),
                None => None,
            },
            reason,
        ),
{
    match submit_id {
        Some(id) => {
            let mut line: String = "dropped [".to_owned();
            line.append(id);
            line.append("]: ");
            line.append(reason_words(reason));
            line
        },
        None => {
            let mut line: String = "dropped: ".to_owned();
            line.append(reason_words(reason));
            line
        },
    }
}

/// Whether a drop is a fault of the installation, after which no job can
/// run, rather than of one submission.
pub fn is_fatal(reason: DropReason) -> (r: bool)
    ensures
        r == (reason == DropReason::Job(JobError::TemplateMissing)),
{
    match reason {
        DropReason::Job(JobError::TemplateMissing) => true,
        _ => false,
    }
}

/// Mathematical value of a [`Ticket`].
pub ghost enum TicketView {
    Received { body: Seq<u8> },
    Parsed { job: FormView },
    Dispatched { submit_id: Seq<char>, run: RunView },
    Succeeded { response: ResponseView },
    Dropped { id: Option<Seq<char>>, reason: DropReason },
}

impl TicketView {
    /// Where the message stands.
    pub open spec fn stage(self) -> Stage {
        match self {
            TicketView::Received { .. } => Stage::Received,
            TicketView::Parsed { .. } => Stage::Parsed,
            TicketView::Dispatched { .. } => Stage::Dispatched,
            TicketView::Succeeded { .. } => Stage::Succeeded,
            TicketView::Dropped { .. } => Stage::Dropped,
        }
    }

    /// Whether nothing more will happen to the message.
    pub open spec fn is_final(self) -> bool {
        self is Succeeded || self is Dropped
    }
}

/// One inbound message on its way.
pub enum Ticket {
    /// The raw body, as pulled from the inbound channel.
    Received { body: Vec<u8> },
    /// The submission that the body held.
    Parsed { job: FormData },
    /// The job's run, under the submitter's identifier.
    Dispatched { submit_id: String, run: JobRun },
    /// The response, ready to be published.
    Succeeded { response: ResponseData },
    /// No response will be published.
    Dropped { id: Option<String>, reason: DropReason },
}

impl View for Ticket {
    type V = TicketView;

    open spec fn view(&self) -> TicketView {
        match *self {
            Ticket::Received { body } => TicketView::Received { body: body@ },
            Ticket::Parsed { job } => TicketView::Parsed { job: job@ },
            Ticket::Dispatched { submit_id, run } => TicketView::Dispatched {
                submit_id: submit_id@,
                run: run@,
            },
            Ticket::Succeeded { response } => TicketView::Succeeded { response: response@ },
            Ticket::Dropped { id, reason } => TicketView::Dropped {
                id: match id {
                    Some(text) => Some(text@),
                    None => None,
                },
                reason,
            },
        }
    }
}

/// The ticket after parsing: the submission that the body holds, or a drop
/// with the reason for which it holds none. Only a received ticket is
/// parsed.
pub open spec fn parsed_ticket(t: TicketView) -> TicketView {
    match t {
        TicketView::Received { body } => match accepted(body) {
            Some(job) => TicketView::Parsed { job },
            None => TicketView::Dropped { id: None, reason: DropReason::Message(refusal(body)) },
        },
        _ => t,
    }
}

/// What a dispatched ticket becomes when its run has moved to `run`: it
/// stays in flight until the run is done, and then succeeds with the run's
/// results or is dropped with its error.
pub open spec fn landed(submit_id: Seq<char>, run: RunView) -> TicketView {
    if run.phase is Done && run.outcome is Some {
        match concluded(submit_id, run.outcome.unwrap()) {
            Ok(response) => TicketView::Succeeded { response },
            Err(reason) => TicketView::Dropped { id: Some(submit_id), reason },
        }
    } else {
        TicketView::Dispatched { submit_id, run }
    }
}

/// The ticket after the reply to the work that it asked for. Only a
/// dispatched ticket takes replies.
pub open spec fn replied(t: TicketView, reply: Reply) -> TicketView {
    match t {
        TicketView::Dispatched { submit_id, run } => landed(submit_id, step(run, reply)),
        _ => t,
    }
}

/// The outside work that a ticket asks for: that of its run while it is
/// dispatched, none otherwise.
pub open spec fn asked(t: TicketView) -> RequestView {
    match t {
        TicketView::Dispatched { run, .. } => wanted(run),
        _ => RequestView::Finished,
    }
}

/// The ticket of a job that was just dispatched into workspace `id`, with
/// its command list written as `text`.
pub open spec fn dispatched(job: FormView, text: Seq<char>, id: Seq<char>) -> TicketView {
    TicketView::Dispatched {
        submit_id: job.submit_id,
        run: begun(Some(text), job.commands.len(), job.image, id),
    }
}

/// The ticket after a sequence of replies, taken in order.
pub open spec fn flown(t: TicketView, replies: Seq<Reply>) -> TicketView
    decreases replies.len(),
{
    if replies.len() == 0 {
        t
    } else {
        replied(flown(t, replies.drop_last()), replies.last())
    }
}

/// Whether a ticket is what can become of the job `job` once dispatched: in
/// flight under the job's identifier and expecting one result per command,
/// or succeeded with that many results under that identifier, or dropped
/// under that identifier.
pub open spec fn belongs(t: TicketView, job: FormView) -> bool {
    match t {
        TicketView::Dispatched { submit_id, run } => {
            &&& submit_id == job.submit_id
            &&& run.expected == job.commands.len()
            &&& run_inv(run)
            &&& !(run.phase is Done)
        },
        TicketView::Succeeded { response } => {
            &&& response.submit_id == job.submit_id
            &&& response.sandbox_results.len() == job.commands.len()
        },
        TicketView::Dropped { id, reason } => id == Some(job.submit_id) && reason is Job,
        _ => false,
    }
}

/// How many replies a ticket needs at most until it has landed.
pub open spec fn replies_left(t: TicketView) -> nat {
    match t {
        TicketView::Dispatched { run, .. } => steps_left(run.phase),
        _ => 0,
    }
}

/// What holds of every ticket in flight: its run is a proper run that is
/// not done yet.
pub open spec fn ticket_inv(t: TicketView) -> bool {
    t matches TicketView::Dispatched { run, .. } ==> run_inv(run) && !(run.phase is Done)
}

/// A message that holds no submission is dropped by parsing, without a
/// response and whatever else is in flight; one that holds a submission is
/// parsed to exactly that submission.
pub proof fn lemma_malformed_is_dropped(body: Seq<u8>)
    ensures
        accepted(body) is None ==> parsed_ticket(TicketView::Received { body }) is Dropped,
        accepted(body) matches Some(job) ==> parsed_ticket(TicketView::Received { body })
            == (TicketView::Parsed { job }),
{
}

/// What becomes of a sequence of message bodies when each is received and
/// parsed, in the order of their arrival.
pub open spec fn sorted_out(bodies: Seq<Seq<u8>>) -> Seq<TicketView> {
    Seq::new(bodies.len(), |i: int| parsed_ticket(TicketView::Received { body: bodies[i] }))
}

/// No message is lost or held up by another: of any sequence of bodies,
/// each one that holds a submission is parsed to that submission, at its
/// own place in the order, and each one that holds none is dropped,
/// whatever the bodies before and after it hold.
pub proof fn lemma_no_message_is_skipped(bodies: Seq<Seq<u8>>, i: int)
    requires
        0 <= i < bodies.len(),
    ensures
        sorted_out(bodies).len() == bodies.len(),
        accepted(bodies[i]) matches Some(job) ==> sorted_out(bodies)[i] == (TicketView::Parsed {
            job,
        }),
        accepted(bodies[i]) is None ==> sorted_out(bodies)[i] == (TicketView::Dropped {
            id: None,
            reason: DropReason::Message(refusal(bodies[i])),
        }),
{
}

/// A response has exactly one result per command of its job and carries
/// the job's identifier: a ticket in flight succeeds only with as many
/// results as its run expects, under the identifier it was dispatched with.
pub proof fn lemma_response_matches_job(t: TicketView, reply: Reply)
    requires
        ticket_inv(t),
        t is Dispatched,
        replied(t, reply) is Succeeded,
    ensures
        replied(t, reply)->response.sandbox_results.len() == t->run.expected,
        replied(t, reply)->response.submit_id == t->submit_id,
{
}

/// A ticket in flight stays a proper ticket, keeps its identifier, and is
/// dropped exactly when its run ends with an error.
pub proof fn lemma_reply_keeps_ticket(t: TicketView, reply: Reply)
    requires
        ticket_inv(t),
        t is Dispatched,
    ensures
        ticket_inv(replied(t, reply)),
        replied(t, reply) is Dispatched || replied(t, reply).is_final(),
        replied(t, reply) matches TicketView::Dispatched { submit_id, .. } ==> submit_id
            == t->submit_id,
        replied(t, reply) matches TicketView::Dropped { id, reason } ==> id == Some(t->submit_id)
            && reason is Job,
{
}

/// Whatever the replies, a dispatched job ends in one of two ways only. If
/// it succeeds, the response has exactly one result per command of the job
/// and carries the job's identifier. If it is dropped, the drop is recorded
/// under the job's identifier. Until then it stays in flight under that
/// identifier.
pub proof fn lemma_response_has_one_result_per_command(
    job: FormView,
    text: Seq<char>,
    id: Seq<char>,
    replies: Seq<Reply>,
)
    ensures
        belongs(flown(dispatched(job, text, id), replies), job),
        flown(dispatched(job, text, id), replies) matches TicketView::Succeeded { response }
            ==> response.sandbox_results.len() == job.commands.len() && response.submit_id
            == job.submit_id,
    decreases replies.len(),
{
    if replies.len() > 0 {
        lemma_response_has_one_result_per_command(job, text, id, replies.drop_last());
    }
}

/// Every reply brings a ticket in flight closer to landing.
pub proof fn lemma_reply_progress(t: TicketView, reply: Reply)
    requires
        ticket_inv(t),
        t is Dispatched,
    ensures
        replies_left(replied(t, reply)) < replies_left(t),
{
}

/// A dispatched job has landed after eight replies at the latest: it has
/// then succeeded or was dropped, whatever the replies were.
pub proof fn lemma_ticket_lands(
    job: FormView,
    text: Seq<char>,
    id: Seq<char>,
    replies: Seq<Reply>,
)
    ensures
        replies_left(flown(dispatched(job, text, id), replies)) + replies.len() <= 8
            || flown(dispatched(job, text, id), replies).is_final(),
        replies.len() >= 8 ==> flown(dispatched(job, text, id), replies).is_final(),
    decreases replies.len(),
{
    lemma_response_has_one_result_per_command(job, text, id, replies);
    if replies.len() > 0 {
        let before = flown(dispatched(job, text, id), replies.drop_last());
        lemma_ticket_lands(job, text, id, replies.drop_last());
        lemma_response_has_one_result_per_command(job, text, id, replies.drop_last());
        if before is Dispatched {
            lemma_reply_progress(before, replies.last());
        }
    }
}

/// A ticket that has succeeded or was dropped stays as it is.
pub proof fn lemma_final_stays(t: TicketView, reply: Reply)
    requires
        t.is_final(),
    ensures
        replied(t, reply) == t,
        parsed_ticket(t) == t,
        asked(t) is Finished,
{
}

impl Ticket {
    /// A ticket for a message body that was just pulled from the channel.
    pub fn receive(body: Vec<u8>) -> (r: Ticket)
        ensures
            r@ == (TicketView::Received { body: body@ }),
    {
        Ticket::Received { body }
    }

    /// Where the message stands.
    pub fn stage(&self) -> (r: Stage)
        ensures
            r == self@.stage(),
    {
        match self {
            Ticket::Received { .. } => Stage::Received,
            Ticket::Parsed { .. } => Stage::Parsed,
            Ticket::Dispatched { .. } => Stage::Dispatched,
            Ticket::Succeeded { .. } => Stage::Succeeded,
            Ticket::Dropped { .. } => Stage::Dropped,
        }
    }

    /// Reads the submission from a received ticket's body, or drops the
    /// ticket if the body holds none. Any other ticket is left as it is.
    pub fn parse(self) -> (r: Ticket)
        ensures
            r@ == parsed_ticket(self@),
    {
        match self {
            Ticket::Received { body } => match accept(body) {
                Ok(job) => Ticket::Parsed { job },
                Err(reason) => Ticket::Dropped { id: None, reason },
            },
            other => other,
        }
    }

    /// Starts the run of a parsed ticket's job in the given workspace.
    ///
    /// The ticket is then in flight, its run waiting for the check of the
    /// baseline image and expecting one result per command. Only if the
    /// YAML writer cannot write the command list is the ticket dropped at
    /// once, with `WorkspaceIo`. Any other ticket is left as it is.
    pub fn dispatch(self, workspace: Workspace) -> (r: Ticket)
        ensures
            !(self@ is Parsed) ==> r@ == self@,
            self@ matches TicketView::Parsed { job } ==> {
                ||| r@ == (TicketView::Dropped {
                    id: Some(job.submit_id),
                    reason: DropReason::Job(JobError::WorkspaceIo),
                }) && commands_unwritable(job.commands)
                ||| exists|text: Seq<char>|
                    r@ == dispatched(job, text, workspace@) && is_commands_text(job.commands, text)
            },
            ticket_inv(self@) ==> ticket_inv(r@),
    {
        match self {
            Ticket::Parsed { job } => {
                let FormData { commands, image, submit_id } = job;
                let run = JobRun::start(&commands, image.as_str(), workspace);
                if run.is_done() {
                    Ticket::Dropped {
                        id: Some(submit_id),
                        reason: DropReason::Job(JobError::WorkspaceIo),
                    }
                } else {
                    let flying = Ticket::Dispatched { submit_id, run };
                    proof {
                        let text = run@.text;
                        let view = job@;
                        assert(view.commands == commands.deep_view());
                        assert(run@ == begun(Some(text), view.commands.len(), view.image, workspace@));
                        assert(is_commands_text(view.commands, text));
                        assert(flying@ == dispatched(view, text, workspace@));
                    }
                    flying
                }
            },
            other => other,
        }
    }

    /// The outside work that is to be done next for this ticket.
    pub fn request(&self) -> (r: Request)
        ensures
            r@ == asked(self@),
    {
        match self {
            Ticket::Dispatched { run, .. } => run.request(),
            _ => Request::Finished,
        }
    }

    /// Takes the reply to the last request. A ticket in flight moves on,
    /// and lands when its run is done; any other ticket is left as it is.
    pub fn advance(self, reply: Reply) -> (r: Ticket)
        ensures
            r@ == replied(self@, reply),
            ticket_inv(self@) ==> ticket_inv(r@),
    {
        match self {
            Ticket::Dispatched { submit_id, run } => {
                let next = run.advance(reply);
                match next.outcome() {
                    Some(Ok(results)) => Ticket::Succeeded {
                        response: ResponseData { sandbox_results: results, submit_id },
                    },
                    Some(Err(e)) => Ticket::Dropped {
                        id: Some(submit_id),
                        reason: DropReason::Job(e),
                    },
                    None => Ticket::Dispatched { submit_id, run: next },
                }
            },
            other => other,
        }
    }

}

} // verus!
