use sandbox_runner::dispatch::{accept, is_fatal, notice, outbound, DropReason, Stage, Ticket};
use sandbox_runner::run::{JobError, Reply, Request};
use sandbox_runner::schema::{ExitState, FormData, ResponseData, SandboxResult};
use sandbox_runner::wire::{read_response, CodecError};
use sandbox_runner::workspace::Workspace;

const ID: &str = "67e55044-10b1-426f-9247-bb680e5fe0c8";

const JOB: &str = "commands:\n- command: gcc\n  args:\n  - --version\n  input: ''\n  config:\n    time_limit: 1\n    time_reserved: 1\n    memory_limit: 256000\n    memory_reserved: 4096000\n    large_stack: false\n    output_limit: 0\n    process_limit: 0\nimage: gcc:14.2\nsubmit_id: submission-17\n";

const ONE_RESULT: &str = "- state: Success\n  stdout: gcc (GCC) 14.2.0\n  stderr: ''\n  time: 0\n  memory: 1024\n";

fn in_flight() -> Ticket {
    Ticket::receive(JOB.as_bytes().to_vec()).parse().dispatch(Workspace::named(ID).unwrap())
}

fn fly(mut ticket: Ticket, replies: Vec<Reply>) -> Ticket {
    for reply in replies {
        ticket = ticket.advance(reply);
    }
    ticket
}

fn done(n: usize) -> Vec<Reply> {
    (0..n).map(|_| Reply::Done).collect()
}

#[test]
fn message_goes_through_every_stage() {
    let ticket = Ticket::receive(JOB.as_bytes().to_vec());
    assert_eq!(ticket.stage(), Stage::Received);
    assert_eq!(ticket.request(), Request::Finished);
    let ticket = ticket.parse();
    assert_eq!(ticket.stage(), Stage::Parsed);
    let ticket = ticket.dispatch(Workspace::named(ID).unwrap());
    assert_eq!(ticket.stage(), Stage::Dispatched);
    assert_eq!(ticket.request(), Request::CheckTemplate { path: "sandbox".to_string() });
    let mut replies = done(6);
    replies.push(Reply::Text(ONE_RESULT.to_string()));
    let ticket = fly(ticket, replies);
    assert_eq!(ticket.stage(), Stage::Dispatched);
    assert_eq!(ticket.request(), Request::RemoveDir { path: ID.to_string() });
    let ticket = ticket.advance(Reply::Done);
    assert_eq!(ticket.stage(), Stage::Succeeded);
    match ticket {
        Ticket::Succeeded { response } => {
            assert_eq!(response.submit_id, "submission-17");
            assert_eq!(response.sandbox_results.len(), 1);
            assert_eq!(response.sandbox_results[0].state, ExitState::Success);
            assert!(response.sandbox_results[0].stdout.starts_with("gcc (GCC)"));
        }
        _ => panic!("the ticket did not succeed"),
    }
}

#[test]
fn malformed_message_is_dropped_and_the_next_is_read() {
    let bodies: Vec<Vec<u8>> = vec![
        b"Hello World From Server".to_vec(),
        JOB.as_bytes().to_vec(),
        vec![0xff, 0xfe],
        b"commands: [unclosed".to_vec(),
        JOB.replace("submission-17", "submission-18").into_bytes(),
    ];
    let mut read = Vec::new();
    let mut dropped = Vec::new();
    for body in bodies {
        match Ticket::receive(body).parse() {
            Ticket::Parsed { job } => read.push(job.submit_id),
            Ticket::Dropped { id, reason } => {
                assert_eq!(id, None);
                dropped.push(reason);
            }
            _ => panic!("a parsed ticket is parsed or dropped"),
        }
    }
    assert_eq!(read, vec!["submission-17", "submission-18"]);
    assert_eq!(
        dropped,
        vec![
            DropReason::Message(CodecError::WrongShape),
            DropReason::Message(CodecError::NotText),
            DropReason::Message(CodecError::NotYaml),
        ]
    );
}

#[test]
fn body_is_accepted_exactly_when_it_holds_a_submission() {
    let job: FormData = accept(JOB.as_bytes().to_vec()).unwrap();
    assert_eq!(job.image, "gcc:14.2");
    assert_eq!(job.submit_id, "submission-17");
    assert_eq!(job.commands.len(), 1);
    assert_eq!(job.commands[0].command, "gcc");
    assert_eq!(accept(vec![0x80]), Err(DropReason::Message(CodecError::NotText)));
    assert_eq!(accept(b"{".to_vec()), Err(DropReason::Message(CodecError::NotYaml)));
    assert_eq!(accept(b"image: gcc".to_vec()), Err(DropReason::Message(CodecError::WrongShape)));
    assert_eq!(accept(vec![]), Err(DropReason::Message(CodecError::WrongShape)));
}

#[test]
fn launch_failure_gives_no_response_and_is_logged_as_dropped() {
    let mut replies = done(5);
    replies.push(Reply::Failed);
    replies.push(Reply::Done);
    let ticket = fly(in_flight(), replies);
    assert_eq!(ticket.stage(), Stage::Dropped);
    match ticket {
        Ticket::Dropped { id, reason } => {
            assert_eq!(id.as_deref(), Some("submission-17"));
            assert_eq!(reason, DropReason::Job(JobError::RuntimeInvocation));
            assert_eq!(
                notice(id.as_deref(), reason),
                "dropped [submission-17]: isolation runtime could not be started"
            );
        }
        _ => panic!("the ticket was not dropped"),
    }
}

#[test]
fn every_job_error_drops_the_ticket_under_its_identifier() {
    let cases: Vec<(Vec<Reply>, JobError)> = vec![
        (vec![Reply::Failed], JobError::TemplateMissing),
        (vec![Reply::Done, Reply::Failed, Reply::Done], JobError::WorkspaceIo),
        (
            vec![Reply::Done, Reply::Done, Reply::Done, Reply::Done, Reply::Done, Reply::Failed, Reply::Failed],
            JobError::RuntimeInvocation,
        ),
        (
            vec![Reply::Done, Reply::Done, Reply::Done, Reply::Done, Reply::Done, Reply::Done, Reply::Failed, Reply::Done],
            JobError::ResultMissing,
        ),
        (
            vec![Reply::Done, Reply::Done, Reply::Done, Reply::Done, Reply::Done, Reply::Done, Reply::Text("x".to_string()), Reply::Done],
            JobError::ResultMalformed,
        ),
        (
            vec![Reply::Done, Reply::Done, Reply::Done, Reply::Done, Reply::Done, Reply::Done, Reply::Text("[]".to_string()), Reply::Done],
            JobError::ResultMismatch,
        ),
    ];
    for (replies, error) in cases {
        match fly(in_flight(), replies) {
            Ticket::Dropped { id, reason } => {
                assert_eq!(id.as_deref(), Some("submission-17"));
                assert_eq!(reason, DropReason::Job(error));
            }
            _ => panic!("the ticket was not dropped"),
        }
    }
}

#[test]
fn final_tickets_take_no_more_replies() {
    let mut replies = done(6);
    replies.push(Reply::Text(ONE_RESULT.to_string()));
    replies.push(Reply::Done);
    let ticket = fly(in_flight(), replies).advance(Reply::Failed).parse();
    let ticket = ticket.dispatch(Workspace::named(ID).unwrap());
    assert_eq!(ticket.stage(), Stage::Succeeded);
    assert_eq!(ticket.request(), Request::Finished);
    let dropped = Ticket::receive(vec![0xff]).parse().advance(Reply::Done);
    let dropped = dropped.dispatch(Workspace::named(ID).unwrap()).parse();
    assert_eq!(dropped.stage(), Stage::Dropped);
    assert_eq!(dropped.request(), Request::Finished);
}

#[test]
fn tickets_do_nothing_out_of_turn() {
    let received = Ticket::receive(JOB.as_bytes().to_vec());
    let received = received.dispatch(Workspace::named(ID).unwrap()).advance(Reply::Done);
    assert_eq!(received.stage(), Stage::Received);
    let parsed = received.parse().parse().advance(Reply::Failed);
    assert_eq!(parsed.stage(), Stage::Parsed);
    let flying = parsed.dispatch(Workspace::named(ID).unwrap()).parse();
    let flying = flying.dispatch(Workspace::named("00000000-0000-0000-0000-000000000000").unwrap());
    assert_eq!(flying.stage(), Stage::Dispatched);
    assert_eq!(flying.advance(Reply::Done).request(), Request::CreateDir { path: ID.to_string() });
}

#[test]
fn response_is_written_for_the_outbound_channel() {
    let response = ResponseData {
        sandbox_results: vec![SandboxResult {
            state: ExitState::Success,
            stdout: "1 + 2 = 3\n".to_string(),
            stderr: "".to_string(),
            time: 0,
            memory: 3000,
        }],
        submit_id: "submission-17".to_string(),
    };
    let text = outbound(&response).unwrap();
    assert_eq!(
        text,
        "sandbox_results:\n- state: Success\n  stdout: |\n    1 + 2 = 3\n  stderr: ''\n  time: 0\n  memory: 3000\nsubmit_id: submission-17\n"
    );
    assert_eq!(read_response(&text), Ok(response));
}

#[test]
fn notices_name_the_reason() {
    assert_eq!(notice(None, DropReason::Message(CodecError::NotText)), "dropped: message is not text");
    assert_eq!(notice(None, DropReason::Message(CodecError::NotYaml)), "dropped: message is not YAML");
    assert_eq!(
        notice(None, DropReason::Message(CodecError::WrongShape)),
        "dropped: message is not a submission"
    );
    assert_eq!(
        notice(Some("a"), DropReason::Job(JobError::TemplateMissing)),
        "dropped [a]: baseline image is missing"
    );
    assert_eq!(
        notice(Some("a"), DropReason::Job(JobError::WorkspaceIo)),
        "dropped [a]: workspace could not be prepared"
    );
    assert_eq!(
        notice(Some("a"), DropReason::Job(JobError::ResultMissing)),
        "dropped [a]: result file is missing"
    );
    assert_eq!(
        notice(Some("a"), DropReason::Job(JobError::ResultMalformed)),
        "dropped [a]: result file is malformed"
    );
    assert_eq!(
        notice(Some("a"), DropReason::Job(JobError::ResultMismatch)),
        "dropped [a]: result count differs from command count"
    );
    assert_eq!(
        notice(Some(""), DropReason::Response(CodecError::Unwritable)),
        "dropped []: response could not be written"
    );
    assert_eq!(notice(Some("a b"), DropReason::Unconfirmed), "dropped [a b]: response was not confirmed");
}

#[test]
fn only_a_missing_baseline_image_is_fatal() {
    assert!(is_fatal(DropReason::Job(JobError::TemplateMissing)));
    assert!(!is_fatal(DropReason::Job(JobError::WorkspaceIo)));
    assert!(!is_fatal(DropReason::Job(JobError::RuntimeInvocation)));
    assert!(!is_fatal(DropReason::Job(JobError::ResultMissing)));
    assert!(!is_fatal(DropReason::Message(CodecError::NotYaml)));
    assert!(!is_fatal(DropReason::Unconfirmed));
}
