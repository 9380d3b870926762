//! Messages and files as text: the YAML documents of the codec, written
//! out and read in.
//!
//! Which document a text holds, and which text a document is written as, is
//! decided by `serde_yaml`; the contracts here name those answers
//! ([`parsed`], [`rendered`]) and say exactly what is made of them. The
//! functions of the codec that work on a document say the rest.

use vstd::prelude::*;
use vstd::utf8::{decode_utf8, valid_utf8};
use crate::codec::{
    commands_of, commands_value, job_from_value, job_of, job_value, response_from_value,
    response_of, response_value, results_from_value, results_of,
};
use crate::schema::{CMD, CmdView, FormData, FormView, ResponseData, ResponseView, ResultView,
    SandboxResult,
};
use crate::yaml::{parse, parsed, render, rendered};

verus! {

/// The error that `String::from_utf8` reports.
#[verifier::external_type_specification]
#[verifier::external_body]
pub struct ExFromUtf8Error(std::string::FromUtf8Error);

/// Why a text could not be read as a value of the schema, or a value not be
/// written.
#[derive(Clone, Copy, Debug, PartialEq, Eq, Structural)]
pub enum CodecError {
    /// The bytes are not UTF-8 text.
    NotText,
    /// The text is not a YAML document.
    NotYaml,
    /// The document is YAML but not of the expected shape.
    WrongShape,
    /// The YAML writer reported an error.
    Unwritable,
}

/// `String::from_utf8`: the bytes as text where they are valid UTF-8, the
/// error where they are not.
#[verifier::external_body]
fn utf8_text(bytes: Vec<u8>) -> (r: Result<String, std::string::FromUtf8Error>)
    ensures
        r is Ok <==> valid_utf8(bytes@),
        r matches Ok(s) ==> s@ == decode_utf8(bytes@),
{
    String::from_utf8(bytes)
}

/// The text that a message body holds, if it is UTF-8.
pub open spec fn text_in(body: Seq<u8>) -> Option<Seq<char>> {
    if valid_utf8(body) {
        Some(decode_utf8(body))
    } else {
        None
    }
}

/// Reads a message body as text. Fails with `NotText`, and with nothing
/// else, exactly when the bytes are not UTF-8.
pub fn body_text(body: Vec<u8>) -> (r: Result<String, CodecError>)
    ensures
        match r {
            Ok(s) => text_in(body@) == Some(s@),
            Err(e) => e == CodecError::NotText && text_in(body@) is None,
        },
{
    match utf8_text(body) {
        Ok(s) => Ok(s),
        Err(_) => Err(CodecError::NotText),
    }
}

/// The submission that a text holds, if it is a YAML document of that shape.
pub open spec fn job_in(text: Seq<char>) -> Option<FormView> {
    match parsed(text) {
        Some(v) => job_of(v),
        None => None,
    }
}

/// The result list that a text holds, if it is a YAML document of that
/// shape.
pub open spec fn results_in(text: Seq<char>) -> Option<Seq<ResultView>> {
    match parsed(text) {
        Some(v) => results_of(v),
        None => None,
    }
}

/// The response that a text holds, if it is a YAML document of that shape.
pub open spec fn response_in(text: Seq<char>) -> Option<ResponseView> {
    match parsed(text) {
        Some(v) => response_of(v),
        None => None,
    }
}

/// Reads a submission from the text of an inbound message.
///
/// Succeeds exactly when the text holds a submission, and then returns that
/// submission. Otherwise the error tells whether the text is no YAML at all
/// or a document of another shape.
pub fn read_job(text: &str) -> (r: Result<FormData, CodecError>)
    ensures
        match r {
            Ok(job) => job_in(text@) == Some(job@),
            Err(e) => job_in(text@) is None && e == (if parsed(text@) is None {
                CodecError::NotYaml
            } else {
                CodecError::WrongShape
            }),
        },
{
    match parse(text) {
        Ok(v) => match job_from_value(&v) {
            Some(job) => Ok(job),
            None => Err(CodecError::WrongShape),
        },
        Err(_) => Err(CodecError::NotYaml),
    }
}

/// Reads the result list from the text of a result file.
///
/// Succeeds exactly when the text holds a result list, and then returns it
/// in the file's order. Otherwise the error tells whether the text is no
/// YAML at all or a document of another shape.
pub fn read_results(text: &str) -> (r: Result<Vec<SandboxResult>, CodecError>)
    ensures
        match r {
            Ok(results) => results_in(text@) == Some(results.deep_view()),
            Err(e) => results_in(text@) is None && e == (if parsed(text@) is None {
                CodecError::NotYaml
            } else {
                CodecError::WrongShape
            }),
        },
{
    match parse(text) {
        Ok(v) => match results_from_value(&v) {
            Some(results) => Ok(results),
            None => Err(CodecError::WrongShape),
        },
        Err(_) => Err(CodecError::NotYaml),
    }
}

/// Reads a response from the text of an outbound message.
///
/// Succeeds exactly when the text holds a response, and then returns it.
/// Otherwise the error tells whether the text is no YAML at all or a
/// document of another shape.
pub fn read_response(text: &str) -> (r: Result<ResponseData, CodecError>)
    ensures
        match r {
            Ok(x) => response_in(text@) == Some(x@),
            Err(e) => response_in(text@) is None && e == (if parsed(text@) is None {
                CodecError::NotYaml
            } else {
                CodecError::WrongShape
            }),
        },
{
    match parse(text) {
        Ok(v) => match response_from_value(&v) {
            Some(x) => Ok(x),
            None => Err(CodecError::WrongShape),
        },
        Err(_) => Err(CodecError::NotYaml),
    }
}

/// Whether `text` is what the YAML writer makes of some document that
/// stands for exactly these commands.
pub open spec fn is_commands_text(commands: Seq<CmdView>, text: Seq<char>) -> bool {
    exists|v: serde_yaml::Value| commands_of(v) == Some(commands) && rendered(v) == Some(text)
}

/// Whether `text` is what the YAML writer makes of some document that
/// stands for exactly this submission.
pub open spec fn is_job_text(job: FormView, text: Seq<char>) -> bool {
    exists|v: serde_yaml::Value| job_of(v) == Some(job) && rendered(v) == Some(text)
}

/// Whether `text` is what the YAML writer makes of some document that
/// stands for exactly this response.
pub open spec fn is_response_text(response: ResponseView, text: Seq<char>) -> bool {
    exists|v: serde_yaml::Value| response_of(v) == Some(response) && rendered(v) == Some(text)
}

/// Whether the YAML writer reports an error on some document that stands
/// for exactly these commands.
pub open spec fn commands_unwritable(commands: Seq<CmdView>) -> bool {
    exists|v: serde_yaml::Value| commands_of(v) == Some(commands) && rendered(v) is None
}

/// Whether the YAML writer reports an error on some document that stands
/// for exactly this submission.
pub open spec fn job_unwritable(job: FormView) -> bool {
    exists|v: serde_yaml::Value| job_of(v) == Some(job) && rendered(v) is None
}

/// Whether the YAML writer reports an error on some document that stands
/// for exactly this response.
pub open spec fn response_unwritable(response: ResponseView) -> bool {
    exists|v: serde_yaml::Value| response_of(v) == Some(response) && rendered(v) is None
}

/// Writes a command list as the text of a command file.
///
/// The text is the YAML writer's rendering of a document that stands for
/// exactly these commands, in this order. The only error is the writer's
/// own, on such a document.
pub fn write_commands(commands: &Vec<CMD>) -> (r: Result<String, CodecError>)
    ensures
        match r {
            Ok(text) => is_commands_text(commands.deep_view(), text@),
            Err(e) => e == CodecError::Unwritable && commands_unwritable(commands.deep_view()),
        },
{
    let v = commands_value(commands);
    match render(&v) {
        Ok(text) => Ok(text),
        Err(_) => Err(CodecError::Unwritable),
    }
}

/// Writes a submission as the text of an inbound message.
///
/// The text is the YAML writer's rendering of a document that stands for
/// exactly this submission. The only error is the writer's own, on such a
/// document.
pub fn write_job(job: &FormData) -> (r: Result<String, CodecError>)
    ensures
        match r {
            Ok(text) => is_job_text(job@, text@),
            Err(e) => e == CodecError::Unwritable && job_unwritable(job@),
        },
{
    let v = job_value(job);
    match render(&v) {
        Ok(text) => Ok(text),
        Err(_) => Err(CodecError::Unwritable),
    }
}

/// Writes a response as the text of an outbound message.
///
/// The text is the YAML writer's rendering of a document that stands for
/// exactly this response. The only error is the writer's own, on such a
/// document.
pub fn write_response(response: &ResponseData) -> (r: Result<String, CodecError>)
    ensures
        match r {
            Ok(text) => is_response_text(response@, text@),
            Err(e) => e == CodecError::Unwritable && response_unwritable(response@),
        },
{
    let v = response_value(response);
    match render(&v) {
        Ok(text) => Ok(text),
        Err(_) => Err(CodecError::Unwritable),
    }
}

} // verus!
