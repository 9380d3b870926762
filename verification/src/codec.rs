//! How the schema is written as YAML documents and read back from them.
//!
//! Each schema type is a mapping whose keys are the field names; lists are
//! sequences; text, numbers and flags are scalars of their kind; an exit
//! state is its name as text. For every type there is a spec function that
//! says which value a document node stands for, if any (`*_of`), a decoder
//! that computes exactly that, and an encoder whose result decodes to the
//! value it was given.

use vstd::prelude::*;
use crate::schema::{
    CMD, CmdView, Config, ExitState, FormData, FormView, ResponseData, ResponseView, ResultView,
    SandboxResult,
};
use crate::yaml::{
    field, flag_value, list_value, number_value, put, table_value, text_value, value_bool,
    value_fields, value_items, value_text, value_u64,
};

verus! {

/// The node under `key` in a mapping node, if `v` is one and has it.
pub open spec fn field_of(v: serde_yaml::Value, key: Seq<char>) -> Option<serde_yaml::Value> {
    match value_fields(v) {
        Some(m) => if m.contains_key(key) {
            Some(m[key])
        } else {
            None
        },
        None => None,
    }
}

/// The text under `key`, if `v` is a mapping that holds a string there.
pub open spec fn text_at(v: serde_yaml::Value, key: Seq<char>) -> Option<Seq<char>> {
    match field_of(v, key) {
        Some(x) => value_text(x),
        None => None,
    }
}

/// The number under `key`, if `v` is a mapping that holds an integer there.
pub open spec fn number_at(v: serde_yaml::Value, key: Seq<char>) -> Option<u64> {
    match field_of(v, key) {
        Some(x) => value_u64(x),
        None => None,
    }
}

/// The flag under `key`, if `v` is a mapping that holds a boolean there.
pub open spec fn flag_at(v: serde_yaml::Value, key: Seq<char>) -> Option<bool> {
    match field_of(v, key) {
        Some(x) => value_bool(x),
        None => None,
    }
}

fn read_text(v: &serde_yaml::Value, key: &str) -> (r: Option<String>)
    ensures
        r is Some <==> text_at(*v, key@) is Some,
        r matches Some(s) ==> text_at(*v, key@) == Some(s@),
{
    match field(v, key) {
        Some(x) => match x.as_str() {
            Some(s) => Some(s.to_owned()),
            None => None,
        },
        None => None,
    }
}

fn read_number(v: &serde_yaml::Value, key: &str) -> (r: Option<u64>)
    ensures
        r == number_at(*v, key@),
{
    match field(v, key) {
        Some(x) => x.as_u64(),
        None => None,
    }
}

fn read_flag(v: &serde_yaml::Value, key: &str) -> (r: Option<bool>)
    ensures
        r == flag_at(*v, key@),
{
    match field(v, key) {
        Some(x) => x.as_bool(),
        None => None,
    }
}

/// The resource ceilings that a node stands for: a mapping with all seven
/// fields, six of them integers and `large_stack` a boolean. Other keys are
/// ignored.
pub open spec fn config_of(v: serde_yaml::Value) -> Option<Config> {
    if {
        &&& number_at(v, "time_limit"@) is Some
        &&& number_at(v, "time_reserved"@) is Some
        &&& number_at(v, "memory_limit"@) is Some
        &&& number_at(v, "memory_reserved"@) is Some
        &&& flag_at(v, "large_stack"@) is Some
        &&& number_at(v, "output_limit"@) is Some
        &&& number_at(v, "process_limit"@) is Some
    } {
        Some(
            Config {
                time_limit: number_at(v, "time_limit"@).unwrap(),
                time_reserved: number_at(v, "time_reserved"@).unwrap(),
                memory_limit: number_at(v, "memory_limit"@).unwrap(),
                memory_reserved: number_at(v, "memory_reserved"@).unwrap(),
                large_stack: flag_at(v, "large_stack"@).unwrap(),
                output_limit: number_at(v, "output_limit"@).unwrap(),
                process_limit: number_at(v, "process_limit"@).unwrap(),
            },
        )
    } else {
        None
    }
}

/// Reads resource ceilings from a node.
pub fn config_from_value(v: &serde_yaml::Value) -> (r: Option<Config>)
    ensures
        r == config_of(*v),
{
    let time_limit: u64 = match read_number(v, "time_limit") {
        Some(n) => n,
        None => { return None; },
    };
    let time_reserved: u64 = match read_number(v, "time_reserved") {
        Some(n) => n,
        None => { return None; },
    };
    let memory_limit: u64 = match read_number(v, "memory_limit") {
        Some(n) => n,
        None => { return None; },
    };
    let memory_reserved: u64 = match read_number(v, "memory_reserved") {
        Some(n) => n,
        None => { return None; },
    };
    let large_stack: bool = match read_flag(v, "large_stack") {
        Some(b) => b,
        None => { return None; },
    };
    let output_limit: u64 = match read_number(v, "output_limit") {
        Some(n) => n,
        None => { return None; },
    };
    let process_limit: u64 = match read_number(v, "process_limit") {
        Some(n) => n,
        None => { return None; },
    };
    Some(
        Config {
            time_limit,
            time_reserved,
            memory_limit,
            memory_reserved,
            large_stack,
            output_limit,
            process_limit,
        },
    )
}

/// The seven field names of the resource ceilings are pairwise different.
pub proof fn lemma_config_keys_differ()
    ensures
        "time_limit"@ != "time_reserved"@,
        "time_limit"@ != "memory_limit"@,
        "time_limit"@ != "memory_reserved"@,
        "time_limit"@ != "large_stack"@,
        "time_limit"@ != "output_limit"@,
        "time_limit"@ != "process_limit"@,
        "time_reserved"@ != "memory_limit"@,
        "time_reserved"@ != "memory_reserved"@,
        "time_reserved"@ != "large_stack"@,
        "time_reserved"@ != "output_limit"@,
        "time_reserved"@ != "process_limit"@,
        "memory_limit"@ != "memory_reserved"@,
        "memory_limit"@ != "large_stack"@,
        "memory_limit"@ != "output_limit"@,
        "memory_limit"@ != "process_limit"@,
        "memory_reserved"@ != "large_stack"@,
        "memory_reserved"@ != "output_limit"@,
        "memory_reserved"@ != "process_limit"@,
        "large_stack"@ != "output_limit"@,
        "large_stack"@ != "process_limit"@,
        "output_limit"@ != "process_limit"@,
{
    reveal_strlit("time_limit");
    reveal_strlit("time_reserved");
    reveal_strlit("memory_limit");
    reveal_strlit("memory_reserved");
    reveal_strlit("large_stack");
    reveal_strlit("output_limit");
    reveal_strlit("process_limit");
    assert("time_limit"@.len() == 10);
    assert("time_reserved"@.len() == 13);
    assert("memory_limit"@.len() == 12);
    assert("memory_reserved"@.len() == 15);
    assert("large_stack"@.len() == 11);
    assert("output_limit"@.len() == 12);
    assert("process_limit"@.len() == 13);
    assert("time_reserved"@[0] != "process_limit"@[0]);
    assert("memory_limit"@[0] != "output_limit"@[0]);
}

/// Writes resource ceilings as a mapping node. Reading the node back gives
/// the same ceilings.
pub fn config_value(c: &Config) -> (v: serde_yaml::Value)
    ensures
        config_of(v) == Some(*c),
{
    let mut m = serde_yaml::Mapping::new();
    put(&mut m, "time_limit", number_value(c.time_limit));
    put(&mut m, "time_reserved", number_value(c.time_reserved));
    put(&mut m, "memory_limit", number_value(c.memory_limit));
    put(&mut m, "memory_reserved", number_value(c.memory_reserved));
    put(&mut m, "large_stack", flag_value(c.large_stack));
    put(&mut m, "output_limit", number_value(c.output_limit));
    put(&mut m, "process_limit", number_value(c.process_limit));
    let v = table_value(m);
    proof {
        lemma_config_keys_differ();
    }
    v
}

/// The texts that a list of nodes stands for: every node must be a string.
pub open spec fn texts_of(items: Seq<serde_yaml::Value>) -> Option<Seq<Seq<char>>> {
    if forall|i: int| 0 <= i < items.len() ==> value_text(#[trigger] items[i]) is Some {
        Some(Seq::new(items.len(), |i: int| value_text(items[i]).unwrap()))
    } else {
        None
    }
}

/// The argument list that a node stands for: a sequence of strings.
pub open spec fn args_of(v: serde_yaml::Value) -> Option<Seq<Seq<char>>> {
    match value_items(v) {
        Some(items) => texts_of(items),
        None => None,
    }
}

/// Reads an argument list from a node.
pub fn args_from_value(v: &serde_yaml::Value) -> (r: Option<Vec<String>>)
    ensures
        r is Some <==> args_of(*v) is Some,
        r matches Some(a) ==> args_of(*v) == Some(a.deep_view()),
{
    let items = match v.as_sequence() {
        Some(items) => items,
        None => { return None; },
    };
    let mut out: Vec<String> = Vec::new();
    let mut i: usize = 0;
    while i < items.len()
        invariant
            i <= items.len(),
            out.len() == i,
            value_items(*v) == Some(items@),
            forall|j: int| 0 <= j < i ==> value_text(#[trigger] items[j]) == Some(out[j]@),
        decreases items.len() - i,
    {
        match items[i].as_str() {
            Some(s) => {
                out.push(s.to_owned());
            },
            None => {
                assert(value_text(items@[i as int]) is None);
                return None;
            },
        }
        i += 1;
    }
    assert(out.deep_view() =~= texts_of(items@).unwrap());
    Some(out)
}

/// Writes an argument list as a sequence node of strings. Reading the node
/// back gives the same list.
pub fn args_value(args: &Vec<String>) -> (v: serde_yaml::Value)
    ensures
        args_of(v) == Some(args.deep_view()),
{
    let mut out: Vec<serde_yaml::Value> = Vec::new();
    let mut i: usize = 0;
    while i < args.len()
        invariant
            i <= args.len(),
            out.len() == i,
            forall|j: int| 0 <= j < i ==> value_text(#[trigger] out[j]) == Some(args[j]@),
        decreases args.len() - i,
    {
        out.push(text_value(args[i].clone()));
        i += 1;
    }
    assert(texts_of(out@).unwrap() =~= args.deep_view());
    list_value(out)
}

/// The argument list under the key `args`.
pub open spec fn args_at(v: serde_yaml::Value) -> Option<Seq<Seq<char>>> {
    match field_of(v, "args"@) {
        Some(x) => args_of(x),
        None => None,
    }
}

/// The resource ceilings under the key `config`.
pub open spec fn config_at(v: serde_yaml::Value) -> Option<Config> {
    match field_of(v, "config"@) {
        Some(x) => config_of(x),
        None => None,
    }
}

/// The command that a node stands for: a mapping with the text `command`,
/// the list of texts `args`, the text `input` and the ceilings `config`.
/// Other keys are ignored.
pub open spec fn cmd_of(v: serde_yaml::Value) -> Option<CmdView> {
    if text_at(v, "command"@) is Some && args_at(v) is Some && text_at(v, "input"@) is Some
        && config_at(v) is Some {
        Some(
            CmdView {
                command: text_at(v, "command"@).unwrap(),
                args: args_at(v).unwrap(),
                input: text_at(v, "input"@).unwrap(),
                config: config_at(v).unwrap(),
            },
        )
    } else {
        None
    }
}

/// Reads one command from a node.
pub fn cmd_from_value(v: &serde_yaml::Value) -> (r: Option<CMD>)
    ensures
        r is Some <==> cmd_of(*v) is Some,
        r matches Some(c) ==> cmd_of(*v) == Some(c@),
{
    let command = match read_text(v, "command") {
        Some(s) => s,
        None => { return None; },
    };
    let args = match field(v, "args") {
        Some(x) => match args_from_value(x) {
            Some(a) => a,
            None => { return None; },
        },
        None => { return None; },
    };
    let input = match read_text(v, "input") {
        Some(s) => s,
        None => { return None; },
    };
    let config = match field(v, "config") {
        Some(x) => match config_from_value(x) {
            Some(c) => c,
            None => { return None; },
        },
        None => { return None; },
    };
    Some(CMD { command, args, input, config })
}

/// The four field names of a command are pairwise different.
pub proof fn lemma_cmd_keys_differ()
    ensures
        "command"@ != "args"@,
        "command"@ != "input"@,
        "command"@ != "config"@,
        "args"@ != "input"@,
        "args"@ != "config"@,
        "input"@ != "config"@,
{
    reveal_strlit("command");
    reveal_strlit("args");
    reveal_strlit("input");
    reveal_strlit("config");
    assert("command"@.len() == 7);
    assert("args"@.len() == 4);
    assert("input"@.len() == 5);
    assert("config"@.len() == 6);
}

/// Writes one command as a mapping node. Reading the node back gives the
/// same command.
pub fn cmd_value(c: &CMD) -> (v: serde_yaml::Value)
    ensures
        cmd_of(v) == Some(c@),
{
    let mut m = serde_yaml::Mapping::new();
    put(&mut m, "command", text_value(c.command.clone()));
    put(&mut m, "args", args_value(&c.args));
    put(&mut m, "input", text_value(c.input.clone()));
    put(&mut m, "config", config_value(&c.config));
    let v = table_value(m);
    proof {
        lemma_cmd_keys_differ();
    }
    v
}

/// The commands that a list of nodes stands for: every node must be a
/// command.
pub open spec fn cmds_of(items: Seq<serde_yaml::Value>) -> Option<Seq<CmdView>> {
    if forall|i: int| 0 <= i < items.len() ==> cmd_of(#[trigger] items[i]) is Some {
        Some(Seq::new(items.len(), |i: int| cmd_of(items[i]).unwrap()))
    } else {
        None
    }
}

/// The command list that a node stands for: a sequence of commands, in the
/// order in which they are to run.
pub open spec fn commands_of(v: serde_yaml::Value) -> Option<Seq<CmdView>> {
    match value_items(v) {
        Some(items) => cmds_of(items),
        None => None,
    }
}

/// Reads a command list from a node.
pub fn commands_from_value(v: &serde_yaml::Value) -> (r: Option<Vec<CMD>>)
    ensures
        r is Some <==> commands_of(*v) is Some,
        r matches Some(c) ==> commands_of(*v) == Some(c.deep_view()),
{
    let items = match v.as_sequence() {
        Some(items) => items,
        None => { return None; },
    };
    let mut out: Vec<CMD> = Vec::new();
    let mut i: usize = 0;
    while i < items.len()
        invariant
            i <= items.len(),
            out.len() == i,
            value_items(*v) == Some(items@),
            forall|j: int| 0 <= j < i ==> cmd_of(#[trigger] items[j]) == Some(out[j]@),
        decreases items.len() - i,
    {
        match cmd_from_value(&items[i]) {
            Some(c) => {
                out.push(c);
            },
            None => {
                assert(cmd_of(items@[i as int]) is None);
                return None;
            },
        }
        i += 1;
    }
    assert(out.deep_view() =~= cmds_of(items@).unwrap());
    Some(out)
}

/// Writes a command list as a sequence node. Reading the node back gives
/// the same commands in the same order.
pub fn commands_value(commands: &Vec<CMD>) -> (v: serde_yaml::Value)
    ensures
        commands_of(v) == Some(commands.deep_view()),
{
    let mut out: Vec<serde_yaml::Value> = Vec::new();
    let mut i: usize = 0;
    while i < commands.len()
        invariant
            i <= commands.len(),
            out.len() == i,
            forall|j: int| 0 <= j < i ==> cmd_of(#[trigger] out[j]) == Some(commands[j]@),
        decreases commands.len() - i,
    {
        out.push(cmd_value(&commands[i]));
        i += 1;
    }
    assert(cmds_of(out@).unwrap() =~= commands.deep_view());
    list_value(out)
}

/// The name under which an exit state is written.
pub open spec fn state_name(state: ExitState) -> Seq<char> {
    match state {
        ExitState::Success => "Success"@,
        ExitState::RuntimeError => "RuntimeError"@,
        ExitState::TimeLimitExceeded => "TimeLimitExceeded"@,
        ExitState::MemoryLimitExceeded => "MemoryLimitExceeded"@,
        ExitState::OtherError => "OtherError"@,
    }
}

/// The exit state that a name stands for. The five names are matched to the
/// letter; any other text names no state.
pub open spec fn state_named(name: Seq<char>) -> Option<ExitState> {
    if name == "Success"@ {
        Some(ExitState::Success)
    } else if name == "RuntimeError"@ {
        Some(ExitState::RuntimeError)
    } else if name == "TimeLimitExceeded"@ {
        Some(ExitState::TimeLimitExceeded)
    } else if name == "MemoryLimitExceeded"@ {
        Some(ExitState::MemoryLimitExceeded)
    } else if name == "OtherError"@ {
        Some(ExitState::OtherError)
    } else {
        None
    }
}

/// Every exit state is found again under its own name, so the five names
/// are pairwise different.
pub proof fn lemma_state_names(state: ExitState)
    ensures
        state_named(state_name(state)) == Some(state),
{
    reveal_strlit("Success");
    reveal_strlit("RuntimeError");
    reveal_strlit("TimeLimitExceeded");
    reveal_strlit("MemoryLimitExceeded");
    reveal_strlit("OtherError");
    assert("Success"@.len() == 7);
    assert("RuntimeError"@.len() == 12);
    assert("TimeLimitExceeded"@.len() == 17);
    assert("MemoryLimitExceeded"@.len() == 19);
    assert("OtherError"@.len() == 10);
}

fn same_text(a: &str, b: &str) -> (r: bool)
    ensures
        r == (a@ == b@),
{
    let left: String = a.to_owned();
    let right: String = b.to_owned();
    left == right
}

/// Finds the exit state of a given name.
pub fn state_from_name(name: &str) -> (r: Option<ExitState>)
    ensures
        r == state_named(name@),
{
    if same_text(name, "Success") {
        Some(ExitState::Success)
    } else if same_text(name, "RuntimeError") {
        Some(ExitState::RuntimeError)
    } else if same_text(name, "TimeLimitExceeded") {
        Some(ExitState::TimeLimitExceeded)
    } else if same_text(name, "MemoryLimitExceeded") {
        Some(ExitState::MemoryLimitExceeded)
    } else if same_text(name, "OtherError") {
        Some(ExitState::OtherError)
    } else {
        None
    }
}

/// Gives the name of an exit state.
pub fn name_of_state(state: ExitState) -> (r: String)
    ensures
        r@ == state_name(state),
{
    match state {
        ExitState::Success => "Success".to_owned(),
        ExitState::RuntimeError => "RuntimeError".to_owned(),
        ExitState::TimeLimitExceeded => "TimeLimitExceeded".to_owned(),
        ExitState::MemoryLimitExceeded => "MemoryLimitExceeded".to_owned(),
        ExitState::OtherError => "OtherError".to_owned(),
    }
}

/// The exit state under the key `state`.
pub open spec fn state_at(v: serde_yaml::Value) -> Option<ExitState> {
    match text_at(v, "state"@) {
        Some(name) => state_named(name),
        None => None,
    }
}

/// The result that a node stands for: a mapping with the exit state
/// `state` by name, the texts `stdout` and `stderr`, and the integers `time`
/// and `memory`. Other keys are ignored.
pub open spec fn result_of(v: serde_yaml::Value) -> Option<ResultView> {
    if state_at(v) is Some && text_at(v, "stdout"@) is Some && text_at(v, "stderr"@) is Some
        && number_at(v, "time"@) is Some && number_at(v, "memory"@) is Some {
        Some(
            ResultView {
                state: state_at(v).unwrap(),
                stdout: text_at(v, "stdout"@).unwrap(),
                stderr: text_at(v, "stderr"@).unwrap(),
                time: number_at(v, "time"@).unwrap(),
                memory: number_at(v, "memory"@).unwrap(),
            },
        )
    } else {
        None
    }
}

/// Reads one result from a node.
pub fn result_from_value(v: &serde_yaml::Value) -> (r: Option<SandboxResult>)
    ensures
        r is Some <==> result_of(*v) is Some,
        r matches Some(x) ==> result_of(*v) == Some(x@),
{
    let state = match read_text(v, "state") {
        Some(name) => match state_from_name(name.as_str()) {
            Some(s) => s,
            None => { return None; },
        },
        None => { return None; },
    };
    let stdout = match read_text(v, "stdout") {
        Some(s) => s,
        None => { return None; },
    };
    let stderr = match read_text(v, "stderr") {
        Some(s) => s,
        None => { return None; },
    };
    let time: u64 = match read_number(v, "time") {
        Some(n) => n,
        None => { return None; },
    };
    let memory: u64 = match read_number(v, "memory") {
        Some(n) => n,
        None => { return None; },
    };
    Some(SandboxResult { state, stdout, stderr, time, memory })
}

/// The five field names of a result are pairwise different.
pub proof fn lemma_result_keys_differ()
    ensures
        "state"@ != "stdout"@,
        "state"@ != "stderr"@,
        "state"@ != "time"@,
        "state"@ != "memory"@,
        "stdout"@ != "stderr"@,
        "stdout"@ != "time"@,
        "stdout"@ != "memory"@,
        "stderr"@ != "time"@,
        "stderr"@ != "memory"@,
        "time"@ != "memory"@,
{
    reveal_strlit("state");
    reveal_strlit("stdout");
    reveal_strlit("stderr");
    reveal_strlit("time");
    reveal_strlit("memory");
    assert("state"@.len() == 5);
    assert("stdout"@.len() == 6);
    assert("stderr"@.len() == 6);
    assert("time"@.len() == 4);
    assert("memory"@.len() == 6);
    assert("stdout"@[3] != "stderr"@[3]);
    assert("stdout"@[0] != "memory"@[0]);
    assert("stderr"@[0] != "memory"@[0]);
}

/// Writes one result as a mapping node. Reading the node back gives the
/// same result.
pub fn result_value(x: &SandboxResult) -> (v: serde_yaml::Value)
    ensures
        result_of(v) == Some(x@),
{
    let mut m = serde_yaml::Mapping::new();
    put(&mut m, "state", text_value(name_of_state(x.state)));
    put(&mut m, "stdout", text_value(x.stdout.clone()));
    put(&mut m, "stderr", text_value(x.stderr.clone()));
    put(&mut m, "time", number_value(x.time));
    put(&mut m, "memory", number_value(x.memory));
    let v = table_value(m);
    proof {
        lemma_result_keys_differ();
        lemma_state_names(x.state);
    }
    v
}

/// The results that a list of nodes stands for: every node must be a
/// result.
pub open spec fn each_result_of(items: Seq<serde_yaml::Value>) -> Option<Seq<ResultView>> {
    if forall|i: int| 0 <= i < items.len() ==> result_of(#[trigger] items[i]) is Some {
        Some(Seq::new(items.len(), |i: int| result_of(items[i]).unwrap()))
    } else {
        None
    }
}

/// The result list that a node stands for: a sequence of results, in the
/// order of the commands that they report on.
pub open spec fn results_of(v: serde_yaml::Value) -> Option<Seq<ResultView>> {
    match value_items(v) {
        Some(items) => each_result_of(items),
        None => None,
    }
}

/// Reads a result list from a node.
pub fn results_from_value(v: &serde_yaml::Value) -> (r: Option<Vec<SandboxResult>>)
    ensures
        r is Some <==> results_of(*v) is Some,
        r matches Some(x) ==> results_of(*v) == Some(x.deep_view()),
{
    let items = match v.as_sequence() {
        Some(items) => items,
        None => { return None; },
    };
    let mut out: Vec<SandboxResult> = Vec::new();
    let mut i: usize = 0;
    while i < items.len()
        invariant
            i <= items.len(),
            out.len() == i,
            value_items(*v) == Some(items@),
            forall|j: int| 0 <= j < i ==> result_of(#[trigger] items[j]) == Some(out[j]@),
        decreases items.len() - i,
    {
        match result_from_value(&items[i]) {
            Some(x) => {
                out.push(x);
            },
            None => {
                assert(result_of(items@[i as int]) is None);
                return None;
            },
        }
        i += 1;
    }
    assert(out.deep_view() =~= each_result_of(items@).unwrap());
    Some(out)
}

/// Writes a result list as a sequence node. Reading the node back gives the
/// same results in the same order.
pub fn results_value(results: &Vec<SandboxResult>) -> (v: serde_yaml::Value)
    ensures
        results_of(v) == Some(results.deep_view()),
{
    let mut out: Vec<serde_yaml::Value> = Vec::new();
    let mut i: usize = 0;
    while i < results.len()
        invariant
            i <= results.len(),
            out.len() == i,
            forall|j: int| 0 <= j < i ==> result_of(#[trigger] out[j]) == Some(results[j]@),
        decreases results.len() - i,
    {
        out.push(result_value(&results[i]));
        i += 1;
    }
    assert(each_result_of(out@).unwrap() =~= results.deep_view());
    list_value(out)
}

/// The command list under the key `commands`.
pub open spec fn commands_at(v: serde_yaml::Value) -> Option<Seq<CmdView>> {
    match field_of(v, "commands"@) {
        Some(x) => commands_of(x),
        None => None,
    }
}

/// The submission that a node stands for: a mapping with the command list
/// `commands` and the texts `image` and `submit_id`. Other keys are ignored.
pub open spec fn job_of(v: serde_yaml::Value) -> Option<FormView> {
    if commands_at(v) is Some && text_at(v, "image"@) is Some && text_at(v, "submit_id"@) is Some {
        Some(
            FormView {
                commands: commands_at(v).unwrap(),
                image: text_at(v, "image"@).unwrap(),
                submit_id: text_at(v, "submit_id"@).unwrap(),
            },
        )
    } else {
        None
    }
}

/// Reads a submission from a document.
pub fn job_from_value(v: &serde_yaml::Value) -> (r: Option<FormData>)
    ensures
        r is Some <==> job_of(*v) is Some,
        r matches Some(job) ==> job_of(*v) == Some(job@),
{
    let commands = match field(v, "commands") {
        Some(x) => match commands_from_value(x) {
            Some(c) => c,
            None => { return None; },
        },
        None => { return None; },
    };
    let image = match read_text(v, "image") {
        Some(s) => s,
        None => { return None; },
    };
    let submit_id = match read_text(v, "submit_id") {
        Some(s) => s,
        None => { return None; },
    };
    Some(FormData { commands, image, submit_id })
}

/// The field names of a submission and of a response are pairwise
/// different.
pub proof fn lemma_message_keys_differ()
    ensures
        "commands"@ != "image"@,
        "commands"@ != "submit_id"@,
        "image"@ != "submit_id"@,
        "sandbox_results"@ != "submit_id"@,
{
    reveal_strlit("commands");
    reveal_strlit("image");
    reveal_strlit("submit_id");
    reveal_strlit("sandbox_results");
    assert("commands"@.len() == 8);
    assert("image"@.len() == 5);
    assert("submit_id"@.len() == 9);
    assert("sandbox_results"@.len() == 15);
}

/// Writes a submission as a document. Reading the document back gives the
/// same submission: every command with its arguments, input and ceilings,
/// the image and the identifier.
pub fn job_value(job: &FormData) -> (v: serde_yaml::Value)
    ensures
        job_of(v) == Some(job@),
{
    let mut m = serde_yaml::Mapping::new();
    put(&mut m, "commands", commands_value(&job.commands));
    put(&mut m, "image", text_value(job.image.clone()));
    put(&mut m, "submit_id", text_value(job.submit_id.clone()));
    let v = table_value(m);
    proof {
        lemma_message_keys_differ();
    }
    v
}

/// The result list under the key `sandbox_results`.
pub open spec fn results_at(v: serde_yaml::Value) -> Option<Seq<ResultView>> {
    match field_of(v, "sandbox_results"@) {
        Some(x) => results_of(x),
        None => None,
    }
}

/// The response that a node stands for: a mapping with the result list
/// `sandbox_results` and the text `submit_id`. Other keys are ignored.
pub open spec fn response_of(v: serde_yaml::Value) -> Option<ResponseView> {
    if results_at(v) is Some && text_at(v, "submit_id"@) is Some {
        Some(
            ResponseView {
                sandbox_results: results_at(v).unwrap(),
                submit_id: text_at(v, "submit_id"@).unwrap(),
            },
        )
    } else {
        None
    }
}

/// Reads a response from a document.
pub fn response_from_value(v: &serde_yaml::Value) -> (r: Option<ResponseData>)
    ensures
        r is Some <==> response_of(*v) is Some,
        r matches Some(x) ==> response_of(*v) == Some(x@),
{
    let sandbox_results = match field(v, "sandbox_results") {
        Some(x) => match results_from_value(x) {
            Some(r) => r,
            None => { return None; },
        },
        None => { return None; },
    };
    let submit_id = match read_text(v, "submit_id") {
        Some(s) => s,
        None => { return None; },
    };
    Some(ResponseData { sandbox_results, submit_id })
}

/// Writes a response as a document. Reading the document back gives the
/// same response.
pub fn response_value(x: &ResponseData) -> (v: serde_yaml::Value)
    ensures
        response_of(v) == Some(x@),
{
    let mut m = serde_yaml::Mapping::new();
    put(&mut m, "sandbox_results", results_value(&x.sandbox_results));
    put(&mut m, "submit_id", text_value(x.submit_id.clone()));
    let v = table_value(m);
    proof {
        lemma_message_keys_differ();
    }
    v
}

} // verus!
