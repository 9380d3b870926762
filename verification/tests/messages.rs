use sandbox_runner::codec::{
    cmd_from_value, config_from_value, job_from_value, name_of_state, result_from_value,
    results_from_value, state_from_name,
};
use sandbox_runner::schema::{
    Config, ExitState, FormData, ResponseData, SandboxResult, CMD,
};
use sandbox_runner::wire::{
    body_text, read_job, read_response, read_results, write_commands, write_job, write_response,
    CodecError,
};

fn config(memory_reserved: u64) -> Config {
    Config {
        time_limit: 1,
        time_reserved: 1,
        memory_limit: 256000,
        memory_reserved,
        large_stack: false,
        output_limit: 0,
        process_limit: 0,
    }
}

fn gcc_commands() -> Vec<CMD> {
    vec![CMD {
        command: "gcc".to_string(),
        args: vec!["--version".to_string()],
        input: "".to_string(),
        config: config(4096000),
    }]
}

fn cpp_commands() -> Vec<CMD> {
    vec![
        CMD {
            command: "sh".to_string(),
            args: vec![
                "-c".to_string(),
                r#"echo '#include <iostream>
using namespace std;
int main() {
    int a, b;
    cin >> a >> b;
    cout << a << " + " << b << " = " << a + b << endl;
}' > main.cpp"#
                    .to_string(),
            ],
            input: "".to_string(),
            config: config(4096000),
        },
        CMD {
            command: "g++".to_string(),
            args: vec!["main.cpp".to_string(), "-o".to_string(), "main".to_string()],
            input: "".to_string(),
            config: config(4096000),
        },
        CMD {
            command: "./main".to_string(),
            args: vec![],
            input: "1 2".to_string(),
            config: config(4096000),
        },
    ]
}

fn document(text: &str) -> serde_yaml::Value {
    serde_yaml::from_str(text).unwrap()
}

#[test]
fn main_gcc_version() {
    let form_data = FormData {
        commands: gcc_commands(),
        image: "gcc:14.2".to_string(),
        submit_id: "......".to_string(),
    };
    let body = write_job(&form_data).unwrap();
    assert_eq!(read_job(&body), Ok(form_data));
}

#[test]
fn main_cpp_a_add_b() {
    let form_data = FormData {
        commands: cpp_commands(),
        image: "gcc:14.2".to_string(),
        submit_id: "......".to_string(),
    };
    let body = write_job(&form_data).unwrap();
    println!("{}", body);
    let back = read_job(&body).unwrap();
    assert_eq!(back.commands.len(), 3);
    assert_eq!(back.commands[0].args[1], form_data.commands[0].args[1]);
    assert_eq!(back, form_data);
}

#[test]
fn job_text_is_exact() {
    let form_data = FormData {
        commands: gcc_commands(),
        image: "gcc:14.2".to_string(),
        submit_id: "......".to_string(),
    };
    assert_eq!(
        write_job(&form_data).unwrap(),
        "commands:\n- command: gcc\n  args:\n  - --version\n  input: ''\n  config:\n    time_limit: 1\n    time_reserved: 1\n    memory_limit: 256000\n    memory_reserved: 4096000\n    large_stack: false\n    output_limit: 0\n    process_limit: 0\nimage: gcc:14.2\nsubmit_id: '......'\n"
    );
}

#[test]
fn commands_text_is_exact() {
    assert_eq!(
        write_commands(&gcc_commands()).unwrap(),
        "- command: gcc\n  args:\n  - --version\n  input: ''\n  config:\n    time_limit: 1\n    time_reserved: 1\n    memory_limit: 256000\n    memory_reserved: 4096000\n    large_stack: false\n    output_limit: 0\n    process_limit: 0\n"
    );
}

#[test]
fn empty_command_list_is_written_and_read() {
    let job = FormData { commands: vec![], image: "gcc:14.2".to_string(), submit_id: "a".to_string() };
    assert_eq!(write_commands(&job.commands).unwrap(), "[]\n");
    assert_eq!(read_job(&write_job(&job).unwrap()), Ok(job));
}

#[test]
fn response_text_is_exact() {
    let response = ResponseData {
        sandbox_results: vec![SandboxResult {
            state: ExitState::TimeLimitExceeded,
            stdout: "".to_string(),
            stderr: "".to_string(),
            time: 1,
            memory: 2048,
        }],
        submit_id: "42".to_string(),
    };
    assert_eq!(
        write_response(&response).unwrap(),
        "sandbox_results:\n- state: TimeLimitExceeded\n  stdout: ''\n  stderr: ''\n  time: 1\n  memory: 2048\nsubmit_id: '42'\n"
    );
}

#[test]
fn job_round_trip_keeps_every_field() {
    let job = FormData {
        commands: vec![CMD {
            command: "true".to_string(),
            args: vec!["1".to_string(), "null".to_string(), " spaced ".to_string(), "".to_string()],
            input: "line one\nline two\n\ttabbed: yes # no comment\n".to_string(),
            config: Config {
                time_limit: 1,
                time_reserved: 2,
                memory_limit: 3,
                memory_reserved: 4,
                large_stack: true,
                output_limit: 5,
                process_limit: u64::MAX,
            },
        }],
        image: "openjdk:21".to_string(),
        submit_id: "007".to_string(),
    };
    let back = read_job(&write_job(&job).unwrap()).unwrap();
    assert_eq!(back, job);
    assert_eq!(back.commands[0].config.process_limit, u64::MAX);
    assert_eq!(back.commands[0].config.large_stack, true);
    assert_eq!(back.commands[0].args[1], "null");
    assert_eq!(back.submit_id, "007");
}

#[test]
fn response_round_trip_keeps_every_field() {
    let response = ResponseData {
        sandbox_results: vec![
            SandboxResult {
                state: ExitState::Success,
                stdout: "1 + 2 = 3\n".to_string(),
                stderr: "".to_string(),
                time: 0,
                memory: 3000,
            },
            SandboxResult {
                state: ExitState::MemoryLimitExceeded,
                stdout: "".to_string(),
                stderr: "killed".to_string(),
                time: 1,
                memory: 256000,
            },
        ],
        submit_id: "......".to_string(),
    };
    assert_eq!(read_response(&write_response(&response).unwrap()), Ok(response));
}

#[test]
fn every_state_is_found_under_its_name() {
    let states = [
        (ExitState::Success, "Success"),
        (ExitState::RuntimeError, "RuntimeError"),
        (ExitState::TimeLimitExceeded, "TimeLimitExceeded"),
        (ExitState::MemoryLimitExceeded, "MemoryLimitExceeded"),
        (ExitState::OtherError, "OtherError"),
    ];
    for (state, name) in states {
        assert_eq!(name_of_state(state), name);
        assert_eq!(state_from_name(name), Some(state));
    }
    assert_eq!(state_from_name("success"), None);
    assert_eq!(state_from_name(""), None);
    assert_eq!(state_from_name("Success "), None);
}

#[test]
fn message_that_is_not_text_is_refused() {
    assert_eq!(body_text(vec![0x66, 0xff, 0x6f]), Err(CodecError::NotText));
    assert_eq!(body_text(vec![0xc0, 0x80]), Err(CodecError::NotText));
    assert_eq!(body_text(vec![0xed, 0xa0, 0x80]), Err(CodecError::NotText));
}

#[test]
fn message_text_is_decoded_from_utf8() {
    assert_eq!(body_text("id: \u{e9}\u{4e16}\u{1f600}".as_bytes().to_vec()), Ok("id: \u{e9}\u{4e16}\u{1f600}".to_string()));
    assert_eq!(body_text(vec![]), Ok(String::new()));
}

#[test]
fn text_that_is_not_yaml_is_refused() {
    assert_eq!(read_job("commands: [unclosed"), Err(CodecError::NotYaml));
    assert_eq!(read_results("- state: 'Success"), Err(CodecError::NotYaml));
    assert_eq!(read_response("a: b: c: ["), Err(CodecError::NotYaml));
}

#[test]
fn document_of_another_shape_is_refused() {
    assert_eq!(read_job("Hello World From Server"), Err(CodecError::WrongShape));
    assert_eq!(read_job(""), Err(CodecError::WrongShape));
    assert_eq!(read_job("commands: []\nimage: gcc:14.2\n"), Err(CodecError::WrongShape));
    assert_eq!(read_job("commands: {}\nimage: gcc:14.2\nsubmit_id: a\n"), Err(CodecError::WrongShape));
    assert_eq!(read_job("commands: []\nimage: 14\nsubmit_id: a\n"), Err(CodecError::WrongShape));
    assert_eq!(read_results("state: Success"), Err(CodecError::WrongShape));
    assert_eq!(read_response("submit_id: a\n"), Err(CodecError::WrongShape));
}

#[test]
fn job_with_other_keys_is_read() {
    let job = read_job("priority: 3\nsubmit_id: a\nimage: gcc:14.2\ncommands: []\n").unwrap();
    assert_eq!(job, FormData { commands: vec![], image: "gcc:14.2".to_string(), submit_id: "a".to_string() });
}

#[test]
fn config_needs_all_seven_fields_of_their_kind() {
    let full = "time_limit: 1\ntime_reserved: 2\nmemory_limit: 3\nmemory_reserved: 4\nlarge_stack: true\noutput_limit: 5\nprocess_limit: 6\n";
    assert_eq!(
        config_from_value(&document(full)),
        Some(Config {
            time_limit: 1,
            time_reserved: 2,
            memory_limit: 3,
            memory_reserved: 4,
            large_stack: true,
            output_limit: 5,
            process_limit: 6,
        })
    );
    for key in [
        "time_limit",
        "time_reserved",
        "memory_limit",
        "memory_reserved",
        "large_stack",
        "output_limit",
        "process_limit",
    ] {
        let without: String = full.lines().filter(|l| !l.starts_with(key)).map(|l| format!("{}\n", l)).collect();
        assert_eq!(config_from_value(&document(&without)), None);
    }
    assert_eq!(config_from_value(&document(&full.replace("time_limit: 1", "time_limit: -1"))), None);
    assert_eq!(config_from_value(&document(&full.replace("time_limit: 1", "time_limit: '1'"))), None);
    assert_eq!(config_from_value(&document(&full.replace("large_stack: true", "large_stack: 1"))), None);
    assert_eq!(config_from_value(&document("[1, 2, 3]")), None);
}

#[test]
fn command_is_read_from_a_document() {
    let text = "command: ./main\nargs: [a, b]\ninput: 1 2\nconfig: {time_limit: 1, time_reserved: 1, memory_limit: 256000, memory_reserved: 4096000, large_stack: false, output_limit: 0, process_limit: 0}\n";
    assert_eq!(
        cmd_from_value(&document(text)),
        Some(CMD {
            command: "./main".to_string(),
            args: vec!["a".to_string(), "b".to_string()],
            input: "1 2".to_string(),
            config: config(4096000),
        })
    );
    assert_eq!(cmd_from_value(&document(&text.replace("args: [a, b]", "args: [a, 2]"))), None);
    assert_eq!(cmd_from_value(&document(&text.replace("args: [a, b]", "args: a"))), None);
    assert_eq!(cmd_from_value(&document(&text.replace("input: 1 2", "stdin: 1 2"))), None);
}

#[test]
fn result_is_read_from_a_document() {
    let text = "state: RuntimeError\nstdout: ''\nstderr: segfault\ntime: 0\nmemory: 12\n";
    assert_eq!(
        result_from_value(&document(text)),
        Some(SandboxResult {
            state: ExitState::RuntimeError,
            stdout: "".to_string(),
            stderr: "segfault".to_string(),
            time: 0,
            memory: 12,
        })
    );
    assert_eq!(result_from_value(&document(&text.replace("RuntimeError", "Crashed"))), None);
    assert_eq!(result_from_value(&document(&text.replace("time: 0", "time: 0.5"))), None);
    assert_eq!(results_from_value(&document("[]")), Some(vec![]));
    assert_eq!(results_from_value(&document(&format!("- {}", text.replace('\n', "\n  ")))).map(|r| r.len()), Some(1));
    assert_eq!(results_from_value(&document("- state: Success\n- 3\n")), None);
}

#[test]
fn job_is_read_from_a_document() {
    let value = document("commands: []\nimage: gcc:14.2\nsubmit_id: abc\n");
    assert_eq!(
        job_from_value(&value),
        Some(FormData { commands: vec![], image: "gcc:14.2".to_string(), submit_id: "abc".to_string() })
    );
    assert_eq!(job_from_value(&document("- commands")), None);
}

#[test]
fn results_are_read_in_file_order() {
    let text = "- state: Success\n  stdout: first\n  stderr: ''\n  time: 1\n  memory: 2\n- state: OtherError\n  stdout: second\n  stderr: Error occurred\n  time: 0\n  memory: 0\n";
    let results = read_results(text).unwrap();
    assert_eq!(results.len(), 2);
    assert_eq!(results[0].stdout, "first");
    assert_eq!(results[1].stdout, "second");
    assert_eq!(results[1].state, ExitState::OtherError);
}

#[test]
fn round_trip_keeps_text_that_looks_like_yaml() {
    let texts = [
        "", " ", "~", "null", "Null", "true", "False", "yes", "no", "on", "off", "1", "-1", "0x10",
        "0o7", "1e3", ".inf", ".nan", "1.5", "+1", "007", "!tagged", "&anchor", "*alias", "- dash",
        "key: value", "# comment", "'single'", "\"double\"", "a\nb", "a\r\nb", "\ttab", "trailing ",
        " leading", "|", ">", "[a, b]", "{a: b}", "---", "...", "%directive", "@at", "`tick`",
        "caf\u{e9} \u{4e16}\u{754c} \u{1f600}", "a\u{0}b", "\u{7f}", "\u{85}", "\u{2028}", "\\n",
        "line\n", "\n", "\n\n", "x: |\n  y",
    ];
    for text in texts {
        let job = FormData {
            commands: vec![CMD {
                command: text.to_string(),
                args: vec![text.to_string(), text.to_string()],
                input: text.to_string(),
                config: config(0),
            }],
            image: text.to_string(),
            submit_id: text.to_string(),
        };
        let written = write_job(&job).unwrap();
        assert_eq!(read_job(&written), Ok(job), "text {:?} written as {:?}", text, written);
        let response = ResponseData {
            sandbox_results: vec![SandboxResult {
                state: ExitState::OtherError,
                stdout: text.to_string(),
                stderr: text.to_string(),
                time: 0,
                memory: 0,
            }],
            submit_id: text.to_string(),
        };
        assert_eq!(read_response(&write_response(&response).unwrap()), Ok(response));
    }
}

#[test]
fn round_trip_keeps_every_number() {
    for n in [0, 1, 255, 256000, 4096000, u32::MAX as u64, i64::MAX as u64, i64::MAX as u64 + 1, u64::MAX] {
        let job = FormData {
            commands: vec![CMD {
                command: "c".to_string(),
                args: vec![],
                input: "".to_string(),
                config: Config {
                    time_limit: n,
                    time_reserved: n,
                    memory_limit: n,
                    memory_reserved: n,
                    large_stack: n % 2 == 1,
                    output_limit: n,
                    process_limit: n,
                },
            }],
            image: "i".to_string(),
            submit_id: "s".to_string(),
        };
        assert_eq!(read_job(&write_job(&job).unwrap()), Ok(job));
    }
}
