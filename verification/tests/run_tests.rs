use podmen::cli::{arg_error, ArgError};
use podmen::adduser::add_user;
use podmen::config::{Config, UserEntry};
use podmen::ps::podman_ps;
use podmen::run::{replay, resume, start, Trace};
use podmen::step::{one_line, ExternalCommand, Line, Next, Outcome, Pending, Step, Stream};
use podmen::text::{join2, join3, join4};

fn argv(args: &[&str]) -> Vec<String> {
    args.iter().map(|arg| arg.to_string()).collect()
}

fn op_home() -> Option<String> {
    Some("/home/op".to_string())
}

#[test]
fn no_command_prints_usage_and_exits_one() {
    let step = start(&argv(&[]), op_home());
    assert_eq!(step, arg_error(&ArgError::NoCommand));
    assert_eq!(step.next, Next::Exit { status: 1 });
    assert_eq!(step.output[1].text, "Usage: podmen [-c|--config <PATH>] <COMMAND>");
    assert_eq!(step.output[1].stream, Stream::Stdout);
}

#[test]
fn unknown_command_prints_usage_and_exits_one() {
    let step = start(&argv(&["status"]), op_home());
    assert_eq!(step, arg_error(&ArgError::UnknownCommand("status".to_string())));
    assert_eq!(step.output[0].text, "error: unknown command 'status'");
    assert_eq!(step.output[0].stream, Stream::Stderr);
    assert_eq!(step.next, Next::Exit { status: 1 });
}

#[test]
fn adduser_without_name_prints_usage_and_exits_one() {
    let step = start(&argv(&["adduser"]), op_home());
    assert_eq!(step, arg_error(&ArgError::MissingUsername));
    assert_eq!(step.next, Next::Exit { status: 1 });
}

#[test]
fn config_flag_without_value_exits_one_before_any_load() {
    let lines = [
        vec!["--config"],
        vec!["-c"],
        vec!["ps", "--config"],
        vec!["-c", "a", "ps", "-c"],
        vec!["ps", "-c", "--config"],
        vec!["-c", "--config", "ps"],
    ];
    for args in lines {
        let step = start(&argv(&args), op_home());
        assert_eq!(step.next, Next::Exit { status: 1 });
        assert_eq!(
            step.output[0],
            Line {
                stream: Stream::Stderr,
                text: "error: option --config requires a path".to_string(),
            }
        );
        let trace = replay(step, vec![Outcome::Succeeded]);
        assert!(trace.commands.is_empty());
        assert_eq!(trace.end, Next::Exit { status: 1 });
    }
}

#[test]
fn ps_asks_for_the_default_configuration() {
    let step = start(&argv(&["ps"]), op_home());
    assert_eq!(
        step,
        Step {
            output: vec![],
            next: Next::Load { path: "/home/op/.config/podmen.conf".to_string() },
        }
    );
}

#[test]
fn ps_asks_for_the_configuration_given() {
    let step = start(&argv(&["--config", "/etc/podmen.json", "ps"]), None);
    assert_eq!(step.next, Next::Load { path: "/etc/podmen.json".to_string() });
    assert!(step.output.is_empty());
}

#[test]
fn adduser_starts_with_the_account_creation() {
    let step = start(&argv(&["adduser", "bob"]), None);
    assert_eq!(step, add_user("bob".to_string()));
}

#[test]
fn adduser_needs_no_configuration() {
    let first = start(&argv(&["-c", "/does/not/exist", "adduser", "bob"]), None);
    let trace = replay(first, vec![Outcome::Succeeded, Outcome::Succeeded]);
    assert_eq!(trace.end, Next::Exit { status: 0 });
    assert_eq!(trace.commands.len(), 2);
}

#[test]
fn resume_goes_by_what_was_pending() {
    let created = resume(Pending::CreateUser { name: "bob".to_string() }, Outcome::Succeeded);
    assert_eq!(created.output[0].text, "Enabling linger for user: bob");
    let lingering = resume(Pending::EnableLinger { name: "bob".to_string() }, Outcome::Succeeded);
    assert_eq!(lingering.output[0].text, "User bob added successfully");
    assert_eq!(lingering.next, Next::Exit { status: 0 });
    let listed = resume(
        Pending::ListContainers { current: "bob".to_string(), remaining: Vec::new() },
        Outcome::Failed,
    );
    assert_eq!(listed.output[0].text, "podman ps failed for user bob");
    assert_eq!(listed.next, Next::Exit { status: 0 });
}

#[test]
fn replay_stops_where_the_configuration_is_needed() {
    let trace = replay(start(&argv(&["ps"]), None), vec![Outcome::Succeeded]);
    assert_eq!(
        trace,
        Trace {
            output: vec![],
            commands: vec![],
            end: Next::Load { path: "/root/.config/podmen.conf".to_string() },
        }
    );
}

#[test]
fn replay_stops_at_a_command_without_outcome() {
    let trace = replay(add_user("bob".to_string()), vec![Outcome::Succeeded]);
    assert_eq!(trace.commands.len(), 1);
    assert_eq!(trace.output.len(), 2);
    assert_eq!(
        trace.end,
        Next::Run {
            command: ExternalCommand {
                program: "sudo".to_string(),
                args: argv(&["loginctl", "enable-linger", "bob"]),
            },
            pending: Pending::EnableLinger { name: "bob".to_string() },
        }
    );
    let idle = replay(add_user("bob".to_string()), Vec::new());
    assert!(idle.commands.is_empty());
    assert_eq!(idle.output.len(), 1);
    assert!(matches!(idle.end, Next::Run { .. }));
}

#[test]
fn whole_ps_run_from_the_command_line() {
    let first = start(&argv(&["-c", "users.json", "ps"]), op_home());
    let path = match first.next {
        Next::Load { path } => path,
        other => panic!("no load asked for: {:?}", other),
    };
    assert_eq!(path, "users.json");
    let config = Config {
        user: Some(UserEntry { name: "alice".to_string(), uid: None, env: None }),
        users: Some(vec![UserEntry { name: "bob".to_string(), uid: Some(1002), env: None }]),
    };
    let trace = replay(podman_ps(path, Ok(config)), vec![Outcome::Succeeded, Outcome::Succeeded]);
    let shown: Vec<String> = trace.output.iter().map(|line| line.text.clone()).collect();
    assert_eq!(
        shown,
        vec!["\n=== Containers for user: alice ===", "\n=== Containers for user: bob ==="]
    );
    assert_eq!(trace.commands.len(), 2);
    assert_eq!(trace.end, Next::Exit { status: 0 });
}

#[test]
fn one_line_holds_one_line() {
    let step = one_line(Stream::Stderr, "oops".to_string(), Next::Exit { status: 1 });
    assert_eq!(
        step,
        Step {
            output: vec![Line { stream: Stream::Stderr, text: "oops".to_string() }],
            next: Next::Exit { status: 1 },
        }
    );
}

#[test]
fn texts_are_joined_in_order() {
    assert_eq!(join2("ab", "cd"), "abcd");
    assert_eq!(join3("a", "", "c"), "ac");
    assert_eq!(join4("w", "x", "y", "z"), "wxyz");
}
