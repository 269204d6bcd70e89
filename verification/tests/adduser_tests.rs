use podmen::adduser::{add_user, linger_enabled, user_created};
use podmen::command::{enable_linger_command, podman_ps_command, useradd_command};
use podmen::run::replay;
use podmen::step::{ExternalCommand, Line, Next, Outcome, Pending, Step, Stream};

fn out(text: &str) -> Line {
    Line { stream: Stream::Stdout, text: text.to_string() }
}

fn err(text: &str) -> Line {
    Line { stream: Stream::Stderr, text: text.to_string() }
}

fn sudo(args: &[&str]) -> ExternalCommand {
    ExternalCommand {
        program: "sudo".to_string(),
        args: args.iter().map(|arg| arg.to_string()).collect(),
    }
}

#[test]
fn useradd_command_creates_a_system_account_without_shell() {
    assert_eq!(
        useradd_command(&"alice".to_string()),
        sudo(&["useradd", "-r", "-s", "/usr/sbin/nologin", "alice"])
    );
}

#[test]
fn enable_linger_command_names_the_user() {
    assert_eq!(
        enable_linger_command(&"alice".to_string()),
        sudo(&["loginctl", "enable-linger", "alice"])
    );
}

#[test]
fn podman_ps_command_runs_as_the_user() {
    assert_eq!(podman_ps_command(&"alice".to_string()), sudo(&["-u", "alice", "podman", "ps"]));
}

#[test]
fn add_user_announces_and_creates_the_account() {
    let step = add_user("bob".to_string());
    assert_eq!(
        step,
        Step {
            output: vec![out("Adding user: bob")],
            next: Next::Run {
                command: sudo(&["useradd", "-r", "-s", "/usr/sbin/nologin", "bob"]),
                pending: Pending::CreateUser { name: "bob".to_string() },
            },
        }
    );
}

#[test]
fn created_account_gets_linger_enabled() {
    let step = user_created("bob".to_string(), Outcome::Succeeded);
    assert_eq!(
        step,
        Step {
            output: vec![out("Enabling linger for user: bob")],
            next: Next::Run {
                command: sudo(&["loginctl", "enable-linger", "bob"]),
                pending: Pending::EnableLinger { name: "bob".to_string() },
            },
        }
    );
}

#[test]
fn failed_creation_is_reported_and_exits_one() {
    let step = user_created("alice".to_string(), Outcome::Failed);
    assert_eq!(
        step,
        Step { output: vec![err("Failed to add user alice")], next: Next::Exit { status: 1 } }
    );
}

#[test]
fn unlaunched_creation_is_reported_and_exits_one() {
    let step = user_created("alice".to_string(), Outcome::NotLaunched("No such file".to_string()));
    assert_eq!(
        step,
        Step {
            output: vec![err("Failed to execute useradd: No such file")],
            next: Next::Exit { status: 1 },
        }
    );
}

#[test]
fn enabled_linger_is_confirmed_and_exits_zero() {
    let step = linger_enabled("bob".to_string(), Outcome::Succeeded);
    assert_eq!(
        step,
        Step { output: vec![out("User bob added successfully")], next: Next::Exit { status: 0 } }
    );
}

#[test]
fn failed_linger_is_reported_and_exits_one() {
    let step = linger_enabled("bob".to_string(), Outcome::Failed);
    assert_eq!(
        step,
        Step {
            output: vec![err("Failed to enable linger for user bob")],
            next: Next::Exit { status: 1 },
        }
    );
}

#[test]
fn unlaunched_linger_is_reported_and_exits_one() {
    let step = linger_enabled("bob".to_string(), Outcome::NotLaunched("denied".to_string()));
    assert_eq!(
        step,
        Step {
            output: vec![err("Failed to execute loginctl: denied")],
            next: Next::Exit { status: 1 },
        }
    );
}

#[test]
fn adduser_alice_with_failing_creation_never_enables_linger() {
    let trace = replay(add_user("alice".to_string()), vec![Outcome::Failed, Outcome::Succeeded]);
    assert_eq!(trace.commands, vec![sudo(&["useradd", "-r", "-s", "/usr/sbin/nologin", "alice"])]);
    assert_eq!(trace.end, Next::Exit { status: 1 });
    assert_eq!(trace.output, vec![out("Adding user: alice"), err("Failed to add user alice")]);
}

#[test]
fn adduser_with_unlaunched_creation_never_enables_linger() {
    let script = vec![Outcome::NotLaunched("sudo: not found".to_string()), Outcome::Succeeded];
    let trace = replay(add_user("alice".to_string()), script);
    assert_eq!(trace.commands.len(), 1);
    assert_eq!(trace.end, Next::Exit { status: 1 });
    assert_eq!(
        trace.output,
        vec![out("Adding user: alice"), err("Failed to execute useradd: sudo: not found")]
    );
}

#[test]
fn adduser_bob_with_both_steps_succeeding() {
    let trace = replay(add_user("bob".to_string()), vec![Outcome::Succeeded, Outcome::Succeeded]);
    assert_eq!(
        trace.output,
        vec![
            out("Adding user: bob"),
            out("Enabling linger for user: bob"),
            out("User bob added successfully"),
        ]
    );
    assert_eq!(
        trace.commands,
        vec![
            sudo(&["useradd", "-r", "-s", "/usr/sbin/nologin", "bob"]),
            sudo(&["loginctl", "enable-linger", "bob"]),
        ]
    );
    assert_eq!(trace.end, Next::Exit { status: 0 });
}

#[test]
fn adduser_with_failing_linger_undoes_nothing() {
    let trace = replay(
        add_user("bob".to_string()),
        vec![Outcome::Succeeded, Outcome::Failed, Outcome::Succeeded],
    );
    assert_eq!(
        trace.commands,
        vec![
            sudo(&["useradd", "-r", "-s", "/usr/sbin/nologin", "bob"]),
            sudo(&["loginctl", "enable-linger", "bob"]),
        ]
    );
    assert_eq!(
        trace.output,
        vec![
            out("Adding user: bob"),
            out("Enabling linger for user: bob"),
            err("Failed to enable linger for user bob"),
        ]
    );
    assert_eq!(trace.end, Next::Exit { status: 1 });
}
