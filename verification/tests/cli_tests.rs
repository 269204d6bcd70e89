use podmen::cli::{
    arg_error, diagnostic, parse_args, select, usage, ArgError, Invocation, Operation,
};
use podmen::step::{Line, Next, Stream};

fn words(args: &[&str]) -> Vec<String> {
    args.iter().map(|arg| arg.to_string()).collect()
}

fn home() -> Option<String> {
    Some("/home/op".to_string())
}

fn listing(path: &str) -> Result<Invocation, ArgError> {
    Ok(Invocation { config_path: path.to_string(), operation: Operation::ListContainers })
}

fn adding(path: &str, name: &str) -> Result<Invocation, ArgError> {
    Ok(Invocation {
        config_path: path.to_string(),
        operation: Operation::AddUser { name: name.to_string() },
    })
}

#[test]
fn ps_is_parsed() {
    assert_eq!(parse_args(&words(&["ps"]), home()), listing("/home/op/.config/podmen.conf"));
}

#[test]
fn ps_without_home_uses_root_home() {
    assert_eq!(parse_args(&words(&["ps"]), None), listing("/root/.config/podmen.conf"));
}

#[test]
fn adduser_is_parsed() {
    assert_eq!(
        parse_args(&words(&["adduser", "alice"]), home()),
        adding("/home/op/.config/podmen.conf", "alice")
    );
}

#[test]
fn short_override_is_parsed() {
    assert_eq!(
        parse_args(&words(&["-c", "/etc/podmen.json", "ps"]), home()),
        listing("/etc/podmen.json")
    );
}

#[test]
fn long_override_is_parsed() {
    assert_eq!(
        parse_args(&words(&["--config", "my.conf", "adduser", "bob"]), home()),
        adding("my.conf", "bob")
    );
}

#[test]
fn last_override_counts() {
    assert_eq!(parse_args(&words(&["-c", "a", "--config", "b", "ps"]), home()), listing("b"));
}

#[test]
fn override_value_may_be_a_command_word() {
    assert_eq!(parse_args(&words(&["--config", "ps", "ps"]), home()), listing("ps"));
    assert_eq!(parse_args(&words(&["-c", "adduser", "ps"]), home()), listing("adduser"));
    assert_eq!(parse_args(&words(&["-c", "--conf", "ps"]), home()), listing("--conf"));
}

#[test]
fn a_flag_is_never_taken_as_a_path() {
    let missing = Err(ArgError::MissingConfigValue);
    assert_eq!(parse_args(&words(&["-c", "--config", "ps"]), home()), missing);
    assert_eq!(parse_args(&words(&["--config", "-c", "x", "ps"]), home()), missing);
    assert_eq!(parse_args(&words(&["ps", "-c", "--config"]), home()), missing);
    assert_eq!(parse_args(&words(&["ps", "--config", "--config"]), home()), missing);
    assert_eq!(parse_args(&words(&["-c", "-c"]), None), missing);
    assert_eq!(parse_args(&words(&["adduser", "bob", "-c", "-c", "x"]), home()), missing);
}

#[test]
fn every_command_line_that_ends_in_a_flag_is_an_error() {
    let starts: [&[&str]; 7] = [
        &[],
        &["ps"],
        &["-c"],
        &["ps", "-c"],
        &["-c", "x", "ps"],
        &["adduser", "bob", "--config"],
        &["-c", "x", "-c"],
    ];
    for start in starts {
        for flag in ["-c", "--config"] {
            let mut line = words(start);
            line.push(flag.to_string());
            assert_eq!(parse_args(&line, home()), Err(ArgError::MissingConfigValue));
        }
    }
}

#[test]
fn long_override_without_value_is_an_error() {
    assert_eq!(parse_args(&words(&["--config"]), home()), Err(ArgError::MissingConfigValue));
}

#[test]
fn short_override_without_value_is_an_error() {
    assert_eq!(parse_args(&words(&["-c"]), home()), Err(ArgError::MissingConfigValue));
    assert_eq!(parse_args(&words(&["-c", "a", "-c"]), None), Err(ArgError::MissingConfigValue));
}

#[test]
fn no_argument_is_no_command() {
    assert_eq!(parse_args(&words(&[]), home()), Err(ArgError::NoCommand));
}

#[test]
fn overrides_alone_are_no_command() {
    assert_eq!(parse_args(&words(&["-c", "x"]), home()), Err(ArgError::NoCommand));
}

#[test]
fn other_words_are_unknown_commands() {
    assert_eq!(
        parse_args(&words(&["rmuser", "alice"]), home()),
        Err(ArgError::UnknownCommand("rmuser".to_string()))
    );
    assert_eq!(
        parse_args(&words(&["--verbose", "ps"]), home()),
        Err(ArgError::UnknownCommand("--verbose".to_string()))
    );
    assert_eq!(
        parse_args(&words(&["PS"]), home()),
        Err(ArgError::UnknownCommand("PS".to_string()))
    );
    assert_eq!(parse_args(&words(&[""]), home()), Err(ArgError::UnknownCommand(String::new())));
}

#[test]
fn adduser_without_name_is_an_error() {
    assert_eq!(parse_args(&words(&["adduser"]), home()), Err(ArgError::MissingUsername));
    assert_eq!(parse_args(&words(&["-c", "x", "adduser"]), home()), Err(ArgError::MissingUsername));
}

#[test]
fn extra_arguments_are_ignored() {
    assert_eq!(
        parse_args(&words(&["adduser", "alice", "bob", "--force"]), home()),
        adding("/home/op/.config/podmen.conf", "alice")
    );
    assert_eq!(
        parse_args(&words(&["ps", "now", "--", "-x"]), home()),
        listing("/home/op/.config/podmen.conf")
    );
}

#[test]
fn override_may_follow_the_command() {
    assert_eq!(parse_args(&words(&["ps", "-c", "late.conf"]), home()), listing("late.conf"));
    assert_eq!(
        parse_args(&words(&["adduser", "--config", "x", "bob"]), home()),
        adding("x", "bob")
    );
    assert_eq!(
        parse_args(&words(&["-c", "a", "adduser", "bob", "carol", "-c", "b"]), home()),
        adding("b", "bob")
    );
}

#[test]
fn override_without_value_after_the_command_is_an_error() {
    assert_eq!(parse_args(&words(&["ps", "--config"]), home()), Err(ArgError::MissingConfigValue));
    assert_eq!(
        parse_args(&words(&["adduser", "bob", "-c"]), home()),
        Err(ArgError::MissingConfigValue)
    );
}

#[test]
fn override_without_value_comes_before_other_errors() {
    assert_eq!(parse_args(&words(&["rmuser", "-c"]), home()), Err(ArgError::MissingConfigValue));
    assert_eq!(parse_args(&words(&["adduser", "-c"]), home()), Err(ArgError::MissingConfigValue));
}

#[test]
fn adduser_takes_the_next_word_whatever_it_is() {
    assert_eq!(
        parse_args(&words(&["adduser", "--system"]), home()),
        adding("/home/op/.config/podmen.conf", "--system")
    );
    assert_eq!(
        parse_args(&words(&["adduser", ""]), home()),
        adding("/home/op/.config/podmen.conf", "")
    );
}

#[test]
fn select_goes_by_the_first_words() {
    assert_eq!(select(&words(&["ps", "x"])), Ok(Operation::ListContainers));
    assert_eq!(
        select(&words(&["adduser", "bob", "x"])),
        Ok(Operation::AddUser { name: "bob".to_string() })
    );
    assert_eq!(select(&words(&[])), Err(ArgError::NoCommand));
    assert_eq!(select(&words(&["adduser"])), Err(ArgError::MissingUsername));
    assert_eq!(select(&words(&["up"])), Err(ArgError::UnknownCommand("up".to_string())));
}

#[test]
fn diagnostics_name_the_error() {
    assert_eq!(diagnostic(&ArgError::MissingConfigValue), "error: option --config requires a path");
    assert_eq!(diagnostic(&ArgError::NoCommand), "error: no command given");
    assert_eq!(
        diagnostic(&ArgError::UnknownCommand("rmuser".to_string())),
        "error: unknown command 'rmuser'"
    );
    assert_eq!(diagnostic(&ArgError::MissingUsername), "error: adduser requires a user name");
}

#[test]
fn usage_names_both_commands_and_the_option() {
    let lines = usage();
    assert_eq!(
        lines,
        vec![
            "Usage: podmen [-c|--config <PATH>] <COMMAND>",
            "",
            "Commands:",
            "  adduser <NAME>  Add a new user without login privileges and enable linger",
            "  ps              Show podman containers for all configured users",
            "",
            "Options:",
            "  -c, --config <PATH>  Specify config file path",
        ]
    );
}

#[test]
fn argument_error_prints_diagnostic_then_usage_and_exits_one() {
    let step = arg_error(&ArgError::NoCommand);
    assert_eq!(step.next, Next::Exit { status: 1 });
    assert_eq!(step.output.len(), 9);
    assert_eq!(
        step.output[0],
        Line { stream: Stream::Stderr, text: "error: no command given".to_string() }
    );
    let shown: Vec<String> = step.output[1..].iter().map(|line| line.text.clone()).collect();
    assert_eq!(shown, usage());
    assert!(step.output[1..].iter().all(|line| line.stream == Stream::Stdout));
}
