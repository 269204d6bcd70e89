//! Listing the running containers of every configured user.
//!
//! The users are taken one at a time, in the order of the configuration. A
//! user whose listing fails is reported and the next one is taken: the
//! operation always ends with status 0 once the configuration was loaded.

use vstd::prelude::*;
use crate::command::{podman_ps_command, podman_ps_command_spec};
use crate::config::{
    entries_of, get_users, names_of, Config, LoadError, LoadErrorView, UserEntry,
};
use crate::step::{
    err_line, lines_of, one_line, out_line, Line, LineView, Next, NextView, Outcome, OutcomeView,
    Pending, PendingView, Step, StepView, Stream,
};
use crate::text::{join2, join3, join4, texts_of};

verus! {

/// The last step after the configuration file at `path` gave `error`: the
/// diagnostics on the error stream, then status 1.
pub open spec fn load_failure_spec(path: Seq<char>, error: LoadErrorView) -> StepView {
    match error {
        LoadErrorView::Unreadable(reason) => StepView {
            output: seq![
                err_line("Config file not found: "@ + path),
                err_line("Error: "@ + reason),
            ],
            next: NextView::Exit { status: 1 },
        },
        LoadErrorView::Malformed(reason) => StepView {
            output: seq![err_line("Failed to parse config file: "@ + reason)],
            next: NextView::Exit { status: 1 },
        },
    }
}

/// The step that takes up the first of `names`: its header, then its
/// listing. With no name left it ends with status 0.
pub open spec fn list_containers_spec(names: Seq<Seq<char>>) -> StepView {
    if names.len() == 0 {
        StepView { output: Seq::empty(), next: NextView::Exit { status: 0 } }
    } else {
        StepView {
            output: seq![out_line("\n=== Containers for user: "@ + names[0] + " ==="@)],
            next: NextView::Run {
                command: podman_ps_command_spec(names[0]),
                pending: PendingView::ListContainers {
                    current: names[0],
                    remaining: names.skip(1),
                },
            },
        }
    }
}

/// What is reported when the listing for `user` ended with `outcome`.
pub open spec fn listing_report(user: Seq<char>, outcome: OutcomeView) -> Seq<LineView> {
    match outcome {
        OutcomeView::Succeeded => Seq::empty(),
        OutcomeView::Failed => seq![err_line("podman ps failed for user "@ + user)],
        OutcomeView::NotLaunched(reason) => seq![
            err_line("Failed to run podman ps for user "@ + user + ": "@ + reason),
        ],
    }
}

/// The step after the listing for `current` ended with `outcome`: the report
/// on it, if it failed, and then the first of `remaining`.
pub open spec fn containers_listed_spec(
    current: Seq<char>,
    remaining: Seq<Seq<char>>,
    outcome: OutcomeView,
) -> StepView {
    let following = list_containers_spec(remaining);
    StepView {
        output: listing_report(current, outcome) + following.output,
        next: following.next,
    }
}

/// The step after the configuration file at `path` was read and decoded:
/// `loaded` holds the names of its effective users, or why there are none.
pub open spec fn podman_ps_spec(
    path: Seq<char>,
    loaded: Result<Seq<Seq<char>>, LoadErrorView>,
) -> StepView {
    match loaded {
        Err(error) => load_failure_spec(path, error),
        Ok(names) => if names.len() == 0 {
            StepView {
                output: seq![out_line("No users found in config"@)],
                next: NextView::Exit { status: 0 },
            }
        } else {
            list_containers_spec(names)
        },
    }
}

/// Passes a loaded configuration on; for a failed load gives the step that
/// reports it, naming `config_path`, and ends the process with status 1.
pub fn load_config(config_path: &String, loaded: Result<Config, LoadError>) -> (result: Result<
    Config,
    Step,
>)
    ensures
        match loaded {
            Ok(config) => result == Ok::<Config, Step>(config),
            Err(error) => result is Err && result->Err_0@ == load_failure_spec(
                config_path@,
                error@,
            ),
        },
{
    match loaded {
        Ok(config) => Ok(config),
        Err(LoadError::Unreadable(reason)) => {
            let mut output: Vec<Line> = Vec::new();
            output.push(
                Line {
                    stream: Stream::Stderr,
                    text: join2("Config file not found: ", config_path.as_str()),
                },
            );
            output.push(Line { stream: Stream::Stderr, text: join2("Error: ", reason.as_str()) });
            let step = Step { output, next: Next::Exit { status: 1 } };
            assert(step@.output =~= load_failure_spec(
                config_path@,
                LoadErrorView::Unreadable(reason@),
            ).output);
            Err(step)
        },
        Err(LoadError::Malformed(reason)) => {
            let text = join2("Failed to parse config file: ", reason.as_str());
            Err(one_line(Stream::Stderr, text, Next::Exit { status: 1 }))
        },
    }
}

/// Takes up the first of `names`: prints its header and asks for its
/// listing. With no name left, ends with status 0.
pub fn list_containers(names: Vec<String>) -> (step: Step)
    ensures
        step@ == list_containers_spec(texts_of(names@)),
{
    let mut remaining = names;
    if remaining.len() == 0 {
        let step = Step { output: Vec::new(), next: Next::Exit { status: 0 } };
        assert(step@.output =~= Seq::empty());
        step
    } else {
        let current = remaining.remove(0);
        assert(texts_of(remaining@) =~= texts_of(names@).skip(1));
        let text = join3("\n=== Containers for user: ", current.as_str(), " ===");
        let command = podman_ps_command(&current);
        one_line(
            Stream::Stdout,
            text,
            Next::Run { command, pending: Pending::ListContainers { current, remaining } },
        )
    }
}

/// Goes on after the listing for `current` ended with `outcome`: reports a
/// failure on the error stream, then takes up the first of `remaining`.
pub fn containers_listed(current: String, remaining: Vec<String>, outcome: Outcome) -> (step: Step)
    ensures
        step@ == containers_listed_spec(current@, texts_of(remaining@), outcome@),
{
    let mut output: Vec<Line> = Vec::new();
    match outcome {
        Outcome::Succeeded => {},
        Outcome::Failed => {
            let text = join2("podman ps failed for user ", current.as_str());
            output.push(Line { stream: Stream::Stderr, text });
        },
        Outcome::NotLaunched(reason) => {
            let text = join4(
                "Failed to run podman ps for user ",
                current.as_str(),
                ": ",
                reason.as_str(),
            );
            output.push(Line { stream: Stream::Stderr, text });
        },
    }
    assert(lines_of(output@) =~= listing_report(current@, outcome@));
    let following = list_containers(remaining);
    let ghost report = output@;
    let mut rest = following.output;
    output.append(&mut rest);
    assert(lines_of(output@) =~= lines_of(report) + lines_of(following.output@));
    Step { output, next: following.next }
}

/// The owned names of `users`, one for one.
pub fn user_names(users: &Vec<&UserEntry>) -> (names: Vec<String>)
    ensures
        texts_of(names@) == names_of(entries_of(users@)),
{
    let mut names: Vec<String> = Vec::new();
    let mut i: usize = 0;
    while i < users.len()
        invariant
            i <= users.len(),
            texts_of(names@) == names_of(entries_of(users@.take(i as int))),
        decreases users.len() - i,
    {
        let ghost before = names@;
        names.push(users[i].name.clone());
        assert(texts_of(names@) =~= texts_of(before).push(users@[i as int].name@));
        assert(names_of(entries_of(users@.take(i + 1))) =~= names_of(
            entries_of(users@.take(i as int)),
        ).push(users@[i as int].name@));
        i = i + 1;
    }
    assert(users@.take(i as int) == users@);
    names
}

/// Lists the containers of every effective user of the configuration that
/// was loaded from `config_path`, or reports why none was loaded.
///
/// A failed load ends with status 1. A configuration without users prints a
/// notice and ends with status 0.
pub fn podman_ps(config_path: String, loaded: Result<Config, LoadError>) -> (step: Step)
    ensures
        step@ == podman_ps_spec(
            config_path@,
            match loaded {
                Ok(config) => Ok(names_of(config.effective_users())),
                Err(error) => Err(error@),
            },
        ),
{
    match load_config(&config_path, loaded) {
        Err(step) => step,
        Ok(config) => {
            let users = get_users(&config);
            if users.len() == 0 {
                one_line(
                    Stream::Stdout,
                    String::from_str("No users found in config"),
                    Next::Exit { status: 0 },
                )
            } else {
                list_containers(user_names(&users))
            }
        },
    }
}

} // verus!
