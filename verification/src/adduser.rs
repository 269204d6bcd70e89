//! Adding a user: create the account, then enable linger for it.
//!
//! The two commands run in that order and the first failure ends the
//! sequence with status 1. Nothing is undone: when enabling linger fails the
//! account stays.

use vstd::prelude::*;
use crate::command::{
    enable_linger_command, enable_linger_command_spec, useradd_command, useradd_command_spec,
};
use crate::step::{
    err_line, one_line, out_line, Next, NextView, Outcome, OutcomeView, Pending, PendingView,
    Step, StepView, Stream,
};
use crate::text::{join2, join3};

verus! {

/// The first step: announce the user and create the account.
pub open spec fn add_user_spec(name: Seq<char>) -> StepView {
    StepView {
        output: seq![out_line("Adding user: "@ + name)],
        next: NextView::Run {
            command: useradd_command_spec(name),
            pending: PendingView::CreateUser { name },
        },
    }
}

/// The step after the account creation ended with `outcome`.
pub open spec fn user_created_spec(name: Seq<char>, outcome: OutcomeView) -> StepView {
    match outcome {
        OutcomeView::Succeeded => StepView {
            output: seq![out_line("Enabling linger for user: "@ + name)],
            next: NextView::Run {
                command: enable_linger_command_spec(name),
                pending: PendingView::EnableLinger { name },
            },
        },
        OutcomeView::Failed => StepView {
            output: seq![err_line("Failed to add user "@ + name)],
            next: NextView::Exit { status: 1 },
        },
        OutcomeView::NotLaunched(reason) => StepView {
            output: seq![err_line("Failed to execute useradd: "@ + reason)],
            next: NextView::Exit { status: 1 },
        },
    }
}

/// The step after enabling linger ended with `outcome`.
pub open spec fn linger_enabled_spec(name: Seq<char>, outcome: OutcomeView) -> StepView {
    match outcome {
        OutcomeView::Succeeded => StepView {
            output: seq![out_line("User "@ + name + " added successfully"@)],
            next: NextView::Exit { status: 0 },
        },
        OutcomeView::Failed => StepView {
            output: seq![err_line("Failed to enable linger for user "@ + name)],
            next: NextView::Exit { status: 1 },
        },
        OutcomeView::NotLaunched(reason) => StepView {
            output: seq![err_line("Failed to execute loginctl: "@ + reason)],
            next: NextView::Exit { status: 1 },
        },
    }
}

/// Starts adding `username`: announces it and asks for the account to be
/// created.
pub fn add_user(username: String) -> (step: Step)
    ensures
        step@ == add_user_spec(username@),
{
    let text = join2("Adding user: ", username.as_str());
    let command = useradd_command(&username);
    one_line(
        Stream::Stdout,
        text,
        Next::Run { command, pending: Pending::CreateUser { name: username } },
    )
}

/// Goes on after the account creation for `name` ended with `outcome`:
/// enables linger if it succeeded, else reports the failure and ends with
/// status 1.
pub fn user_created(name: String, outcome: Outcome) -> (step: Step)
    ensures
        step@ == user_created_spec(name@, outcome@),
{
    match outcome {
        Outcome::Succeeded => {
            let text = join2("Enabling linger for user: ", name.as_str());
            let command = enable_linger_command(&name);
            one_line(
                Stream::Stdout,
                text,
                Next::Run { command, pending: Pending::EnableLinger { name } },
            )
        },
        Outcome::Failed => {
            let text = join2("Failed to add user ", name.as_str());
            one_line(Stream::Stderr, text, Next::Exit { status: 1 })
        },
        Outcome::NotLaunched(reason) => {
            let text = join2("Failed to execute useradd: ", reason.as_str());
            one_line(Stream::Stderr, text, Next::Exit { status: 1 })
        },
    }
}

/// Ends the sequence after enabling linger for `name` ended with `outcome`:
/// confirms the user and ends with status 0 if it succeeded, else reports the
/// failure and ends with status 1.
pub fn linger_enabled(name: String, outcome: Outcome) -> (step: Step)
    ensures
        step@ == linger_enabled_spec(name@, outcome@),
{
    match outcome {
        Outcome::Succeeded => {
            let text = join3("User ", name.as_str(), " added successfully");
            one_line(Stream::Stdout, text, Next::Exit { status: 0 })
        },
        Outcome::Failed => {
            let text = join2("Failed to enable linger for user ", name.as_str());
            one_line(Stream::Stderr, text, Next::Exit { status: 1 })
        },
        Outcome::NotLaunched(reason) => {
            let text = join2("Failed to execute loginctl: ", reason.as_str());
            one_line(Stream::Stderr, text, Next::Exit { status: 1 })
        },
    }
}

} // verus!
