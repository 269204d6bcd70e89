//! The whole tool as a sequence of steps.
//!
//! [`start`] turns the command line into the first step. After a
//! [`Next::Run`] the driver calls [`resume`] with how the command ended;
//! after a [`Next::Load`] it calls [`crate::ps::podman_ps`] with what the
//! file gave; a [`Next::Exit`] ends the process. [`replay`] drives the steps
//! from a script of outcomes instead of real commands.

use vstd::prelude::*;
use crate::adduser::{
    add_user, add_user_spec, linger_enabled, linger_enabled_spec, user_created, user_created_spec,
};
use crate::cli::{arg_error, arg_error_spec, parse_args, parse_spec, Operation, OperationView};
use crate::ps::{containers_listed, containers_listed_spec};
use crate::step::{
    lines_of, CommandView, ExternalCommand, Line, LineView, Next, NextView, Outcome, OutcomeView,
    Pending, PendingView, Step, StepView,
};
use crate::text::{text_of, texts_of};

verus! {

/// The first step of an invocation with the arguments `args` (without the
/// program's name) by a user whose home directory is `home`.
pub open spec fn start_spec(args: Seq<Seq<char>>, home: Option<Seq<char>>) -> StepView {
    match parse_spec(args, home) {
        Err(error) => arg_error_spec(error),
        Ok(invocation) => match invocation.operation {
            OperationView::AddUser { name } => add_user_spec(name),
            OperationView::ListContainers => StepView {
                output: Seq::empty(),
                next: NextView::Load { path: invocation.config_path },
            },
        },
    }
}

/// The step after the command that `pending` waited for ended with `outcome`.
pub open spec fn resume_spec(pending: PendingView, outcome: OutcomeView) -> StepView {
    match pending {
        PendingView::CreateUser { name } => user_created_spec(name, outcome),
        PendingView::EnableLinger { name } => linger_enabled_spec(name, outcome),
        PendingView::ListContainers { current, remaining } => containers_listed_spec(
            current,
            remaining,
            outcome,
        ),
    }
}

/// Decides the first step from the arguments of the process, without the
/// program's name, and the home directory of the invoking user as far as
/// it is known.
///
/// An argument error is reported and ends with status 1 before anything is
/// read or run. `adduser` starts with the account creation, `ps` with the
/// loading of the configuration.
pub fn start(args: &Vec<String>, home: Option<String>) -> (step: Step)
    ensures
        step@ == start_spec(texts_of(args@), text_of(home)),
{
    match parse_args(args, home) {
        Err(error) => arg_error(&error),
        Ok(invocation) => match invocation.operation {
            Operation::AddUser { name } => add_user(name),
            Operation::ListContainers => {
                let step = Step {
                    output: Vec::new(),
                    next: Next::Load { path: invocation.config_path },
                };
                assert(step@.output =~= Seq::empty());
                step
            },
        },
    }
}

/// Decides the step after the command that `pending` waited for ended with
/// `outcome`.
pub fn resume(pending: Pending, outcome: Outcome) -> (step: Step)
    ensures
        step@ == resume_spec(pending@, outcome@),
{
    match pending {
        Pending::CreateUser { name } => user_created(name, outcome),
        Pending::EnableLinger { name } => linger_enabled(name, outcome),
        Pending::ListContainers { current, remaining } => containers_listed(
            current,
            remaining,
            outcome,
        ),
    }
}

/// What a run printed and ran, and where it stopped.
#[derive(Debug, Clone, PartialEq, Eq)]
pub struct Trace {
    /// Every line printed, in order.
    pub output: Vec<Line>,
    /// Every command that was run, in order.
    pub commands: Vec<ExternalCommand>,
    /// What was asked for last and not done: the exit, the loading of the
    /// configuration, or a command for which no outcome was left.
    pub end: Next,
}

/// A [`Trace`] as contracts see it.
pub struct TraceView {
    pub output: Seq<LineView>,
    pub commands: Seq<CommandView>,
    pub end: NextView,
}

/// The views of a sequence of commands, one for one.
pub open spec fn commands_of(commands: Seq<ExternalCommand>) -> Seq<CommandView> {
    commands.map_values(|c: ExternalCommand| c@)
}

/// The views of a sequence of outcomes, one for one.
pub open spec fn outcomes_of(outcomes: Seq<Outcome>) -> Seq<OutcomeView> {
    outcomes.map_values(|o: Outcome| o@)
}

impl View for Trace {
    type V = TraceView;

    open spec fn view(&self) -> TraceView {
        TraceView {
            output: lines_of(self.output@),
            commands: commands_of(self.commands@),
            end: self.end@,
        }
    }
}

/// The run that stops at `step`: its lines are printed and nothing it asks
/// for is done.
pub open spec fn stopped_at(step: StepView) -> TraceView {
    TraceView { output: step.output, commands: Seq::empty(), end: step.next }
}

/// The run that begins with `step` when the commands end as `outcomes`
/// say, the first command with the first outcome.
pub open spec fn replay_spec(step: StepView, outcomes: Seq<OutcomeView>) -> TraceView
    decreases outcomes.len(),
{
    match step.next {
        NextView::Run { command, pending } => if outcomes.len() > 0 {
            let rest = replay_spec(resume_spec(pending, outcomes[0]), outcomes.skip(1));
            TraceView {
                output: step.output + rest.output,
                commands: seq![command] + rest.commands,
                end: rest.end,
            }
        } else {
            stopped_at(step)
        },
        _ => stopped_at(step),
    }
}

/// Runs the steps from `step` on without starting anything: each command
/// asked for is recorded and taken to end as the next of `outcomes` says.
/// The run stops at an exit, at the loading of the configuration, or at a
/// command for which no outcome is left.
pub fn replay(step: Step, outcomes: Vec<Outcome>) -> (trace: Trace)
    ensures
        trace@ == replay_spec(step@, outcomes_of(outcomes@)),
{
    let ghost goal = replay_spec(step@, outcomes_of(outcomes@));
    let mut output: Vec<Line> = Vec::new();
    let mut commands: Vec<ExternalCommand> = Vec::new();
    let mut script = outcomes;
    let mut current = step;
    loop
        invariant
            goal.output == lines_of(output@) + replay_spec(current@, outcomes_of(script@)).output,
            goal.commands == commands_of(commands@) + replay_spec(
                current@,
                outcomes_of(script@),
            ).commands,
            goal.end == replay_spec(current@, outcomes_of(script@)).end,
        ensures
            lines_of(output@) == goal.output,
            commands_of(commands@) == goal.commands,
            current.next@ == goal.end,
        decreases script@.len(),
    {
        let ghost ahead = replay_spec(current@, outcomes_of(script@));
        let ghost shown = lines_of(output@);
        let ghost now = lines_of(current.output@);
        output.append(&mut current.output);
        assert(lines_of(output@) =~= shown + now);
        match current.next {
            Next::Run { command, pending } => {
                if script.len() == 0 {
                    current.next = Next::Run { command, pending };
                    assert(goal.output =~= lines_of(output@));
                    assert(goal.commands =~= commands_of(commands@));
                    break ;
                }
                let ghost before = outcomes_of(script@);
                let ghost ran = commands_of(commands@);
                let outcome = script.remove(0);
                assert(outcomes_of(script@) =~= before.skip(1));
                assert(before[0] == outcome@);
                commands.push(command);
                assert(commands_of(commands@) =~= ran + seq![command@]);
                current = resume(pending, outcome);
                let ghost rest = replay_spec(current@, outcomes_of(script@));
                assert(ahead.output == now + rest.output);
                assert(ahead.commands == seq![command@] + rest.commands);
                assert(goal.output =~= lines_of(output@) + rest.output);
                assert(goal.commands =~= commands_of(commands@) + rest.commands);
            },
            other => {
                current.next = other;
                assert(goal.output =~= lines_of(output@));
                assert(goal.commands =~= commands_of(commands@));
                break ;
            },
        }
    }
    Trace { output, commands, end: current.next }
}

} // verus!
