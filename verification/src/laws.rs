//! What holds of the tool whatever its input: the effective users of a
//! configuration, the command line, and whole runs of both operations.

use vstd::prelude::*;
use crate::adduser::add_user_spec;
use crate::cli::{
    arg_error_spec, is_config_flag, parse_spec, scan_spec, ArgErrorView, InvocationView, Scanned,
};
use crate::command::{enable_linger_command_spec, podman_ps_command_spec, useradd_command_spec};
use crate::config::{name_is_new, names_of, Config, LoadErrorView};
use crate::ps::{
    containers_listed_spec, list_containers_spec, listing_report, podman_ps_spec,
};
use crate::run::{replay_spec, resume_spec, start_spec, TraceView};
use crate::step::{
    err_line, out_line, CommandView, LineView, NextView, OutcomeView, PendingView, StepView,
    Stream,
};

verus! {

/// A configuration with only a `users` list has exactly that list as its
/// effective users, in document order.
pub proof fn users_alone_are_effective(config: Config)
    requires
        config.user is None,
        config.users is Some,
    ensures
        config.effective_users() == config.users.unwrap()@,
{
    assert(config.effective_users() =~= config.users.unwrap()@);
}

/// A configuration with both `user` and `users` has the single entry first
/// and the list after it.
pub proof fn single_user_comes_first(config: Config)
    requires
        config.user is Some,
        config.users is Some,
    ensures
        config.effective_users() == seq![config.user.unwrap()] + config.users.unwrap()@,
{
}

/// A configuration with neither field has no effective user, and listing
/// containers for it prints a notice and ends with status 0.
pub proof fn no_field_means_no_user(config: Config, path: Seq<char>)
    requires
        config.user is None,
        config.users is None,
    ensures
        config.effective_users().len() == 0,
        podman_ps_spec(path, Ok(names_of(config.effective_users()))) == (StepView {
            output: seq![out_line("No users found in config"@)],
            next: NextView::Exit { status: 0 },
        }),
{
}

/// A command line that ends in `-c` or `--config` is an error, whatever
/// stands before the flag: no path follows it, the tool reports that and
/// ends with status 1 before it reads or runs anything.
pub proof fn override_without_path_is_an_error(
    args: Seq<Seq<char>>,
    flag: Seq<char>,
    home: Option<Seq<char>>,
)
    requires
        is_config_flag(flag),
    ensures
        parse_spec(args.push(flag), home) == Err::<InvocationView, _>(
            ArgErrorView::MissingConfigValue,
        ),
        start_spec(args.push(flag), home) == arg_error_spec(ArgErrorView::MissingConfigValue),
        start_spec(args.push(flag), home).next == (NextView::Exit { status: 1 }),
{
    dangling_flag(args, flag);
}

/// A flag in the last place has no path, and cannot be one.
proof fn dangling_flag(args: Seq<Seq<char>>, flag: Seq<char>)
    requires
        is_config_flag(flag),
    ensures
        scan_spec(args.push(flag)) is None,
    decreases args.len(),
{
    let extended = args.push(flag);
    if args.len() == 0 {
        assert(extended[0] == flag);
    } else if is_config_flag(args[0]) {
        assert(extended[0] == args[0]);
        if args.len() == 1 {
            assert(extended[1] == flag);
        } else {
            assert(extended[1] == args[1]);
            assert(extended.skip(2) =~= args.skip(2).push(flag));
            dangling_flag(args.skip(2), flag);
        }
    } else {
        assert(extended[0] == args[0]);
        assert(extended.skip(1) =~= args.skip(1).push(flag));
        dangling_flag(args.skip(1), flag);
    }
}

/// A flag is never taken as a path: two of `-c` and `--config` in a row are
/// an error wherever they stand and whatever stands around them.
pub proof fn flag_is_never_a_path(
    before: Seq<Seq<char>>,
    first: Seq<char>,
    second: Seq<char>,
    after: Seq<Seq<char>>,
    home: Option<Seq<char>>,
)
    requires
        is_config_flag(first),
        is_config_flag(second),
    ensures
        parse_spec(before + seq![first, second] + after, home) == Err::<InvocationView, _>(
            ArgErrorView::MissingConfigValue,
        ),
        start_spec(before + seq![first, second] + after, home).next == (NextView::Exit {
            status: 1,
        }),
{
    two_flags_in_a_row(before, first, second, after);
}

/// Two flags in a row leave no result.
proof fn two_flags_in_a_row(
    before: Seq<Seq<char>>,
    first: Seq<char>,
    second: Seq<char>,
    after: Seq<Seq<char>>,
)
    requires
        is_config_flag(first),
        is_config_flag(second),
    ensures
        scan_spec(before + seq![first, second] + after) is None,
    decreases before.len(),
{
    let whole = before + seq![first, second] + after;
    if before.len() == 0 {
        assert(whole[0] == first);
        assert(whole[1] == second);
    } else if is_config_flag(before[0]) {
        assert(whole[0] == before[0]);
        if before.len() == 1 {
            assert(whole[1] == first);
        } else {
            assert(whole[1] == before[1]);
            assert(whole.skip(2) =~= before.skip(2) + seq![first, second] + after);
            two_flags_in_a_row(before.skip(2), first, second, after);
        }
    } else {
        assert(whole[0] == before[0]);
        assert(whole.skip(1) =~= before.skip(1) + seq![first, second] + after);
        two_flags_in_a_row(before.skip(1), first, second, after);
    }
}

/// An override may stand anywhere and the last one counts: one added after
/// a command line decides the configuration file and changes nothing else.
/// (The command line before it is complete in itself, and the path is no
/// override flag.)
pub proof fn last_override_counts(
    args: Seq<Seq<char>>,
    flag: Seq<char>,
    path: Seq<char>,
    home: Option<Seq<char>>,
)
    requires
        scan_spec(args) is Some,
        is_config_flag(flag),
        !is_config_flag(path),
    ensures
        parse_spec(args + seq![flag, path], home) == match parse_spec(args, home) {
            Ok(invocation) => Ok(
                InvocationView { config_path: path, operation: invocation.operation },
            ),
            Err(error) => Err(error),
        },
{
    override_at_the_end(args, flag, path);
}

/// An override after a complete command line replaces the one read before
/// and leaves the other arguments as they are.
proof fn override_at_the_end(args: Seq<Seq<char>>, flag: Seq<char>, path: Seq<char>)
    requires
        scan_spec(args) is Some,
        is_config_flag(flag),
        !is_config_flag(path),
    ensures
        scan_spec(args + seq![flag, path]) == Some(
            Scanned { config: Some(path), words: scan_spec(args).unwrap().words },
        ),
    decreases args.len(),
{
    let extended = args + seq![flag, path];
    if args.len() == 0 {
        assert(extended[0] == flag);
        assert(extended[1] == path);
        assert(extended.skip(2) =~= Seq::empty());
    } else if is_config_flag(args[0]) {
        assert(extended[0] == args[0]);
        assert(extended[1] == args[1]);
        assert(extended.skip(2) =~= args.skip(2) + seq![flag, path]);
        override_at_the_end(args.skip(2), flag, path);
    } else {
        assert(extended[0] == args[0]);
        assert(extended.skip(1) =~= args.skip(1) + seq![flag, path]);
        override_at_the_end(args.skip(1), flag, path);
    }
}

/// What follows a complete command is ignored: arguments that are no
/// override flags, added after a command line that selects an operation,
/// change nothing.
pub proof fn extra_arguments_are_ignored(
    args: Seq<Seq<char>>,
    extra: Seq<Seq<char>>,
    home: Option<Seq<char>>,
)
    requires
        parse_spec(args, home) is Ok,
        forall|i: int| 0 <= i < extra.len() ==> !is_config_flag(#[trigger] extra[i]),
    ensures
        parse_spec(args + extra, home) == parse_spec(args, home),
        start_spec(args + extra, home) == start_spec(args, home),
{
    words_at_the_end(args, extra);
    let words = scan_spec(args).unwrap().words;
    assert((words + extra)[0] == words[0]);
    if words[0] == "adduser"@ {
        assert((words + extra)[1] == words[1]);
    }
}

/// Arguments that are no override flags, added after a complete command
/// line, are added to its other arguments.
proof fn words_at_the_end(args: Seq<Seq<char>>, extra: Seq<Seq<char>>)
    requires
        scan_spec(args) is Some,
        forall|i: int| 0 <= i < extra.len() ==> !is_config_flag(#[trigger] extra[i]),
    ensures
        scan_spec(args + extra) == Some(
            Scanned {
                config: scan_spec(args).unwrap().config,
                words: scan_spec(args).unwrap().words + extra,
            },
        ),
    decreases args.len() + extra.len(),
{
    let extended = args + extra;
    if args.len() == 0 {
        assert(extended =~= extra);
        if extra.len() > 0 {
            assert(!is_config_flag(extra[0]));
            assert(Seq::<Seq<char>>::empty() + extra.skip(1) =~= extra.skip(1));
            words_at_the_end(Seq::empty(), extra.skip(1));
            assert(seq![extra[0]] + extra.skip(1) =~= extra);
        }
        assert(scan_spec(extra).unwrap().words =~= Seq::<Seq<char>>::empty() + extra);
    } else if is_config_flag(args[0]) {
        assert(extended[0] == args[0]);
        assert(extended[1] == args[1]);
        assert(extended.skip(2) =~= args.skip(2) + extra);
        words_at_the_end(args.skip(2), extra);
    } else {
        assert(extended[0] == args[0]);
        assert(extended.skip(1) =~= args.skip(1) + extra);
        words_at_the_end(args.skip(1), extra);
        let rest = scan_spec(args.skip(1)).unwrap().words;
        assert(seq![args[0]] + (rest + extra) =~= (seq![args[0]] + rest) + extra);
    }
}

/// Every argument error ends with status 1 at the first step: the
/// diagnostic and the usage message are printed, and nothing is read or run.
pub proof fn argument_errors_end_at_once(
    args: Seq<Seq<char>>,
    home: Option<Seq<char>>,
    outcomes: Seq<OutcomeView>,
)
    requires
        parse_spec(args, home) is Err,
    ensures
        start_spec(args, home) == arg_error_spec(parse_spec(args, home)->Err_0),
        replay_spec(start_spec(args, home), outcomes).commands == Seq::<CommandView>::empty(),
        replay_spec(start_spec(args, home), outcomes).end == (NextView::Exit { status: 1 }),
{
}

/// When the account creation does not succeed, adding a user ends with
/// status 1 and the command that enables linger is never run: the account
/// creation is the only command of the run.
pub proof fn failed_creation_ends_the_run(name: Seq<char>, outcomes: Seq<OutcomeView>)
    requires
        outcomes.len() > 0,
        outcomes[0] != OutcomeView::Succeeded,
    ensures
        replay_spec(add_user_spec(name), outcomes).commands == seq![useradd_command_spec(name)],
        replay_spec(add_user_spec(name), outcomes).end == (NextView::Exit { status: 1 }),
{
    let after = resume_spec(PendingView::CreateUser { name }, outcomes[0]);
    assert(replay_spec(after, outcomes.skip(1)).commands =~= Seq::empty());
    assert(replay_spec(add_user_spec(name), outcomes).commands =~= seq![
        useradd_command_spec(name),
    ]);
}

/// When both commands succeed, adding a user runs the account creation and
/// then the enabling of linger, prints the announcement of each and the
/// confirmation that names the user, in this order, and ends with status 0.
pub proof fn both_steps_succeed(name: Seq<char>, outcomes: Seq<OutcomeView>)
    requires
        outcomes.len() >= 2,
        outcomes[0] == OutcomeView::Succeeded,
        outcomes[1] == OutcomeView::Succeeded,
    ensures
        replay_spec(add_user_spec(name), outcomes) == (TraceView {
            output: seq![
                out_line("Adding user: "@ + name),
                out_line("Enabling linger for user: "@ + name),
                out_line("User "@ + name + " added successfully"@),
            ],
            commands: seq![useradd_command_spec(name), enable_linger_command_spec(name)],
            end: NextView::Exit { status: 0 },
        }),
{
    let first = add_user_spec(name);
    let second = resume_spec(PendingView::CreateUser { name }, outcomes[0]);
    let third = resume_spec(PendingView::EnableLinger { name }, outcomes[1]);
    let rest = outcomes.skip(1);
    assert(rest[0] == outcomes[1]);
    let last = replay_spec(third, rest.skip(1));
    assert(last.output =~= third.output);
    let middle = replay_spec(second, rest);
    assert(middle.output =~= second.output + last.output);
    assert(middle.commands =~= seq![enable_linger_command_spec(name)]);
    let whole = replay_spec(first, outcomes);
    assert(whole.output =~= first.output + middle.output);
    assert(whole.commands =~= seq![useradd_command_spec(name), enable_linger_command_spec(name)]);
    assert(whole.output =~= seq![
        out_line("Adding user: "@ + name),
        out_line("Enabling linger for user: "@ + name),
        out_line("User "@ + name + " added successfully"@),
    ]);
}

/// When the account was created and linger cannot be enabled, adding a user
/// ends with status 1 and nothing is undone: no command follows the two.
pub proof fn failed_linger_keeps_the_account(name: Seq<char>, outcomes: Seq<OutcomeView>)
    requires
        outcomes.len() >= 2,
        outcomes[0] == OutcomeView::Succeeded,
        outcomes[1] != OutcomeView::Succeeded,
    ensures
        replay_spec(add_user_spec(name), outcomes).commands == seq![
            useradd_command_spec(name),
            enable_linger_command_spec(name),
        ],
        replay_spec(add_user_spec(name), outcomes).end == (NextView::Exit { status: 1 }),
{
    let first = add_user_spec(name);
    let second = resume_spec(PendingView::CreateUser { name }, outcomes[0]);
    let third = resume_spec(PendingView::EnableLinger { name }, outcomes[1]);
    let rest = outcomes.skip(1);
    assert(rest[0] == outcomes[1]);
    let middle = replay_spec(second, rest);
    assert(replay_spec(third, rest.skip(1)).commands =~= Seq::empty());
    assert(middle.commands =~= seq![enable_linger_command_spec(name)]);
    assert(replay_spec(first, outcomes).commands =~= seq![
        useradd_command_spec(name),
        enable_linger_command_spec(name),
    ]);
}

/// A configuration file that cannot be read ends the listing with status 1:
/// the error stream names the path and the I/O error, and nothing is run.
pub proof fn unreadable_config_is_fatal(
    path: Seq<char>,
    reason: Seq<char>,
    outcomes: Seq<OutcomeView>,
)
    ensures
        replay_spec(
            podman_ps_spec(path, Err(LoadErrorView::Unreadable(reason))),
            outcomes,
        ) == (TraceView {
            output: seq![
                err_line("Config file not found: "@ + path),
                err_line("Error: "@ + reason),
            ],
            commands: Seq::empty(),
            end: NextView::Exit { status: 1 },
        }),
{
}

/// A configuration file that does not decode ends the listing with status
/// 1: the error stream holds the parse error, and nothing is run.
pub proof fn malformed_config_is_fatal(
    path: Seq<char>,
    reason: Seq<char>,
    outcomes: Seq<OutcomeView>,
)
    ensures
        replay_spec(
            podman_ps_spec(path, Err(LoadErrorView::Malformed(reason))),
            outcomes,
        ) == (TraceView {
            output: seq![err_line("Failed to parse config file: "@ + reason)],
            commands: Seq::empty(),
            end: NextView::Exit { status: 1 },
        }),
{
}

/// What listing the containers of `names` prints when the listings end as
/// `outcomes` say: for each user in order the header, then the report on a
/// failed listing.
pub open spec fn listing_transcript(names: Seq<Seq<char>>, outcomes: Seq<OutcomeView>) -> Seq<
    LineView,
>
    decreases names.len(),
{
    if names.len() == 0 {
        Seq::empty()
    } else {
        seq![out_line("\n=== Containers for user: "@ + names[0] + " ==="@)] + listing_report(
            names[0],
            outcomes[0],
        ) + listing_transcript(names.skip(1), outcomes.skip(1))
    }
}

/// The listing command of each of `names`, one for one.
pub open spec fn listing_commands(names: Seq<Seq<char>>) -> Seq<CommandView> {
    names.map_values(|name: Seq<char>| podman_ps_command_spec(name))
}

/// Lines printed ahead of a step come ahead of the run from it and change
/// nothing else.
pub proof fn replay_after_lines(lines: Seq<LineView>, step: StepView, outcomes: Seq<OutcomeView>)
    ensures
        replay_spec(StepView { output: lines + step.output, next: step.next }, outcomes) == (
        TraceView {
            output: lines + replay_spec(step, outcomes).output,
            commands: replay_spec(step, outcomes).commands,
            end: replay_spec(step, outcomes).end,
        }),
{
    let with_lines = StepView { output: lines + step.output, next: step.next };
    assert(replay_spec(with_lines, outcomes).output =~= lines + replay_spec(
        step,
        outcomes,
    ).output);
}

/// Listing containers serves every user, in the order given, whatever
/// happens to the listings: one command per user is run, a failed one is
/// reported and does not stop the rest, and the run ends with status 0.
pub proof fn listing_serves_every_user(names: Seq<Seq<char>>, outcomes: Seq<OutcomeView>)
    requires
        outcomes.len() >= names.len(),
    ensures
        replay_spec(list_containers_spec(names), outcomes) == (TraceView {
            output: listing_transcript(names, outcomes),
            commands: listing_commands(names),
            end: NextView::Exit { status: 0 },
        }),
    decreases names.len(),
{
    let trace = replay_spec(list_containers_spec(names), outcomes);
    if names.len() == 0 {
        assert(trace.commands =~= listing_commands(names));
        assert(trace.output =~= listing_transcript(names, outcomes));
    } else {
        let header = seq![out_line("\n=== Containers for user: "@ + names[0] + " ==="@)];
        let report = listing_report(names[0], outcomes[0]);
        let following = list_containers_spec(names.skip(1));
        let after = containers_listed_spec(names[0], names.skip(1), outcomes[0]);
        listing_serves_every_user(names.skip(1), outcomes.skip(1));
        replay_after_lines(report, following, outcomes.skip(1));
        let rest = replay_spec(after, outcomes.skip(1));
        assert(trace.output =~= header + rest.output);
        assert(trace.output =~= listing_transcript(names, outcomes));
        assert(trace.commands =~= seq![podman_ps_command_spec(names[0])] + listing_commands(
            names.skip(1),
        ));
        assert(trace.commands =~= listing_commands(names));
    }
}

/// Once the configuration is loaded, listing containers ends with status 0
/// whatever it holds and whatever happens to the listings, after one
/// command for each effective user, in their order.
pub proof fn loaded_listing_ends_with_success(
    path: Seq<char>,
    names: Seq<Seq<char>>,
    outcomes: Seq<OutcomeView>,
)
    requires
        outcomes.len() >= names.len(),
    ensures
        replay_spec(podman_ps_spec(path, Ok(names)), outcomes).commands == listing_commands(names),
        replay_spec(podman_ps_spec(path, Ok(names)), outcomes).end == (NextView::Exit {
            status: 0,
        }),
{
    if names.len() == 0 {
        assert(listing_commands(names) =~= Seq::empty());
    } else {
        listing_serves_every_user(names, outcomes);
    }
}

/// In a well-formed configuration no user is served twice: the listing
/// commands for two places of the effective users differ.
pub proof fn well_formed_users_are_listed_once(config: Config, i: int, j: int)
    requires
        config.well_formed(),
        0 <= i < j < config.effective_users().len(),
    ensures
        listing_commands(names_of(config.effective_users()))[i] != listing_commands(
            names_of(config.effective_users()),
        )[j],
{
    let entries = config.effective_users();
    assert(name_is_new(entries, j));
    assert(entries[i].name@ != entries[j].name@);
    let first = podman_ps_command_spec(entries[i].name@);
    let second = podman_ps_command_spec(entries[j].name@);
    assert(first.args[1] == entries[i].name@);
    assert(second.args[1] == entries[j].name@);
}

/// Whether `step` begins with a line on the error stream.
pub open spec fn begins_with_diagnostic(step: StepView) -> bool {
    step.output.len() > 0 && step.output[0].stream == Stream::Stderr
}

/// Whether `step` ends the process with a status other than 0.
pub open spec fn ends_in_failure(step: StepView) -> bool {
    step.next matches NextView::Exit { status } && status != 0
}

/// No failure is passed over in silence: an argument error, a command that
/// did not succeed and a configuration that did not load each give a step
/// that begins with a line on the error stream.
pub proof fn failures_are_reported(
    args: Seq<Seq<char>>,
    home: Option<Seq<char>>,
    pending: PendingView,
    outcome: OutcomeView,
    path: Seq<char>,
    error: LoadErrorView,
)
    ensures
        parse_spec(args, home) is Err ==> begins_with_diagnostic(start_spec(args, home)),
        outcome != OutcomeView::Succeeded ==> begins_with_diagnostic(resume_spec(pending, outcome)),
        begins_with_diagnostic(podman_ps_spec(path, Err(error))),
{
}

/// The process ends with a status other than 0 only after a diagnostic: a
/// step that ends it so begins with a line on the error stream.
pub proof fn failure_status_follows_a_diagnostic(
    args: Seq<Seq<char>>,
    home: Option<Seq<char>>,
    pending: PendingView,
    outcome: OutcomeView,
    path: Seq<char>,
    loaded: Result<Seq<Seq<char>>, LoadErrorView>,
)
    ensures
        ends_in_failure(start_spec(args, home)) ==> begins_with_diagnostic(start_spec(args, home)),
        ends_in_failure(resume_spec(pending, outcome)) ==> begins_with_diagnostic(
            resume_spec(pending, outcome),
        ),
        ends_in_failure(podman_ps_spec(path, loaded)) ==> begins_with_diagnostic(
            podman_ps_spec(path, loaded),
        ),
{
}

} // verus!
