//! The command line: a command, and overrides of the configuration file.
//!
//! ```text
//! podmen [OPTIONS] adduser <NAME>
//! podmen [OPTIONS] ps
//!
//! OPTIONS: -c <PATH> | --config <PATH>
//! ```
//!
//! An override may stand anywhere, and the last one counts. The argument
//! after `-c` or `--config` is its path. Where nothing follows, or `-c` or
//! `--config` again, the path is missing: that is an error whatever else the
//! command line holds, so a command line that ends in `-c` or `--config` is
//! never accepted. Of the other arguments the first names the command and
//! the second, for `adduser`, the user; what follows them is ignored.

use vstd::prelude::*;
use crate::path::{config_path_spec, get_config_path};
use crate::step::{err_line, out_line, Line, Next, NextView, Step, StepView, Stream};
use crate::text::{join3, text_of, texts_of};

verus! {

/// The operation a command line selects.
#[derive(Debug, Clone, PartialEq, Eq)]
pub enum Operation {
    /// Create the account `name` and enable linger for it.
    AddUser { name: String },
    /// List the running containers of every configured user.
    ListContainers,
}

/// An [`Operation`] as contracts see it.
pub enum OperationView {
    AddUser { name: Seq<char> },
    ListContainers,
}

impl View for Operation {
    type V = OperationView;

    open spec fn view(&self) -> OperationView {
        match self {
            Operation::AddUser { name } => OperationView::AddUser { name: name@ },
            Operation::ListContainers => OperationView::ListContainers,
        }
    }
}

/// What one invocation of the tool asks for.
#[derive(Debug, Clone, PartialEq, Eq)]
pub struct Invocation {
    /// The configuration file, resolved.
    pub config_path: String,
    pub operation: Operation,
}

/// An [`Invocation`] as contracts see it.
pub struct InvocationView {
    pub config_path: Seq<char>,
    pub operation: OperationView,
}

impl View for Invocation {
    type V = InvocationView;

    open spec fn view(&self) -> InvocationView {
        InvocationView { config_path: self.config_path@, operation: self.operation@ }
    }
}

/// Why a command line selects no operation.
#[derive(Debug, Clone, PartialEq, Eq)]
pub enum ArgError {
    /// After a `-c` or `--config` no path follows: the command line ends
    /// there, or the next argument is `-c` or `--config` again.
    MissingConfigValue,
    /// No argument is left after the overrides.
    NoCommand,
    /// The argument in the command's place is neither `adduser` nor `ps`.
    UnknownCommand(String),
    /// `adduser` is the last argument.
    MissingUsername,
}

/// An [`ArgError`] as contracts see it.
pub enum ArgErrorView {
    MissingConfigValue,
    NoCommand,
    UnknownCommand(Seq<char>),
    MissingUsername,
}

impl View for ArgError {
    type V = ArgErrorView;

    open spec fn view(&self) -> ArgErrorView {
        match self {
            ArgError::MissingConfigValue => ArgErrorView::MissingConfigValue,
            ArgError::NoCommand => ArgErrorView::NoCommand,
            ArgError::UnknownCommand(command) => ArgErrorView::UnknownCommand(command@),
            ArgError::MissingUsername => ArgErrorView::MissingUsername,
        }
    }
}

/// Whether `arg` introduces a configuration override.
pub open spec fn is_config_flag(arg: Seq<char>) -> bool {
    arg == "-c"@ || arg == "--config"@
}

/// A command line taken apart: the last override, if any, and the other
/// arguments in order.
pub struct Scanned {
    pub config: Option<Seq<char>>,
    pub words: Seq<Seq<char>>,
}

/// Takes `args` apart. There is no result where a `-c` or `--config` lacks
/// its path: where it is the last argument, or the next one is `-c` or
/// `--config` again.
pub open spec fn scan_spec(args: Seq<Seq<char>>) -> Option<Scanned>
    decreases args.len(),
{
    if args.len() == 0 {
        Some(Scanned { config: None, words: Seq::empty() })
    } else if is_config_flag(args[0]) {
        if args.len() == 1 || is_config_flag(args[1]) {
            None
        } else {
            match scan_spec(args.skip(2)) {
                Some(rest) => Some(
                    Scanned {
                        config: if rest.config is Some {
                            rest.config
                        } else {
                            Some(args[1])
                        },
                        words: rest.words,
                    },
                ),
                None => None,
            }
        }
    } else {
        match scan_spec(args.skip(1)) {
            Some(rest) => Some(Scanned { config: rest.config, words: seq![args[0]] + rest.words }),
            None => None,
        }
    }
}

/// The operation that `words`, the arguments that belong to no override,
/// select.
pub open spec fn select_spec(words: Seq<Seq<char>>) -> Result<OperationView, ArgErrorView> {
    if words.len() == 0 {
        Err(ArgErrorView::NoCommand)
    } else if words[0] == "adduser"@ {
        if words.len() == 1 {
            Err(ArgErrorView::MissingUsername)
        } else {
            Ok(OperationView::AddUser { name: words[1] })
        }
    } else if words[0] == "ps"@ {
        Ok(OperationView::ListContainers)
    } else {
        Err(ArgErrorView::UnknownCommand(words[0]))
    }
}

/// What the arguments `args` (without the program's name) ask for, with
/// `home` the home directory of the invoking user as far as it is known.
/// An override without its path is an error whatever the command is.
pub open spec fn parse_spec(args: Seq<Seq<char>>, home: Option<Seq<char>>) -> Result<
    InvocationView,
    ArgErrorView,
> {
    match scan_spec(args) {
        None => Err(ArgErrorView::MissingConfigValue),
        Some(scan) => match select_spec(scan.words) {
            Ok(operation) => Ok(
                InvocationView { config_path: config_path_spec(scan.config, home), operation },
            ),
            Err(error) => Err(error),
        },
    }
}

/// The view of a parse result.
pub open spec fn parsed_view(result: Result<Invocation, ArgError>) -> Result<
    InvocationView,
    ArgErrorView,
> {
    match result {
        Ok(invocation) => Ok(invocation@),
        Err(error) => Err(error@),
    }
}

/// The view of a selected operation.
pub open spec fn selected_view(result: Result<Operation, ArgError>) -> Result<
    OperationView,
    ArgErrorView,
> {
    match result {
        Ok(operation) => Ok(operation@),
        Err(error) => Err(error@),
    }
}

/// What a command line comes to when `config` and `words` were read so far
/// and `rest` is what the arguments still to read come to.
spec fn scan_after(
    config: Option<Seq<char>>,
    words: Seq<Seq<char>>,
    rest: Option<Scanned>,
) -> Option<Scanned> {
    match rest {
        Some(rest) => Some(
            Scanned {
                config: if rest.config is Some {
                    rest.config
                } else {
                    config
                },
                words: words + rest.words,
            },
        ),
        None => None,
    }
}

/// Whether `arg` is the word `word`.
fn is_word(arg: &String, word: &str) -> (same: bool)
    ensures
        same == (arg@ == word@),
{
    let word = String::from_str(word);
    *arg == word
}

/// Tells whether `arg` introduces a configuration override.
fn is_flag(arg: &String) -> (flag: bool)
    ensures
        flag == is_config_flag(arg@),
{
    is_word(arg, "-c") || is_word(arg, "--config")
}

/// Selects the operation from `words`, the arguments that belong to no
/// override.
pub fn select(words: &Vec<String>) -> (result: Result<Operation, ArgError>)
    ensures
        selected_view(result) == select_spec(texts_of(words@)),
{
    if words.len() == 0 {
        return Err(ArgError::NoCommand);
    }
    assert(texts_of(words@)[0] == words@[0]@);
    if is_word(&words[0], "adduser") {
        if words.len() == 1 {
            return Err(ArgError::MissingUsername);
        }
        assert(texts_of(words@)[1] == words@[1]@);
        Ok(Operation::AddUser { name: words[1].clone() })
    } else if is_word(&words[0], "ps") {
        Ok(Operation::ListContainers)
    } else {
        Err(ArgError::UnknownCommand(words[0].clone()))
    }
}

/// Interprets the arguments of the process, without the program's name.
///
/// `home` is the home directory of the invoking user as far as it is known;
/// it decides the configuration file where no override is given.
pub fn parse_args(args: &Vec<String>, home: Option<String>) -> (result: Result<
    Invocation,
    ArgError,
>)
    ensures
        parsed_view(result) == parse_spec(texts_of(args@), text_of(home)),
{
    let ghost all = texts_of(args@);
    let mut config: Option<String> = None;
    let mut words: Vec<String> = Vec::new();
    let mut i: usize = 0;
    assert(all.skip(0) =~= all);
    assert(scan_after(None, Seq::empty(), scan_spec(all)) =~~= scan_spec(all));
    while i < args.len()
        invariant
            i <= args.len(),
            all == texts_of(args@),
            scan_spec(all) == scan_after(
                text_of(config),
                texts_of(words@),
                scan_spec(all.skip(i as int)),
            ),
        decreases args.len() - i,
    {
        let ghost rest = all.skip(i as int);
        let ghost read = texts_of(words@);
        assert(rest[0] == args@[i as int]@);
        if is_flag(&args[i]) {
            if args.len() - i == 1 {
                return Err(ArgError::MissingConfigValue);
            }
            assert(rest[1] == args@[i + 1]@);
            if is_flag(&args[i + 1]) {
                return Err(ArgError::MissingConfigValue);
            }
            assert(rest.skip(2) =~= all.skip(i + 2));
            config = Some(args[i + 1].clone());
            i = i + 2;
        } else {
            assert(rest.skip(1) =~= all.skip(i + 1));
            words.push(args[i].clone());
            assert(texts_of(words@) =~= read.push(rest[0]));
            assert(scan_spec(all.skip(i + 1)) matches Some(after) ==> read + (seq![rest[0]]
                + after.words) =~= read.push(rest[0]) + after.words);
            i = i + 1;
        }
    }
    assert(all.skip(i as int) =~= Seq::empty());
    assert(scan_spec(all) =~~= Some(
        Scanned { config: text_of(config), words: texts_of(words@) },
    ));
    match select(&words) {
        Ok(operation) => Ok(Invocation { config_path: get_config_path(config, home), operation }),
        Err(error) => Err(error),
    }
}

/// What is said on the error stream of each argument error.
pub open spec fn diagnostic_spec(error: ArgErrorView) -> Seq<char> {
    match error {
        ArgErrorView::MissingConfigValue => "error: option --config requires a path"@,
        ArgErrorView::NoCommand => "error: no command given"@,
        ArgErrorView::UnknownCommand(command) => "error: unknown command '"@ + command + "'"@,
        ArgErrorView::MissingUsername => "error: adduser requires a user name"@,
    }
}

/// The usage message, line by line.
pub open spec fn usage_spec() -> Seq<Seq<char>> {
    seq![
        "Usage: podmen [-c|--config <PATH>] <COMMAND>"@,
        ""@,
        "Commands:"@,
        "  adduser <NAME>  Add a new user without login privileges and enable linger"@,
        "  ps              Show podman containers for all configured users"@,
        ""@,
        "Options:"@,
        "  -c, --config <PATH>  Specify config file path"@,
    ]
}

/// The last step after an argument error: the diagnostic on the error
/// stream, the usage message on standard output, then status 1.
pub open spec fn arg_error_spec(error: ArgErrorView) -> StepView {
    StepView {
        output: seq![err_line(diagnostic_spec(error))] + usage_spec().map_values(
            |text: Seq<char>| out_line(text),
        ),
        next: NextView::Exit { status: 1 },
    }
}

/// The usage message, line by line.
pub fn usage() -> (lines: Vec<String>)
    ensures
        texts_of(lines@) == usage_spec(),
{
    let mut lines: Vec<String> = Vec::new();
    lines.push(String::from_str("Usage: podmen [-c|--config <PATH>] <COMMAND>"));
    lines.push(String::from_str(""));
    lines.push(String::from_str("Commands:"));
    lines.push(
        String::from_str(
            "  adduser <NAME>  Add a new user without login privileges and enable linger",
        ),
    );
    lines.push(
        String::from_str("  ps              Show podman containers for all configured users"),
    );
    lines.push(String::from_str(""));
    lines.push(String::from_str("Options:"));
    lines.push(String::from_str("  -c, --config <PATH>  Specify config file path"));
    assert(texts_of(lines@) =~= usage_spec());
    lines
}

/// The diagnostic for `error`.
pub fn diagnostic(error: &ArgError) -> (text: String)
    ensures
        text@ == diagnostic_spec(error@),
{
    match error {
        ArgError::MissingConfigValue => String::from_str("error: option --config requires a path"),
        ArgError::NoCommand => String::from_str("error: no command given"),
        ArgError::UnknownCommand(command) => join3(
            "error: unknown command '",
            command.as_str(),
            "'",
        ),
        ArgError::MissingUsername => String::from_str("error: adduser requires a user name"),
    }
}

/// Reports an argument error: the diagnostic on the error stream, the usage
/// message on standard output, and status 1.
pub fn arg_error(error: &ArgError) -> (step: Step)
    ensures
        step@ == arg_error_spec(error@),
{
    let mut output: Vec<Line> = Vec::new();
    output.push(Line { stream: Stream::Stderr, text: diagnostic(error) });
    let mut lines = usage();
    let ghost texts = texts_of(lines@);
    let mut i: usize = 0;
    while i < lines.len()
        invariant
            i <= lines.len(),
            texts == texts_of(lines@),
            output@.len() == i + 1,
            output@[0]@ == err_line(diagnostic_spec(error@)),
            forall|j: int| 0 < j <= i ==> (#[trigger] output@[j])@ == out_line(texts[j - 1]),
        decreases lines.len() - i,
    {
        output.push(Line { stream: Stream::Stdout, text: lines[i].clone() });
        i = i + 1;
    }
    let step = Step { output, next: Next::Exit { status: 1 } };
    assert(step@.output =~= arg_error_spec(error@).output);
    step
}

} // verus!
