//! The dispatcher's decisions: what a command resolves to, which bytes a
//! finished command leaves on each stream, and where each stream goes.
//!
//! The caller runs what is decided here: it calls the builtin or spawns the
//! executable, and writes the routed bytes.

use vstd::prelude::*;
use vstd::utf8::encode_utf8;
use crate::error::{command_not_found, command_not_found_text, launch_failed, parse_error, parse_error_text, ErrorView, ShellError};
use crate::output::{StreamTarget, TargetView};
use crate::parse::{
    is_parse_of, parse_input, parse_of, stderr_target_of, stdout_target_of, ParsedData, ParsedView,
    RedirectView,
};
use crate::shell_commands::{listings, search, search_in_path, Builtin, BuiltinRegistry, DirListing, EntryView};

verus! {

/// What a command name resolves to.
#[derive(Debug)]
pub enum Resolution {
    /// A builtin of the shell.
    Builtin(Builtin),
    /// The executable at this path.
    External(String),
    /// Neither.
    NotFound,
}

/// The mathematical value of a [`Resolution`].
pub enum ResolutionView {
    Builtin(Builtin),
    External(Seq<char>),
    NotFound,
}

impl View for Resolution {
    type V = ResolutionView;

    open spec fn view(&self) -> ResolutionView {
        match self {
            Resolution::Builtin(b) => ResolutionView::Builtin(*b),
            Resolution::External(path) => ResolutionView::External(path@),
            Resolution::NotFound => ResolutionView::NotFound,
        }
    }
}

/// The resolution order: a name in the registry is that builtin, whatever
/// the search path holds; another name is the first executable of that name
/// on the search path; a name that is neither is not found.
pub open spec fn resolution_of(
    command: Seq<char>,
    commands: Map<Seq<char>, Builtin>,
    dirs: Seq<Seq<EntryView>>,
) -> ResolutionView {
    if commands.contains_key(command) {
        ResolutionView::Builtin(commands[command])
    } else {
        match search(dirs, command) {
            Some(path) => ResolutionView::External(path),
            None => ResolutionView::NotFound,
        }
    }
}

/// Resolves a command name against the builtin registry and the listed
/// directories of the search path.
pub fn resolve(command: &str, commands: &BuiltinRegistry, dirs: &Vec<DirListing>) -> (resolution:
    Resolution)
    ensures
        resolution@ == resolution_of(command@, commands@, listings(dirs@)),
{
    match commands.get(command) {
        Some(builtin) => Resolution::Builtin(builtin),
        None => match search_in_path(command, dirs) {
            Some(path) => Resolution::External(path),
            None => Resolution::NotFound,
        },
    }
}

/// What a finished command leaves on its two streams.
#[derive(Debug)]
pub struct CommandOutcome {
    pub stdout_bytes: Vec<u8>,
    pub stderr_bytes: Vec<u8>,
}

/// The mathematical value of a [`CommandOutcome`].
pub struct OutcomeView {
    pub stdout_bytes: Seq<u8>,
    pub stderr_bytes: Seq<u8>,
}

impl View for CommandOutcome {
    type V = OutcomeView;

    open spec fn view(&self) -> OutcomeView {
        OutcomeView { stdout_bytes: self.stdout_bytes@, stderr_bytes: self.stderr_bytes@ }
    }
}

/// The bytes of an error message as it is shown: the message and a newline,
/// in UTF-8.
pub open spec fn error_line(message: Seq<char>) -> Seq<u8> {
    encode_utf8(message + seq!['\n'])
}

/// The outcome that consists of text on standard output.
pub open spec fn text_outcome(text: Seq<char>) -> OutcomeView {
    OutcomeView { stdout_bytes: encode_utf8(text), stderr_bytes: Seq::empty() }
}

/// The outcome that consists of an error message on standard error.
pub open spec fn error_outcome(message: Seq<char>) -> OutcomeView {
    OutcomeView { stdout_bytes: Seq::empty(), stderr_bytes: error_line(message) }
}

/// The outcome of an error: its message and a newline on standard error,
/// nothing on standard output.
pub fn outcome_of_error(error: &ShellError) -> (outcome: CommandOutcome)
    ensures
        outcome@ == error_outcome(error@.message),
{
    proof {
        reveal_strlit("\n");
        assert("\n"@ =~= seq!['\n']);
    }
    let mut line = error.message.clone();
    line.append("\n");
    CommandOutcome { stdout_bytes: Vec::new(), stderr_bytes: line.as_str().as_bytes_vec() }
}

/// The outcome of a builtin: its text on standard output where it
/// succeeded, its error's message on standard error where it failed.
pub fn builtin_outcome(result: Result<String, ShellError>) -> (outcome: CommandOutcome)
    ensures
        outcome@ == match result {
            Ok(text) => text_outcome(text@),
            Err(e) => error_outcome(e@.message),
        },
{
    match result {
        Ok(text) => CommandOutcome {
            stdout_bytes: text.as_str().as_bytes_vec(),
            stderr_bytes: Vec::new(),
        },
        Err(e) => outcome_of_error(&e),
    }
}

/// The outcome of an executable that ran: the bytes it wrote, unchanged.
pub fn external_outcome(stdout: Vec<u8>, stderr: Vec<u8>) -> (outcome: CommandOutcome)
    ensures
        outcome@ == (OutcomeView { stdout_bytes: stdout@, stderr_bytes: stderr@ }),
{
    CommandOutcome { stdout_bytes: stdout, stderr_bytes: stderr }
}

/// The outcome of an executable that could not be launched: what the system
/// said, on standard error.
pub fn launch_failure_outcome(reason: &str) -> (outcome: CommandOutcome)
    ensures
        outcome@ == error_outcome(reason@),
{
    outcome_of_error(&launch_failed(reason))
}

/// The outcome of a command that is neither a builtin nor on the search
/// path: `<command>: command not found` on standard error.
pub fn not_found_outcome(command: &str) -> (outcome: CommandOutcome)
    ensures
        outcome@ == error_outcome(command_not_found_text(command@)),
{
    outcome_of_error(&command_not_found(command))
}

/// The outcome of a line that could not be parsed: the parse error's
/// message on standard error. Such a line has no redirects, so this goes to
/// the console.
pub fn parse_failure_outcome() -> (outcome: CommandOutcome)
    ensures
        outcome@ == error_outcome(parse_error_text()),
{
    outcome_of_error(&parse_error())
}

/// Bytes and the target they are written to.
#[derive(Debug)]
pub struct Emission {
    pub target: StreamTarget,
    pub bytes: Vec<u8>,
}

/// The mathematical value of an [`Emission`].
pub struct EmissionView {
    pub target: TargetView,
    pub bytes: Seq<u8>,
}

impl View for Emission {
    type V = EmissionView;

    open spec fn view(&self) -> EmissionView {
        EmissionView { target: self.target@, bytes: self.bytes@ }
    }
}

/// The two streams of a finished command, each with its target.
#[derive(Debug)]
pub struct Routed {
    pub stdout: Emission,
    pub stderr: Emission,
}

/// The mathematical value of a [`Routed`].
pub struct RoutedView {
    pub stdout: EmissionView,
    pub stderr: EmissionView,
}

impl View for Routed {
    type V = RoutedView;

    open spec fn view(&self) -> RoutedView {
        RoutedView { stdout: self.stdout@, stderr: self.stderr@ }
    }
}

/// The stream router's rule: standard output goes to the standard output
/// target of the line and standard error to its standard error target, each
/// unchanged.
pub open spec fn routed_of(redirects: RedirectView, outcome: OutcomeView) -> RoutedView {
    RoutedView {
        stdout: EmissionView { target: stdout_target_of(redirects), bytes: outcome.stdout_bytes },
        stderr: EmissionView { target: stderr_target_of(redirects), bytes: outcome.stderr_bytes },
    }
}

/// Routes the two streams of a finished command to the targets that its
/// line names.
pub fn route(parsed: &ParsedData, outcome: CommandOutcome) -> (routed: Routed)
    ensures
        routed@ == routed_of(parsed@.redirect_info, outcome@),
{
    Routed {
        stdout: Emission { target: parsed.stdout_target(), bytes: outcome.stdout_bytes },
        stderr: Emission { target: parsed.stderr_target(), bytes: outcome.stderr_bytes },
    }
}

/// What is to be done for a parsed line.
#[derive(Debug)]
pub enum Dispatch {
    /// Run this builtin on the line's arguments and route its result.
    Builtin(Builtin),
    /// Spawn the executable at this path with the line's arguments and route
    /// what it writes.
    External(String),
    /// Nothing can be run; write this.
    Unresolved(Routed),
}

/// The mathematical value of a [`Dispatch`].
pub enum DispatchView {
    Builtin(Builtin),
    External(Seq<char>),
    Unresolved(RoutedView),
}

impl View for Dispatch {
    type V = DispatchView;

    open spec fn view(&self) -> DispatchView {
        match self {
            Dispatch::Builtin(b) => DispatchView::Builtin(*b),
            Dispatch::External(path) => DispatchView::External(path@),
            Dispatch::Unresolved(routed) => DispatchView::Unresolved(routed@),
        }
    }
}

/// The dispatcher's decision for a parsed line: run what the command
/// resolves to, or, where it resolves to nothing, report that on the line's
/// standard error target.
pub open spec fn dispatch_of(
    parsed: ParsedView,
    commands: Map<Seq<char>, Builtin>,
    dirs: Seq<Seq<EntryView>>,
) -> DispatchView {
    match resolution_of(parsed.command, commands, dirs) {
        ResolutionView::Builtin(b) => DispatchView::Builtin(b),
        ResolutionView::External(path) => DispatchView::External(path),
        ResolutionView::NotFound => DispatchView::Unresolved(
            routed_of(
                parsed.redirect_info,
                error_outcome(command_not_found_text(parsed.command)),
            ),
        ),
    }
}

/// Decides what is to be done for a parsed line.
pub fn dispatch(parsed: &ParsedData, commands: &BuiltinRegistry, dirs: &Vec<DirListing>) -> (decision:
    Dispatch)
    ensures
        decision@ == dispatch_of(parsed@, commands@, listings(dirs@)),
{
    match resolve(parsed.command.as_str(), commands, dirs) {
        Resolution::Builtin(b) => Dispatch::Builtin(b),
        Resolution::External(path) => Dispatch::External(path),
        Resolution::NotFound => Dispatch::Unresolved(
            route(parsed, not_found_outcome(parsed.command.as_str())),
        ),
    }
}

/// What is written for a line that does not parse: the parse error's
/// message and a newline on the console's standard error, and nothing on
/// standard output. Such a line has no redirects.
pub open spec fn parse_failure_routing() -> RoutedView {
    RoutedView {
        stdout: EmissionView { target: TargetView::Console, bytes: Seq::empty() },
        stderr: EmissionView {
            target: TargetView::Console,
            bytes: error_line(parse_error_text()),
        },
    }
}

/// What is to be done for a line: for one that parses, what the dispatcher
/// decides for it; for one that does not, nothing is run and the parse error
/// is written to the console.
pub open spec fn interpretation_of(
    line: Seq<char>,
    commands: Map<Seq<char>, Builtin>,
    dirs: Seq<Seq<EntryView>>,
) -> DispatchView {
    match parse_of(line) {
        Some(parsed) => dispatch_of(parsed, commands, dirs),
        None => DispatchView::Unresolved(parse_failure_routing()),
    }
}

/// Parses a line and decides what is to be done for it. A line that does
/// not parse is discarded whole: nothing of it is run, and the decision is
/// to write the parse error to the console.
pub fn interpret(input: &String, commands: &BuiltinRegistry, dirs: &Vec<DirListing>) -> (r: (
    Option<ParsedData>,
    Dispatch,
))
    ensures
        is_parse_of(input@, r.0),
        r.0 matches Some(p) ==> p.redirect_info.wf(),
        r.1@ == interpretation_of(input@, commands@, listings(dirs@)),
{
    match parse_input(input) {
        Some(parsed) => {
            let decision = dispatch(&parsed, commands, dirs);
            (Some(parsed), decision)
        },
        None => {
            let outcome = parse_failure_outcome();
            let routed = Routed {
                stdout: Emission { target: StreamTarget::Console, bytes: outcome.stdout_bytes },
                stderr: Emission { target: StreamTarget::Console, bytes: outcome.stderr_bytes },
            };
            (None, Dispatch::Unresolved(routed))
        },
    }
}

/// A command that is no builtin and has no match on the search path puts
/// `<command>: command not found` and a newline on the line's standard error
/// target, which is the console unless the line redirects standard error to
/// a file, and nothing on standard output.
pub proof fn law_unknown_command_reported_on_stderr(
    parsed: ParsedView,
    commands: Map<Seq<char>, Builtin>,
    dirs: Seq<Seq<EntryView>>,
)
    requires
        !commands.contains_key(parsed.command),
        search(dirs, parsed.command) is None,
    ensures
        dispatch_of(parsed, commands, dirs) matches DispatchView::Unresolved(routed) && {
            &&& routed.stderr.bytes == encode_utf8(
                parsed.command + ": command not found"@ + seq!['\n'],
            )
            &&& routed.stdout.bytes == Seq::<u8>::empty()
            &&& !parsed.redirect_info.redirect_stderr ==> routed.stderr.target
                == TargetView::Console
            &&& parsed.redirect_info.redirect_stderr ==> routed.stderr.target
                == (TargetView::File {
                path: parsed.redirect_info.stderr_path,
                mode: crate::output::mode_of(parsed.redirect_info.append_stderr),
            })
        },
{
}

} // verus!
