//! From the command line to what is to be done.
//!
//! `args[0]` is the program's own name, `args[1]` the command, the rest the
//! command's arguments. The functions here decide; printing a message and
//! carrying out the steps of a project are left to the caller.

use crate::config::{Config, ConfigView};
pub use crate::error::Error;
use crate::error::{result_view, ErrorView};
use crate::information::{help, help_text, info, info_text, new_help, new_help_text};
use crate::materialize::{materialize, plan_steps, Step, StepView};
use crate::resolve::{resolve, resolved};
use vstd::prelude::*;

verus! {

/// What a command line asks for.
#[derive(Debug, PartialEq, Eq)]
pub enum Outcome {
    /// This text is to be shown, and nothing else done.
    Message(String),
    /// A project is to be created by these steps, in this order.
    Project(Vec<Step>),
}

/// Model of an [`Outcome`].
#[verifier::ext_equal]
pub enum OutcomeView {
    Message(Seq<char>),
    Project(Seq<StepView>),
}

impl View for Outcome {
    type V = OutcomeView;

    open spec fn view(&self) -> OutcomeView {
        match self {
            Outcome::Message(text) => OutcomeView::Message(text@),
            Outcome::Project(steps) => OutcomeView::Project(steps.deep_view()),
        }
    }
}

impl DeepView for Outcome {
    type V = OutcomeView;

    open spec fn deep_view(&self) -> OutcomeView {
        self@
    }
}

/// The steps that create a project, or the error for a language that the
/// registry lacks: the selection is resolved, and the plan turned into steps.
pub open spec fn project_steps(
    cfg: ConfigView,
    language: Seq<char>,
    name: Seq<char>,
    project_type: Option<Seq<char>>,
    path: Option<Seq<char>>,
    wakatime: bool,
) -> Result<Seq<StepView>, ErrorView> {
    match resolved(cfg, language, project_type, path, name, wakatime) {
        Ok(plan) => Ok(plan_steps(plan)),
        Err(error) => Err(error),
    }
}

/// What `new` is told where the language is missing.
pub open spec fn missing_language_text() -> Seq<char> {
    "ERROR: You need to supply a language argument.\n\nUsage: pjcr new [LANGUAGE] [PROJECT NAME] [PROJECT TYPE] [PATH]"@
}

/// What `new` is told where the project name is missing.
pub open spec fn missing_name_text() -> Seq<char> {
    "ERROR: You need to supply a project name argument.\n\nUsage: pjcr new [LANGUAGE] [PROJECT NAME] [PROJECT TYPE] [PATH]"@
}

/// Whether the arguments ask for help, anywhere among them.
pub open spec fn wants_help(args: Seq<Seq<char>>) -> bool {
    args.contains("--help"@) || args.contains("-h"@)
}

/// Whether the arguments ask for time tracking, anywhere among them.
pub open spec fn wants_wakatime(args: Seq<Seq<char>>) -> bool {
    args.contains("--wakatime"@) || args.contains("-w"@)
}

/// The argument at `at`, where there is one.
pub open spec fn argument(args: Seq<Seq<char>>, at: int) -> Option<Seq<char>> {
    if 0 <= at < args.len() {
        Some(args[at])
    } else {
        None
    }
}

/// What the arguments of `new` ask for.
///
/// Help wins over everything else. Without it the language is owed at
/// `args[2]` and the project name at `args[3]`; the project type at `args[4]` and
/// the path at `args[5]` may follow.
pub open spec fn new_parsed(args: Seq<Seq<char>>, cfg: ConfigView) -> Result<
    OutcomeView,
    ErrorView,
> {
    if wants_help(args) {
        Ok(OutcomeView::Message(new_help_text(cfg)))
    } else if args.len() < 3 {
        Err(ErrorView::MissingArguments(missing_language_text()))
    } else if args.len() < 4 {
        Err(ErrorView::MissingArguments(missing_name_text()))
    } else {
        match project_steps(
            cfg,
            args[2],
            args[3],
            argument(args, 4),
            argument(args, 5),
            wants_wakatime(args),
        ) {
            Ok(steps) => Ok(OutcomeView::Project(steps)),
            Err(error) => Err(error),
        }
    }
}

/// Whether `command` asks for the general help.
pub open spec fn is_help_command(command: Seq<char>) -> bool {
    command == "-h"@ || command == "--help"@ || command == "help"@
}

/// What is said of a command that is not known.
pub open spec fn unrecognized_text(command: Seq<char>) -> Seq<char> {
    "Unrecognized command: "@ + command
}

/// What a command line asks for.
pub open spec fn parsed(args: Seq<Seq<char>>, cfg: ConfigView) -> Result<OutcomeView, ErrorView>
    recommends
        args.len() >= 1,
{
    if args.len() == 1 {
        Ok(OutcomeView::Message(info_text()))
    } else if is_help_command(args[1]) {
        Ok(OutcomeView::Message(help_text()))
    } else if args[1] == "new"@ {
        new_parsed(args, cfg)
    } else {
        Ok(OutcomeView::Message(unrecognized_text(args[1])))
    }
}

/// Whether one of `args` is exactly `flag`.
pub fn has_argument(args: &Vec<String>, flag: &str) -> (found: bool)
    ensures
        found == args.deep_view().contains(flag@),
{
    let wanted = String::from_str(flag);
    let mut i: usize = 0;
    while i < args.len()
        invariant
            i <= args.len(),
            wanted@ == flag@,
            forall|j: int| 0 <= j < i ==> args.deep_view()[j] != flag@,
        decreases args.len() - i,
    {
        if args[i] == wanted {
            assert(args.deep_view()[i as int] == flag@);
            return true;
        }
        i += 1;
    }
    false
}

/// The steps that create the project `name` in `language`.
///
/// The selection is resolved against the registry and the plan turned into
/// steps. Where the registry lacks the language, the error names it and there
/// are no steps: nothing is to be created or fetched.
pub fn create_project(
    cfg: &Config,
    language: String,
    name: String,
    project_type: Option<String>,
    path: Option<String>,
    wakatime: bool,
) -> (steps: Result<Vec<Step>, Error>)
    requires
        cfg@.has_defaults(),
    ensures
        result_view(steps) == project_steps(
            cfg@,
            language@,
            name@,
            project_type.deep_view(),
            path.deep_view(),
            wakatime,
        ),
{
    match resolve(cfg, language, project_type, path, name, wakatime) {
        Ok(plan) => Ok(materialize(&plan)),
        Err(error) => Err(error),
    }
}

/// A copy of the argument at `at`, where there is one.
fn argument_at(args: &Vec<String>, at: usize) -> (out: Option<String>)
    ensures
        out.deep_view() == argument(args.deep_view(), at as int),
{
    if at < args.len() {
        Some(args[at].clone())
    } else {
        None
    }
}

/// Decides what the arguments of `new` ask for.
///
/// With `--help` or `-h` anywhere, the help for `new`. Else the language and the
/// project name are owed, and each that is missing is an error. Else the steps
/// that create the project, or the error for a language that the registry lacks.
/// `--wakatime` or `-w` anywhere asks for time tracking.
pub fn new_parse_arguments(args: Vec<String>, cfg: Config) -> (outcome: Result<Outcome, Error>)
    requires
        cfg@.has_defaults(),
    ensures
        result_view(outcome) == new_parsed(args.deep_view(), cfg@),
{
    if has_argument(&args, "--help") || has_argument(&args, "-h") {
        return Ok(Outcome::Message(new_help(cfg)));
    }
    if args.len() < 3 {
        return Err(
            Error::MissingArguments(
                String::from_str(
                    "ERROR: You need to supply a language argument.\n\nUsage: pjcr new [LANGUAGE] [PROJECT NAME] [PROJECT TYPE] [PATH]",
                ),
            ),
        );
    }
    if args.len() < 4 {
        return Err(
            Error::MissingArguments(
                String::from_str(
                    "ERROR: You need to supply a project name argument.\n\nUsage: pjcr new [LANGUAGE] [PROJECT NAME] [PROJECT TYPE] [PATH]",
                ),
            ),
        );
    }
    let project_type = argument_at(&args, 4);
    let path = argument_at(&args, 5);
    let wakatime = has_argument(&args, "--wakatime") || has_argument(&args, "-w");
    match create_project(&cfg, args[2].clone(), args[3].clone(), project_type, path, wakatime) {
        Ok(steps) => Ok(Outcome::Project(steps)),
        Err(error) => Err(error),
    }
}

/// Decides what a command line asks for.
///
/// Without a command, the short usage. With `-h`, `--help` or `help`, the
/// general help. With `new`, what [`new_parse_arguments`] decides. Any other
/// command is named in a message.
pub fn parse_arguments(args: Vec<String>, cfg: Config) -> (outcome: Result<Outcome, Error>)
    requires
        args.len() >= 1,
        cfg@.has_defaults(),
    ensures
        result_view(outcome) == parsed(args.deep_view(), cfg@),
{
    if args.len() == 1 {
        return Ok(Outcome::Message(info()));
    }
    let command = &args[1];
    if *command == String::from_str("-h") || *command == String::from_str("--help") || *command
        == String::from_str("help") {
        Ok(Outcome::Message(help()))
    } else if *command == String::from_str("new") {
        new_parse_arguments(args, cfg)
    } else {
        let mut text = String::from_str("Unrecognized command: ");
        text.append(command.as_str());
        Ok(Outcome::Message(text))
    }
}

/// A language that the registry lacks gives the error that names it and no
/// steps at all, so that nothing is created and nothing fetched for it.
pub proof fn lemma_unknown_language_gives_no_steps(
    cfg: ConfigView,
    language: Seq<char>,
    name: Seq<char>,
    project_type: Option<Seq<char>>,
    path: Option<Seq<char>>,
    wakatime: bool,
)
    requires
        !cfg.names().contains(language),
    ensures
        project_steps(cfg, language, name, project_type, path, wakatime) == Err::<
            Seq<StepView>,
            ErrorView,
        >(ErrorView::InvalidLanguage(language)),
{
}

/// A language that the registry has gives steps and no error, whatever project
/// type is named.
pub proof fn lemma_known_language_gives_steps(
    cfg: ConfigView,
    language: Seq<char>,
    name: Seq<char>,
    project_type: Option<Seq<char>>,
    path: Option<Seq<char>>,
    wakatime: bool,
)
    requires
        cfg.names().contains(language),
    ensures
        project_steps(cfg, language, name, project_type, path, wakatime) is Ok,
{
}

/// The arguments of `new` give an error in exactly three cases, help not being
/// asked for: no language, no project name, and a language that the registry lacks.
pub proof fn lemma_new_errors(args: Seq<Seq<char>>, cfg: ConfigView)
    ensures
        new_parsed(args, cfg) is Err <==> !wants_help(args) && (args.len() < 4
            || !cfg.names().contains(args[2])),
        wants_help(args) ==> new_parsed(args, cfg) == Ok::<OutcomeView, ErrorView>(
            OutcomeView::Message(new_help_text(cfg)),
        ),
        !wants_help(args) && args.len() >= 4 && !cfg.names().contains(args[2]) ==> new_parsed(
            args,
            cfg,
        ) == Err::<OutcomeView, ErrorView>(ErrorView::InvalidLanguage(args[2])),
{
}

} // verus!
