//! The texts that tell the user how the tool is called.

use crate::config::{get_languages, Config, ConfigView, Language, LanguageView, ProjectType, ProjectTypeView};
use crate::text::{join, join_lines, joined, pad, padded, spaces};
use vstd::prelude::*;

verus! {

/// Width of the column that holds a flag or a project type.
pub const FLAG_WIDTH: usize = 15;

/// Width of the column that holds a command.
pub const COMMAND_WIDTH: usize = 10;

/// The line for a flag: two spaces, the short and the long form with a comma
/// between them, padded to the flag column, then the description.
pub open spec fn flag_line(
    single_character: Seq<char>,
    long: Seq<char>,
    description: Seq<char>,
) -> Seq<char> {
    spaces(2) + padded(single_character + seq![',', ' '] + long, FLAG_WIDTH as nat) + description
}

/// The line for a command: four spaces, the command padded to the command
/// column, then the description.
pub open spec fn command_line(command: Seq<char>, description: Seq<char>) -> Seq<char> {
    spaces(4) + padded(command, COMMAND_WIDTH as nat) + description
}

/// The line for a project type: two spaces, its name padded to the flag column,
/// then its description.
pub open spec fn project_type_line(project_type: ProjectTypeView) -> Seq<char> {
    spaces(2) + padded(project_type.name, FLAG_WIDTH as nat) + project_type.description
}

/// The lines for a language: a heading with its name, then one line for each of
/// its project types.
pub open spec fn language_lines(language: LanguageView) -> Seq<Seq<char>> {
    seq![language.name + " project types: "@] + language.project_types.map_values(
        |t: ProjectTypeView| project_type_line(t),
    )
}

/// The block for a language: its lines with a line break between each two.
pub open spec fn language_block(language: LanguageView) -> Seq<char> {
    joined(language_lines(language), seq!['\n'])
}

/// The line for the one flag that every command takes.
pub open spec fn help_flag_line() -> Seq<char> {
    flag_line("-h"@, "--help"@, "Print help information."@)
}

/// The lines shown where no command is given.
pub open spec fn info_lines() -> Seq<Seq<char>> {
    seq![
        "Usage: pjcr [COMMAND] [ARGUMENTS] [OPTIONS]"@,
        "Try 'pjcr --help' for more information."@,
    ]
}

/// The lines of the general help.
pub open spec fn help_lines() -> Seq<Seq<char>> {
    seq![
        "Usage: pjcr [COMMAND] [ARGUMENTS] [OPTIONS]"@,
        "Simple tool for creating boilerplate file structures and files for projects."@,
        "Try: pjcr new python 'My Cool Project' default ."@,
        Seq::empty(),
        "Commands:"@,
        command_line("new"@, "Create a new project."@),
        Seq::empty(),
        "Optional flags:"@,
        help_flag_line(),
    ]
}

/// The lines of the help for `new`: how it is called, the names of the
/// languages with `, ` between them, a block for each language, and the flags.
pub open spec fn new_help_lines(cfg: ConfigView) -> Seq<Seq<char>> {
    seq![
        "Usage: pjcr new [LANGUAGE] [PROJECT_NAME] [PROJECT_TYPE] [PATH]"@,
        "Create a new project."@,
        "Example: pjcr new python 'My Cool Project' default ."@,
        Seq::empty(),
        "Supported languages:"@,
        joined(cfg.names(), seq![',', ' ']),
        Seq::empty(),
    ] + cfg.languages.map_values(|l: LanguageView| language_block(l)) + seq![
        Seq::empty(),
        "Optional flags:"@,
        help_flag_line(),
    ]
}

/// The text shown where no command is given.
pub open spec fn info_text() -> Seq<char> {
    joined(info_lines(), seq!['\n'])
}

/// The text of the general help.
pub open spec fn help_text() -> Seq<char> {
    joined(help_lines(), seq!['\n'])
}

/// The text of the help for `new`.
pub open spec fn new_help_text(cfg: ConfigView) -> Seq<char> {
    joined(new_help_lines(cfg), seq!['\n'])
}

/// `count` spaces, followed by `s` padded to `width`, followed by `rest`.
fn column(count: usize, s: &str, width: usize, rest: &str) -> (out: String)
    ensures
        out@ == spaces(count as nat) + padded(s@, width as nat) + rest@,
{
    let indent = pad("", count);
    assert(indent@ =~= spaces(count as nat)) by {
        assert(""@.len() == 0) by {
            reveal_strlit("");
        }
    }
    let mut out = indent;
    let cell = pad(s, width);
    out.append(cell.as_str());
    out.append(rest);
    out
}

/// The help line for a flag with its short form, its long form and what it does.
pub fn format_flag(single_character: &str, long: &str, description: &str) -> (out: String)
    ensures
        out@ == flag_line(single_character@, long@, description@),
{
    let mut both = String::from_str(single_character);
    both.push(',');
    both.push(' ');
    both.append(long);
    column(2, both.as_str(), FLAG_WIDTH, description)
}

/// The help line for a command and what it does.
pub fn format_command(command: &str, description: &str) -> (out: String)
    ensures
        out@ == command_line(command@, description@),
{
    column(4, command, COMMAND_WIDTH, description)
}

/// The help line for a project type: its name and its description.
pub fn format_project_type(project_type: ProjectType) -> (out: String)
    ensures
        out@ == project_type_line(project_type@),
{
    column(2, project_type.name.as_str(), FLAG_WIDTH, project_type.description.as_str())
}

/// The help block for a language: a heading, then a line for each project type.
pub fn format_language(language: Language) -> (out: String)
    ensures
        out@ == language_block(language@),
{
    let mut heading = language.name.clone();
    heading.append(" project types: ");
    let mut strings: Vec<String> = Vec::new();
    strings.push(heading);
    let ghost first = seq![language@.name + " project types: "@];
    let ghost kinds = language.project_types@;
    for project_type in it: language.project_types
        invariant
            it.seq() == kinds,
            strings.deep_view() == first + kinds.take(it.index() as int).map_values(
                |t: ProjectType| project_type_line(t@),
            ),
    {
        let ghost i = it.index() as int;
        let ghost before = strings.deep_view();
        let line = format_project_type(project_type);
        strings.push(line);
        assert(strings.deep_view() =~= before.push(project_type_line(kinds[i]@)));
    }
    assert(kinds.take(kinds.len() as int) == kinds);
    assert(kinds.map_values(|t: ProjectType| project_type_line(t@))
        =~= language@.project_types.map_values(|t: ProjectTypeView| project_type_line(t)));
    join_lines(&strings)
}

/// The line for the help flag.
fn format_help_flag() -> (out: String)
    ensures
        out@ == help_flag_line(),
{
    format_flag("-h", "--help", "Print help information.")
}

/// The text shown where no command is given: how the tool is called, and where to
/// find more.
pub fn info() -> (out: String)
    ensures
        out@ == info_text(),
{
    let lines = vec![
        String::from_str("Usage: pjcr [COMMAND] [ARGUMENTS] [OPTIONS]"),
        String::from_str("Try 'pjcr --help' for more information."),
    ];
    assert(lines.deep_view() =~= info_lines());
    join_lines(&lines)
}

/// The text of the general help: the usage, the commands and the flags.
pub fn help() -> (out: String)
    ensures
        out@ == help_text(),
{
    let lines = vec![
        String::from_str("Usage: pjcr [COMMAND] [ARGUMENTS] [OPTIONS]"),
        String::from_str("Simple tool for creating boilerplate file structures and files for projects."),
        String::from_str("Try: pjcr new python 'My Cool Project' default ."),
        String::new(),
        String::from_str("Commands:"),
        format_command("new", "Create a new project."),
        String::new(),
        String::from_str("Optional flags:"),
        format_help_flag(),
    ];
    assert(lines.deep_view() =~= help_lines());
    join_lines(&lines)
}

/// The text of the help for `new`: the usage, the languages that the registry
/// offers, the project types of each, and the flags.
pub fn new_help(cfg: Config) -> (out: String)
    ensures
        out@ == new_help_text(cfg@),
{
    let names = get_languages(&cfg);
    proof {
        reveal_strlit(", ");
        assert(", "@ == seq![',', ' ']);
    }
    let mut lines = vec![
        String::from_str("Usage: pjcr new [LANGUAGE] [PROJECT_NAME] [PROJECT_TYPE] [PATH]"),
        String::from_str("Create a new project."),
        String::from_str("Example: pjcr new python 'My Cool Project' default ."),
        String::new(),
        String::from_str("Supported languages:"),
        join(&names, ", "),
        String::new(),
    ];
    let ghost head = lines.deep_view();
    let ghost languages = cfg.languages@;
    for language in it: cfg.languages
        invariant
            it.seq() == languages,
            lines.deep_view() == head + languages.take(it.index() as int).map_values(
                |l: Language| language_block(l@),
            ),
    {
        let ghost i = it.index() as int;
        let ghost before = lines.deep_view();
        let block = format_language(language);
        lines.push(block);
        assert(lines.deep_view() =~= before.push(language_block(languages[i]@)));
    }
    let ghost blocks = lines.deep_view();
    lines.push(String::new());
    lines.push(String::from_str("Optional flags:"));
    lines.push(format_help_flag());
    assert(lines.deep_view() =~= blocks + seq![
        Seq::empty(),
        "Optional flags:"@,
        help_flag_line(),
    ]);
    assert(lines.deep_view() =~= new_help_lines(cfg@));
    join_lines(&lines)
}

} // verus!
