//! Terminals: which one to open, and the command that runs a shell command
//! in it.

use crate::commands::{
    command_of, outcome_view, parse_command_string, shell_split, CommandError, CommandErrorView,
    ResolvedCommand, ResolvedCommandView,
};
use crate::config::EffectiveConfig;
use crate::text::same_text;
use std::path::Path;
use vstd::prelude::*;
use vstd::string::StringExecFns;

verus! {

/// A terminal: its program, the arguments it always gets, and the argument
/// after which it takes the command to run.
#[derive(Debug, PartialEq, Eq)]
pub struct TerminalSpec {
    pub program: String,
    pub args: Vec<String>,
    pub exec_delimiter: String,
}

/// A terminal as the contracts see it.
pub struct TerminalSpecView {
    pub program: Seq<char>,
    pub args: Seq<Seq<char>>,
    pub exec_delimiter: Seq<char>,
}

impl View for TerminalSpec {
    type V = TerminalSpecView;

    open spec fn view(&self) -> TerminalSpecView {
        TerminalSpecView {
            program: self.program@,
            args: self.args.deep_view(),
            exec_delimiter: self.exec_delimiter@,
        }
    }
}

impl DeepView for TerminalSpec {
    type V = TerminalSpecView;

    open spec fn deep_view(&self) -> TerminalSpecView {
        self@
    }
}

/// The argument after which the terminal named `name` takes the command to
/// run.
pub open spec fn delimiter_for(name: Seq<char>) -> Seq<char> {
    if name == "gnome-terminal"@ {
        "--"@
    } else {
        "-e"@
    }
}

/// The argument after which the terminal named `program_name` takes the
/// command to run: `--` for gnome-terminal, `-e` for every other.
pub fn terminal_exec_delimiter(program_name: &str) -> (delimiter: &'static str)
    ensures
        delimiter@ == delimiter_for(program_name@),
{
    if same_text(program_name, "gnome-terminal") {
        "--"
    } else {
        "-e"
    }
}

/// `Path::file_name` of the standard library, for a path given as text:
/// the last component of the path, where it has one that is a name. What
/// counts as a component is the platform's matter, so nothing is claimed of
/// the result.
#[verifier::external_body]
fn file_name_of(path: &str) -> (name: Option<String>) {
    Path::new(path).file_name().and_then(|name| name.to_str()).map(|name| name.to_string())
}

/// The terminal that `cmd` names, where `name` is the last component of the
/// path of its program, if that has one: the name decides the delimiter, and
/// the whole program does where there is no name.
pub fn terminal_from_command(cmd: ResolvedCommand, name: Option<String>) -> (terminal:
    TerminalSpec)
    ensures
        terminal@ == (TerminalSpecView {
            program: cmd@.program,
            args: cmd@.args,
            exec_delimiter: delimiter_for(
                match name {
                    Some(n) => n@,
                    None => cmd@.program,
                },
            ),
        }),
{
    let delimiter = match &name {
        Some(n) => terminal_exec_delimiter(n.as_str()),
        None => terminal_exec_delimiter(cmd.program.as_str()),
    };
    TerminalSpec {
        program: cmd.program,
        args: cmd.args,
        exec_delimiter: String::from_str(delimiter),
    }
}

/// Whether `terminal` is a reading of the line `raw`: none where the line
/// stands for no command, else the program and the arguments of that
/// command, with one of the two delimiters.
pub open spec fn reads_as(raw: Seq<char>, terminal: Option<TerminalSpecView>) -> bool {
    match command_of(raw, shell_split(raw)) {
        Ok(cmd) => {
            &&& terminal is Some
            &&& terminal->0.program == cmd.program
            &&& terminal->0.args == cmd.args
            &&& (terminal->0.exec_delimiter == "--"@ || terminal->0.exec_delimiter == "-e"@)
        },
        Err(_) => terminal is None,
    }
}

/// Reads a terminal out of a configured line: its words are the program
/// and its arguments, and the name of the program decides the delimiter.
/// Fails with `InvalidCommand` as `parse_command_string` does.
pub fn parse_terminal_spec(raw: &str) -> (r: Result<TerminalSpec, CommandError>)
    ensures
        r is Err ==> outcome_view(r) == Err::<TerminalSpecView, CommandErrorView>(
            command_of(raw@, shell_split(raw@))->Err_0,
        ),
        r is Err <==> command_of(raw@, shell_split(raw@)) is Err,
        reads_as(
            raw@,
            match r {
                Ok(terminal) => Some(terminal@),
                Err(_) => None,
            },
        ),
{
    match parse_command_string(raw) {
        Ok(cmd) => {
            let name = file_name_of(cmd.program.as_str());
            Ok(terminal_from_command(cmd, name))
        },
        Err(error) => Err(error),
    }
}

/// The terminals that are tried where none is configured, in the order in
/// which they are tried.
pub open spec fn fallback_names() -> Seq<Seq<char>> {
    seq![
        "kitty"@,
        "alacritty"@,
        "gnome-terminal"@,
        "konsole"@,
        "xfce4-terminal"@,
        "xterm"@,
    ]
}

/// The terminals that are tried where none is configured, in the order in
/// which they are tried.
pub fn fallback_terminals() -> (names: Vec<&'static str>)
    ensures
        names.deep_view() == fallback_names(),
{
    let names = vec!["kitty", "alacritty", "gnome-terminal", "konsole", "xfce4-terminal", "xterm"];
    assert(names.deep_view() =~= fallback_names());
    names
}

/// Whether the terminal at place `i` of the fallback list was found, where
/// `installed` says so for each place it covers.
pub open spec fn found_at(installed: Seq<bool>, i: int) -> bool {
    0 <= i < installed.len() && i < fallback_names().len() && installed[i]
}

/// The place in the fallback list of the first terminal that was found,
/// looking from place `from` on.
pub open spec fn first_found(installed: Seq<bool>, from: int) -> Option<int>
    decreases fallback_names().len() - from,
{
    if from < 0 || from >= fallback_names().len() {
        None
    } else if found_at(installed, from) {
        Some(from)
    } else {
        first_found(installed, from + 1)
    }
}

/// The first terminal of the fallback list that was found, if any was.
pub open spec fn fallback_terminal(installed: Seq<bool>) -> Option<TerminalSpecView> {
    match first_found(installed, 0) {
        Some(i) => Some(
            TerminalSpecView {
                program: fallback_names()[i],
                args: Seq::empty(),
                exec_delimiter: delimiter_for(fallback_names()[i]),
            },
        ),
        None => None,
    }
}

/// Whether `terminal` is the terminal to open. A configured terminal other
/// than `auto` is read out of its line. With `auto`, the terminal that the
/// environment names is read out of its line where that line stands for a
/// command; else it is the first terminal of the fallback list that was
/// found.
pub open spec fn resolves_to(
    configured: Seq<char>,
    env_terminal: Option<Seq<char>>,
    installed: Seq<bool>,
    terminal: Option<TerminalSpecView>,
) -> bool {
    if configured != "auto"@ {
        reads_as(configured, terminal)
    } else if env_terminal is Some && command_of(env_terminal->0, shell_split(env_terminal->0))
        is Ok {
        reads_as(env_terminal->0, terminal)
    } else {
        terminal == fallback_terminal(installed)
    }
}

/// Picks the terminal to open. `env_terminal` is what the environment
/// names as the terminal, if it names one, and `installed` says for each
/// place of the fallback list whether that terminal was found on this
/// machine.
pub fn resolve_terminal(
    configured: &str,
    env_terminal: Option<&str>,
    installed: &Vec<bool>,
) -> (r: Option<TerminalSpec>)
    ensures
        resolves_to(configured@, env_terminal.deep_view(), installed@, r.deep_view()),
{
    if !same_text(configured, "auto") {
        return match parse_terminal_spec(configured) {
            Ok(terminal) => Some(terminal),
            Err(_) => None,
        };
    }
    if let Some(from_env) = env_terminal {
        if let Ok(terminal) = parse_terminal_spec(from_env) {
            return Some(terminal);
        }
    }
    let names = fallback_terminals();
    let mut i: usize = 0;
    while i < names.len()
        invariant
            i <= names.len(),
            names.deep_view() == fallback_names(),
            first_found(installed@, 0) == first_found(installed@, i as int),
            configured@ == "auto"@,
            env_terminal is None || command_of(env_terminal->0@, shell_split(env_terminal->0@))
                is Err,
        decreases names.len() - i,
    {
        if i < installed.len() && installed[i] {
            let terminal = TerminalSpec {
                program: String::from_str(names[i]),
                args: Vec::new(),
                exec_delimiter: String::from_str(terminal_exec_delimiter(names[i])),
            };
            assert(names.deep_view()[i as int] == names@[i as int]@);
            assert(terminal.args.deep_view() =~= Seq::<Seq<char>>::empty());
            return Some(terminal);
        }
        i += 1;
    }
    None
}

/// The command that runs `shell_command` in `terminal`: the terminal with
/// its own arguments, then its delimiter, then a login shell that is given
/// the command.
pub open spec fn terminal_command(
    terminal: TerminalSpecView,
    shell_command: Seq<char>,
) -> ResolvedCommandView {
    ResolvedCommandView {
        program: terminal.program,
        args: terminal.args + seq![terminal.exec_delimiter, "bash"@, "-lc"@, shell_command],
    }
}

/// The command that runs `shell_command` in `terminal`.
pub fn command_in_terminal(terminal: TerminalSpec, shell_command: &str) -> (cmd: ResolvedCommand)
    ensures
        cmd@ == terminal_command(terminal@, shell_command@),
{
    let mut args = terminal.args;
    let ghost own = args.deep_view();
    args.push(terminal.exec_delimiter);
    args.push(String::from_str("bash"));
    args.push(String::from_str("-lc"));
    args.push(String::from_str(shell_command));
    assert(args.deep_view() =~= own + seq![
        terminal.exec_delimiter@,
        "bash"@,
        "-lc"@,
        shell_command@,
    ]);
    ResolvedCommand { program: terminal.program, args }
}

/// What is said where no terminal can be opened.
pub open spec fn no_terminal() -> CommandErrorView {
    CommandErrorView::InvalidCommand("no supported terminal found (set terminal in config)"@)
}

/// The command that opens a terminal on `shell_command`: the terminal is
/// picked as `resolve_terminal` picks it, and fails with `InvalidCommand`
/// where there is none to pick. Starting the command is left to the caller.
pub fn launch_in_terminal(
    config: &EffectiveConfig,
    shell_command: &str,
    env_terminal: Option<&str>,
    installed: &Vec<bool>,
) -> (r: Result<ResolvedCommand, CommandError>)
    ensures
        match r {
            Ok(cmd) => exists|terminal: TerminalSpecView|
                #![trigger terminal_command(terminal, shell_command@)]
                {
                    &&& resolves_to(
                        config@.terminal,
                        env_terminal.deep_view(),
                        installed@,
                        Some(terminal),
                    )
                    &&& cmd@ == terminal_command(terminal, shell_command@)
                },
            Err(error) => {
                &&& error@ == no_terminal()
                &&& resolves_to(config@.terminal, env_terminal.deep_view(), installed@, None)
            },
        },
{
    match resolve_terminal(config.terminal.as_str(), env_terminal, installed) {
        Some(terminal) => {
            let ghost picked = terminal@;
            let cmd = command_in_terminal(terminal, shell_command);
            assert(cmd@ == terminal_command(picked, shell_command@));
            Ok(cmd)
        },
        None => Err(
            CommandError::InvalidCommand(
                String::from_str("no supported terminal found (set terminal in config)"),
            ),
        ),
    }
}

} // verus!
