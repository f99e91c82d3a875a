//! Commands: how a configured command line becomes a program and its
//! arguments, how the end of a run is judged, and the command lines that are
//! handed to a terminal.

use crate::config::{EffectiveConfig, EffectiveConfigView};
use crate::state::{UpdateSnapshot, UpdateSnapshotView};
use crate::text::{
    join, join_strings, push_signed_decimal, same_text, signed_decimal, trim, trimmed,
};
use vstd::prelude::*;
use vstd::string::StringExecFns;

verus! {

/// A helper for the user repository that was found on this machine.
#[derive(Clone, Copy, Debug, PartialEq, Eq, Structural)]
pub enum DetectedAurHelper {
    Paru,
    Yay,
}

impl DetectedAurHelper {
    /// The name of the helper's program.
    pub open spec fn binary_name(self) -> Seq<char> {
        match self {
            DetectedAurHelper::Paru => "paru"@,
            DetectedAurHelper::Yay => "yay"@,
        }
    }

    /// The name of the helper's program.
    pub fn binary(self) -> (name: &'static str)
        ensures
            name@ == self.binary_name(),
    {
        match self {
            DetectedAurHelper::Paru => "paru",
            DetectedAurHelper::Yay => "yay",
        }
    }
}

/// A program and the arguments it is to be run with.
#[derive(Debug, PartialEq, Eq)]
pub struct ResolvedCommand {
    pub program: String,
    pub args: Vec<String>,
}

/// A command as the contracts see it.
pub struct ResolvedCommandView {
    pub program: Seq<char>,
    pub args: Seq<Seq<char>>,
}

impl View for ResolvedCommand {
    type V = ResolvedCommandView;

    open spec fn view(&self) -> ResolvedCommandView {
        ResolvedCommandView { program: self.program@, args: self.args.deep_view() }
    }
}

/// What a check found, and the helper it found it with.
#[derive(Debug)]
pub struct CheckOutcome {
    pub snapshot: UpdateSnapshot,
    pub helper: Option<DetectedAurHelper>,
}

/// The outcome of a check as the contracts see it.
pub struct CheckOutcomeView {
    pub snapshot: UpdateSnapshotView,
    pub helper: Option<DetectedAurHelper>,
}

impl View for CheckOutcome {
    type V = CheckOutcomeView;

    open spec fn view(&self) -> CheckOutcomeView {
        CheckOutcomeView { snapshot: self.snapshot@, helper: self.helper }
    }
}

/// Why a command or a check came to nothing.
#[derive(Debug, PartialEq, Eq)]
pub enum CommandError {
    /// The operating system could not start the program; `source` is what
    /// it said.
    Spawn { program: String, source: String },
    /// The program ran and ended with a code that does not count as
    /// success, or without any.
    NonZero { command: String, status: i32, stderr: String },
    /// The configured command line is empty or cannot be taken apart.
    InvalidCommand(String),
    /// An operation on the file system failed; `source` is what the
    /// operating system said.
    Io { context: String, source: String },
}

/// An error as the contracts see it.
pub enum CommandErrorView {
    Spawn { program: Seq<char>, source: Seq<char> },
    NonZero { command: Seq<char>, status: i32, stderr: Seq<char> },
    InvalidCommand(Seq<char>),
    Io { context: Seq<char>, source: Seq<char> },
}

impl CommandErrorView {
    /// The error in words.
    pub open spec fn message(self) -> Seq<char> {
        match self {
            CommandErrorView::Spawn { program, source } => "failed to spawn `"@ + program + "`: "@
                + source,
            CommandErrorView::NonZero { command, status, stderr } => "command `"@ + command
                + "` exited with "@ + signed_decimal(status as int) + ": "@ + stderr,
            CommandErrorView::InvalidCommand(raw) => "invalid configured command `"@ + raw + "`"@,
            CommandErrorView::Io { context, source } => "failed filesystem operation ("@ + context
                + "): "@ + source,
        }
    }
}

impl View for CommandError {
    type V = CommandErrorView;

    open spec fn view(&self) -> CommandErrorView {
        match self {
            CommandError::Spawn { program, source } => CommandErrorView::Spawn {
                program: program@,
                source: source@,
            },
            CommandError::NonZero { command, status, stderr } => CommandErrorView::NonZero {
                command: command@,
                status: *status,
                stderr: stderr@,
            },
            CommandError::InvalidCommand(raw) => CommandErrorView::InvalidCommand(raw@),
            CommandError::Io { context, source } => CommandErrorView::Io {
                context: context@,
                source: source@,
            },
        }
    }
}

impl CommandError {
    /// The error in words.
    pub fn message(&self) -> (text: String)
        ensures
            text@ == self@.message(),
    {
        match self {
            CommandError::Spawn { program, source } => {
                let mut text = String::from_str("failed to spawn `");
                text.append(program.as_str());
                text.append("`: ");
                text.append(source.as_str());
                text
            },
            CommandError::NonZero { command, status, stderr } => {
                let mut text = String::from_str("command `");
                text.append(command.as_str());
                text.append("` exited with ");
                push_signed_decimal(&mut text, *status as i64);
                text.append(": ");
                text.append(stderr.as_str());
                text
            },
            CommandError::InvalidCommand(raw) => {
                let mut text = String::from_str("invalid configured command `");
                text.append(raw.as_str());
                text.append("`");
                text
            },
            CommandError::Io { context, source } => {
                let mut text = String::from_str("failed filesystem operation (");
                text.append(context.as_str());
                text.append("): ");
                text.append(source.as_str());
                text
            },
        }
    }
}

/// The view of the outcome of something that can fail with a
/// `CommandError`.
pub open spec fn outcome_view<T: View>(r: Result<T, CommandError>) -> Result<
    T::V,
    CommandErrorView,
> {
    match r {
        Ok(value) => Ok(value@),
        Err(error) => Err(error@),
    }
}

/// What is left of a process that ran to its end: the code it ended with,
/// if it ended with one, and the bytes it wrote.
#[derive(Debug, PartialEq, Eq)]
pub struct ProcessOutput {
    pub code: Option<i32>,
    pub stdout: Vec<u8>,
    pub stderr: Vec<u8>,
}

/// What a command wrote: its output as it came, and its complaints without
/// the white space around them.
#[derive(Debug, PartialEq, Eq)]
pub struct CommandOutput {
    pub stdout: String,
    pub stderr: String,
}

/// The output of a command as the contracts see it.
pub struct CommandOutputView {
    pub stdout: Seq<char>,
    pub stderr: Seq<char>,
}

impl View for CommandOutput {
    type V = CommandOutputView;

    open spec fn view(&self) -> CommandOutputView {
        CommandOutputView { stdout: self.stdout@, stderr: self.stderr@ }
    }
}

/// The words that `shell_words::split` takes a command line apart into, or
/// `None` where it finds a quote that is not closed.
pub uninterp spec fn shell_split(line: Seq<char>) -> Option<Seq<Seq<char>>>;

/// What `shell_words::quote` makes of a word, so that a shell reads it as
/// that one word.
pub uninterp spec fn shell_quote(word: Seq<char>) -> Seq<char>;

/// The text that `String::from_utf8_lossy` reads out of bytes.
pub uninterp spec fn utf8_lossy(bytes: Seq<u8>) -> Seq<char>;

/// `shell_words::ParseError`, the error that `shell_words::split` gives.
/// Nothing is known of what it holds.
#[verifier::external_type_specification]
#[verifier::external_body]
pub struct ExParseError(shell_words::ParseError);

/// `shell_words::split`. Its result depends on the line alone: the words,
/// or the error that the crate gives for a quote that is not closed.
#[verifier::external_body]
fn split_words(line: &str) -> (r: Result<Vec<String>, shell_words::ParseError>)
    ensures
        match r {
            Ok(words) => shell_split(line@) == Some(words.deep_view()),
            Err(_) => shell_split(line@) is None,
        },
{
    shell_words::split(line)
}

/// `shell_words::quote`. Its result depends on the word alone.
#[verifier::external_body]
fn quote_word(word: &str) -> (r: String)
    ensures
        r@ == shell_quote(word@),
{
    shell_words::quote(word).into_owned()
}

/// `String::from_utf8_lossy`. Its result depends on the bytes alone.
#[verifier::external_body]
fn decode_lossy(bytes: &Vec<u8>) -> (r: String)
    ensures
        r@ == utf8_lossy(bytes@),
{
    String::from_utf8_lossy(bytes).into_owned()
}

/// The command that the words of a configured line stand for: the first
/// word is the program, the others are its arguments. A line without words
/// stands for none.
pub open spec fn command_of(raw: Seq<char>, words: Option<Seq<Seq<char>>>) -> Result<
    ResolvedCommandView,
    CommandErrorView,
> {
    if words is Some && words->0.len() > 0 {
        Ok(ResolvedCommandView { program: words->0[0], args: words->0.drop_first() })
    } else {
        Err(CommandErrorView::InvalidCommand(raw))
    }
}

/// The command that `words` stand for, where `words` are what the line
/// `raw` was taken apart into, if it could be.
pub fn command_from_words(raw: &str, words: Option<Vec<String>>) -> (r: Result<
    ResolvedCommand,
    CommandError,
>)
    ensures
        outcome_view(r) == command_of(raw@, words.deep_view()),
{
    match words {
        Some(mut parts) => {
            if parts.len() == 0 {
                return Err(CommandError::InvalidCommand(String::from_str(raw)));
            }
            let ghost all = parts.deep_view();
            let program = parts.remove(0);
            assert(parts.deep_view() =~= all.drop_first());
            assert(program@ == all[0]);
            Ok(ResolvedCommand { program, args: parts })
        },
        None => Err(CommandError::InvalidCommand(String::from_str(raw))),
    }
}

/// Takes a configured command line apart, by the quoting rules of a shell.
/// Fails with `InvalidCommand` where the line cannot be taken apart or holds
/// no word.
pub fn parse_command_string(raw: &str) -> (r: Result<ResolvedCommand, CommandError>)
    ensures
        outcome_view(r) == command_of(raw@, shell_split(raw@)),
{
    match split_words(raw) {
        Ok(words) => command_from_words(raw, Some(words)),
        Err(_) => command_from_words(raw, None),
    }
}

/// A command as one line for a shell: the program and each argument, each
/// quoted, with one space between them.
pub open spec fn command_line(program: Seq<char>, args: Seq<Seq<char>>) -> Seq<char> {
    join(seq![shell_quote(program)] + args.map_values(|arg: Seq<char>| shell_quote(arg)), " "@)
}

/// A command as one line for a shell.
pub fn shell_join(program: &str, args: &Vec<String>) -> (line: String)
    ensures
        line@ == command_line(program@, args.deep_view()),
{
    let mut all: Vec<String> = Vec::new();
    all.push(quote_word(program));
    let mut i: usize = 0;
    while i < args.len()
        invariant
            i <= args.len(),
            all.len() == i + 1,
            all@[0]@ == shell_quote(program@),
            forall|j: int| 0 <= j < i ==> (#[trigger] all@[j + 1])@ == shell_quote(args@[j]@),
        decreases args.len() - i,
    {
        all.push(quote_word(args[i].as_str()));
        i += 1;
    }
    proof {
        let quoted = args.deep_view().map_values(|arg: Seq<char>| shell_quote(arg));
        let target = seq![shell_quote(program@)] + quoted;
        assert forall|k: int| 0 <= k < target.len() implies all.deep_view()[k] == target[k] by {
            if k > 0 {
                assert(all@[(k - 1) + 1]@ == shell_quote(args@[k - 1]@));
                assert(quoted[k - 1] == shell_quote(args.deep_view()[k - 1]));
            }
        }
        assert(all.deep_view() =~= target);
    }
    join_strings(&all, " ")
}

/// Whether a process that ended with `code` ended well, where `codes` are
/// the codes that count as success: it must have ended with a code, and
/// with one of those.
pub open spec fn allowed(code: Option<i32>, codes: Seq<i32>) -> bool {
    code is Some && codes.contains(code->0)
}

/// Whether a process that ended with `code` ended well.
pub fn is_allowed(code: Option<i32>, allowed_codes: &[i32]) -> (ok: bool)
    ensures
        ok == allowed(code, allowed_codes@),
{
    match code {
        Some(c) => {
            let mut i: usize = 0;
            while i < allowed_codes.len()
                invariant
                    i <= allowed_codes.len(),
                    code == Some(c),
                    forall|j: int| 0 <= j < i ==> allowed_codes@[j] != c,
                decreases allowed_codes.len() - i,
            {
                if allowed_codes[i] == c {
                    assert(allowed_codes@[i as int] == c);
                    return true;
                }
                i += 1;
            }
            false
        },
        None => false,
    }
}

/// What a run of `cmd` came to, where the process ended with `code` and
/// wrote `stdout` and `stderr`. It is the output where the code counts as
/// success, and `NonZero` where it does not: with the command as one line,
/// the code, or -1 for none, and what the process complained of.
pub open spec fn captured(
    cmd: ResolvedCommandView,
    codes: Seq<i32>,
    code: Option<i32>,
    stdout: Seq<char>,
    stderr: Seq<char>,
) -> Result<CommandOutputView, CommandErrorView> {
    let complaint = trim(stderr);
    if allowed(code, codes) {
        Ok(CommandOutputView { stdout, stderr: complaint })
    } else {
        Err(
            CommandErrorView::NonZero {
                command: command_line(cmd.program, cmd.args),
                status: match code {
                    Some(c) => c,
                    None => -1i32,
                },
                stderr: if complaint.len() == 0 {
                    "<no stderr>"@
                } else {
                    complaint
                },
            },
        )
    }
}

/// A run succeeds exactly where the process ended with a code that is
/// among the codes that count as success. Where it ended without a code, or
/// with another, the run fails with `NonZero`.
pub proof fn lemma_exit_code_policy(
    cmd: ResolvedCommandView,
    codes: Seq<i32>,
    code: Option<i32>,
    stdout: Seq<char>,
    stderr: Seq<char>,
)
    ensures
        captured(cmd, codes, code, stdout, stderr) is Ok <==> code is Some && codes.contains(
            code->0,
        ),
        captured(cmd, codes, code, stdout, stderr) is Err ==> captured(
            cmd,
            codes,
            code,
            stdout,
            stderr,
        )->Err_0 is NonZero,
{
}

/// Judges the end of a run of `cmd`: the process ended with `code` and
/// wrote `stdout` and `stderr`, and `allowed_codes` count as success.
pub fn capture_outcome(
    cmd: &ResolvedCommand,
    allowed_codes: &[i32],
    code: Option<i32>,
    stdout: String,
    stderr: &str,
) -> (r: Result<CommandOutput, CommandError>)
    ensures
        outcome_view(r) == captured(cmd@, allowed_codes@, code, stdout@, stderr@),
        r is Ok <==> allowed(code, allowed_codes@),
{
    let complaint = trimmed(stderr);
    if is_allowed(code, allowed_codes) {
        return Ok(CommandOutput { stdout, stderr: complaint });
    }
    let status = match code {
        Some(c) => c,
        None => -1,
    };
    let empty = same_text(complaint.as_str(), "");
    proof {
        reveal_strlit("");
        assert(empty <==> complaint@.len() == 0) by {
            if complaint@.len() == 0 {
                assert(complaint@ =~= ""@);
            }
        }
    }
    Err(
        CommandError::NonZero {
            command: shell_join(cmd.program.as_str(), &cmd.args),
            status,
            stderr: if empty {
                String::from_str("<no stderr>")
            } else {
                complaint
            },
        },
    )
}

/// What a run of `cmd` came to, where `spawned` is what the operating
/// system made of it: the process's remains, or its word on why none was
/// started.
pub open spec fn run_result(
    cmd: ResolvedCommandView,
    codes: Seq<i32>,
    spawned: Result<ProcessOutput, String>,
) -> Result<CommandOutputView, CommandErrorView> {
    match spawned {
        Ok(output) => captured(
            cmd,
            codes,
            output.code,
            utf8_lossy(output.stdout@),
            utf8_lossy(output.stderr@),
        ),
        Err(reason) => Err(CommandErrorView::Spawn { program: cmd.program, source: reason@ }),
    }
}

/// Judges a run of `cmd`. A program that could not be started gives
/// `Spawn`. One that ran gives its output, read as text, where it ended
/// with one of `allowed_codes`, and `NonZero` where it did not.
pub fn run_capture(
    cmd: &ResolvedCommand,
    allowed_codes: &[i32],
    spawned: Result<ProcessOutput, String>,
) -> (r: Result<CommandOutput, CommandError>)
    ensures
        outcome_view(r) == run_result(cmd@, allowed_codes@, spawned),
        r is Ok <==> spawned is Ok && allowed(spawned->Ok_0.code, allowed_codes@),
{
    match spawned {
        Ok(output) => {
            let stdout = decode_lossy(&output.stdout);
            let stderr = decode_lossy(&output.stderr);
            capture_outcome(cmd, allowed_codes, output.code, stdout, stderr.as_str())
        },
        Err(reason) => Err(CommandError::Spawn { program: cmd.program.clone(), source: reason }),
    }
}

/// Adds `piece` to the end of `pieces`.
fn push_piece(pieces: &mut Vec<String>, piece: String)
    ensures
        final(pieces).deep_view() == old(pieces).deep_view().push(piece@),
{
    pieces.push(piece);
    assert(pieces.deep_view() =~= old(pieces).deep_view().push(piece@));
}

/// The command that a configured check of the official repositories stands
/// for: the words of the line, and `--nocolor` after them.
pub open spec fn custom_check(raw: Seq<char>) -> Result<ResolvedCommandView, CommandErrorView> {
    match command_of(raw, shell_split(raw)) {
        Ok(cmd) => Ok(ResolvedCommandView { args: cmd.args.push("--nocolor"@), ..cmd }),
        Err(error) => Err(error),
    }
}

/// The command that a configured check of the official repositories stands
/// for. Fails with `InvalidCommand` as `parse_command_string` does.
pub fn custom_check_command(raw: &str) -> (r: Result<ResolvedCommand, CommandError>)
    ensures
        outcome_view(r) == custom_check(raw@),
{
    match parse_command_string(raw) {
        Ok(cmd) => {
            let mut cmd = cmd;
            push_piece(&mut cmd.args, String::from_str("--nocolor"));
            Ok(cmd)
        },
        Err(error) => Err(error),
    }
}

/// The command line that lists the updates of the official repositories
/// for the user to read.
pub open spec fn official_details(config: EffectiveConfigView) -> Result<
    Seq<char>,
    CommandErrorView,
> {
    if config.official_check_cmd == "auto"@ {
        Ok("pacman -Qu --color never"@)
    } else {
        match custom_check(config.official_check_cmd) {
            Ok(cmd) => Ok(command_line(cmd.program, cmd.args)),
            Err(error) => Err(error),
        }
    }
}

/// The command line that lists the updates of the user repository for the
/// user to read, or says that no helper was found.
pub open spec fn aur_details(helper: Option<DetectedAurHelper>) -> Seq<char> {
    match helper {
        Some(h) => h.binary_name() + " -Qua"@,
        None => "echo 'AUR helper not found (expected paru or yay)'"@,
    }
}

/// The commands that show the pending updates in a terminal, one after the
/// other.
pub open spec fn details_pieces(
    official: Seq<char>,
    enable_aur: bool,
    helper: Option<DetectedAurHelper>,
) -> Seq<Seq<char>> {
    let aur = if enable_aur {
        seq!["echo"@, aur_details(helper)]
    } else {
        Seq::empty()
    };
    seq![official] + aur + seq!["echo"@, "read -n 1 -s -r -p 'Press any key to close...'"@]
}

/// The shell command that shows the pending updates in a terminal and
/// waits for a key.
pub open spec fn details_command(
    config: EffectiveConfigView,
    helper: Option<DetectedAurHelper>,
) -> Result<Seq<char>, CommandErrorView> {
    match official_details(config) {
        Ok(official) => Ok(join(details_pieces(official, config.enable_aur, helper), "; "@)),
        Err(error) => Err(error),
    }
}

/// The view of a text that may have failed to come about.
pub open spec fn text_view(r: Result<String, CommandError>) -> Result<
    Seq<char>,
    CommandErrorView,
> {
    match r {
        Ok(text) => Ok(text@),
        Err(error) => Err(error@),
    }
}

/// Builds the shell command that shows the pending updates in a terminal:
/// the listing of the official repositories, that of the helper where the
/// user repository is enabled, and a prompt that waits for a key. Fails with
/// `InvalidCommand` where a check command is configured that cannot be taken
/// apart.
pub fn build_details_shell_command(
    config: &EffectiveConfig,
    helper: Option<DetectedAurHelper>,
) -> (r: Result<String, CommandError>)
    ensures
        text_view(r) == details_command(config@, helper),
{
    let mut pieces: Vec<String> = Vec::new();
    assert(pieces.deep_view() =~= Seq::<Seq<char>>::empty());
    if same_text(config.official_check_cmd.as_str(), "auto") {
        push_piece(&mut pieces, String::from_str("pacman -Qu --color never"));
    } else {
        match custom_check_command(config.official_check_cmd.as_str()) {
            Ok(official) => {
                let line = shell_join(official.program.as_str(), &official.args);
                push_piece(&mut pieces, line);
            },
            Err(error) => {
                return Err(error);
            },
        }
    }
    let ghost official = pieces.deep_view()[0];
    assert(pieces.deep_view() =~= seq![official]);
    if config.enable_aur {
        push_piece(&mut pieces, String::from_str("echo"));
        match helper {
            Some(h) => {
                let mut line = String::from_str(h.binary());
                line.append(" -Qua");
                push_piece(&mut pieces, line);
            },
            None => {
                push_piece(
                    &mut pieces,
                    String::from_str("echo 'AUR helper not found (expected paru or yay)'"),
                );
            },
        }
    }
    push_piece(&mut pieces, String::from_str("echo"));
    push_piece(&mut pieces, String::from_str("read -n 1 -s -r -p 'Press any key to close...'"));
    assert(pieces.deep_view() =~= details_pieces(official, config.enable_aur, helper));
    Ok(join_strings(&pieces, "; "))
}

/// The shell command that installs all pending updates: the configured one
/// unless that is `auto`, else the helper's, else the package manager's.
pub open spec fn upgrade_command(
    config: EffectiveConfigView,
    helper: Option<DetectedAurHelper>,
) -> Seq<char> {
    if config.upgrade_cmd != "auto"@ {
        config.upgrade_cmd
    } else {
        match helper {
            Some(h) => h.binary_name() + " -Syu"@,
            None => "sudo pacman -Syu"@,
        }
    }
}

/// Builds the shell command that installs all pending updates.
pub fn build_upgrade_shell_command(
    config: &EffectiveConfig,
    helper: Option<DetectedAurHelper>,
) -> (command: String)
    ensures
        command@ == upgrade_command(config@, helper),
{
    if !same_text(config.upgrade_cmd.as_str(), "auto") {
        return config.upgrade_cmd.clone();
    }
    match helper {
        Some(h) => {
            let mut command = String::from_str(h.binary());
            command.append(" -Syu");
            command
        },
        None => String::from_str("sudo pacman -Syu"),
    }
}

/// Builds the shell command that installs the updates of the official
/// repositories only.
pub fn build_upgrade_official_shell_command() -> (command: String)
    ensures
        command@ == "sudo pacman -Syu"@,
{
    String::from_str("sudo pacman -Syu")
}

/// Builds the shell command that installs the updates of the user
/// repository only, where a helper is there to do it.
pub fn build_upgrade_aur_shell_command(helper: Option<DetectedAurHelper>) -> (command: Option<
    String,
>)
    ensures
        command.deep_view() == match helper {
            Some(h) => Some(h.binary_name() + " -Sua"@),
            None => None,
        },
{
    match helper {
        Some(h) => {
            let mut command = String::from_str(h.binary());
            command.append(" -Sua");
            Some(command)
        },
        None => None,
    }
}

} // verus!
