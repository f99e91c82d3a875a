//! One check for updates, step by step.
//!
//! A check runs programs and touches the file system, which this library
//! does not do itself. It says what is to be done next, is told how that
//! went, and says what follows, until it can say what the check found.

use crate::commands::{
    custom_check, custom_check_command, outcome_view, run_capture, run_result, CheckOutcome,
    CheckOutcomeView, CommandError, CommandErrorView, DetectedAurHelper, ProcessOutput,
    ResolvedCommand, ResolvedCommandView,
};
use crate::config::{AurHelperMode, EffectiveConfig, EffectiveConfigView};
use crate::detect::{has_binary, present, FileProbe};
use crate::parser::{parse_lines, parse_update_lines};
use crate::paths::{joined, path_join};
use crate::scratch::{
    aur_query, aur_query_command, checkupdates_db_path_from_inputs, db_path_query,
    db_path_query_command, default_db_path, filter_pacman_qu_output, filtered, first_filled, query,
    query_command, reported_db_path, scratch_path, sync, sync_command,
};
use crate::state::{PackageUpdate, PackageUpdateView, UpdateSnapshot, UpdateSnapshotView, UpdateSource};
use crate::text::{lines, same_text};
use vstd::prelude::*;
use vstd::string::StringExecFns;

verus! {

/// What the environment of the process sets of the things a check goes by:
/// the path of the scratch database, the directory for temporary files and
/// the user's number.
#[derive(Debug, PartialEq, Eq)]
pub struct CheckEnv {
    pub checkupdates_db: Option<String>,
    pub tmpdir: Option<String>,
    pub uid: Option<String>,
}

/// Where a check stands: what it waits for.
#[derive(Debug)]
pub enum Stage {
    /// For the directory of the scratch database to be made.
    CreateScratch,
    /// For the package manager to say where its database lies.
    AskDbPath,
    /// For word on whether `named`, the place that the package manager
    /// named, is a directory.
    ProbeDbDir { named: String },
    /// For word on whether the scratch database has its `local` entry; the
    /// package database lies at `real_db`.
    ProbeLocal { real_db: String },
    /// For the `local` entry of the scratch database to be linked to that
    /// of the package database at `real_db`.
    LinkLocal { real_db: String },
    /// For the scratch database to be brought up to date.
    Sync,
    /// For the listing of the official repositories.
    Query,
    /// For the lock file of the scratch database to be removed; `listed`
    /// is what the listing of the official repositories came to.
    Unlock { listed: Result<Vec<PackageUpdate>, CommandError> },
    /// For the listing of the configured check `command`.
    Custom { command: ResolvedCommand },
    /// For word on whether the helper `candidate` is on the search path;
    /// the official repositories came to `official`.
    ProbeHelper { candidate: DetectedAurHelper, official: Vec<PackageUpdate> },
    /// For the listing of the helper; the official repositories came to
    /// `official`.
    QueryAur { helper: DetectedAurHelper, official: Vec<PackageUpdate> },
}

/// A stage as the contracts see it: texts as sequences of characters.
pub enum StageView {
    CreateScratch,
    AskDbPath,
    ProbeDbDir { named: Seq<char> },
    ProbeLocal { real_db: Seq<char> },
    LinkLocal { real_db: Seq<char> },
    Sync,
    Query,
    Unlock { listed: Result<Seq<PackageUpdateView>, CommandErrorView> },
    Custom { command: ResolvedCommandView },
    ProbeHelper { candidate: DetectedAurHelper, official: Seq<PackageUpdateView> },
    QueryAur { helper: DetectedAurHelper, official: Seq<PackageUpdateView> },
}

impl View for Stage {
    type V = StageView;

    open spec fn view(&self) -> StageView {
        match self {
            Stage::CreateScratch => StageView::CreateScratch,
            Stage::AskDbPath => StageView::AskDbPath,
            Stage::ProbeDbDir { named } => StageView::ProbeDbDir { named: named@ },
            Stage::ProbeLocal { real_db } => StageView::ProbeLocal { real_db: real_db@ },
            Stage::LinkLocal { real_db } => StageView::LinkLocal { real_db: real_db@ },
            Stage::Sync => StageView::Sync,
            Stage::Query => StageView::Query,
            Stage::Unlock { listed } => StageView::Unlock {
                listed: match listed {
                    Ok(updates) => Ok(updates.deep_view()),
                    Err(error) => Err(error@),
                },
            },
            Stage::Custom { command } => StageView::Custom { command: command@ },
            Stage::ProbeHelper { candidate, official } => StageView::ProbeHelper {
                candidate: *candidate,
                official: official.deep_view(),
            },
            Stage::QueryAur { helper, official } => StageView::QueryAur {
                helper: *helper,
                official: official.deep_view(),
            },
        }
    }
}

/// What a check goes by from its start to its end.
#[derive(Debug)]
pub struct CheckPlan {
    /// Where the scratch database lies.
    pub db_path: String,
    /// Whether the user repository is to be checked too.
    pub enable_aur: bool,
    /// Which helper to look for.
    pub mode: AurHelperMode,
}

/// A plan as the contracts see it.
pub struct CheckPlanView {
    pub db_path: Seq<char>,
    pub enable_aur: bool,
    pub mode: AurHelperMode,
}

impl View for CheckPlan {
    type V = CheckPlanView;

    open spec fn view(&self) -> CheckPlanView {
        CheckPlanView { db_path: self.db_path@, enable_aur: self.enable_aur, mode: self.mode }
    }
}

/// A check under way.
#[derive(Debug)]
pub struct CheckRun {
    pub plan: CheckPlan,
    pub stage: Stage,
}

/// A check under way as the contracts see it.
pub struct CheckRunView {
    pub plan: CheckPlanView,
    pub stage: StageView,
}

impl View for CheckRun {
    type V = CheckRunView;

    open spec fn view(&self) -> CheckRunView {
        CheckRunView { plan: self.plan@, stage: self.stage@ }
    }
}

/// What a check asks to be done for it.
#[derive(Debug, PartialEq, Eq)]
pub enum CheckAction {
    /// Make the directory `path`, and those above it that are missing.
    CreateDirAll { path: String },
    /// Run `command` to its end and take what it writes.
    Run { command: ResolvedCommand },
    /// See whether `path` is a directory.
    ProbeDir { path: String },
    /// See whether anything is at `path`.
    ProbeExists { path: String },
    /// Make `link` a symbolic link to `original`.
    Symlink { original: String, link: String },
    /// Remove the file `path`; it does not matter whether that works.
    RemoveFile { path: String },
    /// Look in each directory of the search path for `binary`.
    ProbeBinary { binary: String },
}

/// An action as the contracts see it.
pub enum CheckActionView {
    CreateDirAll { path: Seq<char> },
    Run { command: ResolvedCommandView },
    ProbeDir { path: Seq<char> },
    ProbeExists { path: Seq<char> },
    Symlink { original: Seq<char>, link: Seq<char> },
    RemoveFile { path: Seq<char> },
    ProbeBinary { binary: Seq<char> },
}

impl View for CheckAction {
    type V = CheckActionView;

    open spec fn view(&self) -> CheckActionView {
        match self {
            CheckAction::CreateDirAll { path } => CheckActionView::CreateDirAll { path: path@ },
            CheckAction::Run { command } => CheckActionView::Run { command: command@ },
            CheckAction::ProbeDir { path } => CheckActionView::ProbeDir { path: path@ },
            CheckAction::ProbeExists { path } => CheckActionView::ProbeExists { path: path@ },
            CheckAction::Symlink { original, link } => CheckActionView::Symlink {
                original: original@,
                link: link@,
            },
            CheckAction::RemoveFile { path } => CheckActionView::RemoveFile { path: path@ },
            CheckAction::ProbeBinary { binary } => CheckActionView::ProbeBinary {
                binary: binary@,
            },
        }
    }
}

/// How what a check asked for went.
#[derive(Debug, PartialEq, Eq)]
pub enum CheckEvent {
    /// A change to the file system was made, or the operating system said
    /// why not.
    Done(Result<(), String>),
    /// A program was run, or the operating system said why it was not
    /// started.
    Ran(Result<ProcessOutput, String>),
    /// What was looked for is there, or is not.
    Found(bool),
    /// What lies under a program's name in each directory of the search
    /// path.
    Probed(Vec<FileProbe>),
}

/// A check after a step: still under way, with what it asks for next, or at
/// its end, with what it found.
#[derive(Debug)]
pub enum CheckStep {
    Pending { run: CheckRun, action: CheckAction },
    Finished { result: Result<CheckOutcome, CommandError> },
}

/// A step as the contracts see it.
pub enum CheckStepView {
    Pending { run: CheckRunView, action: CheckActionView },
    Finished { result: Result<CheckOutcomeView, CommandErrorView> },
}

impl View for CheckStep {
    type V = CheckStepView;

    open spec fn view(&self) -> CheckStepView {
        match self {
            CheckStep::Pending { run, action } => CheckStepView::Pending {
                run: run@,
                action: action@,
            },
            CheckStep::Finished { result } => CheckStepView::Finished {
                result: outcome_view(*result),
            },
        }
    }
}

/// The lock file of the scratch database at `db_path`.
pub open spec fn lock_file(db_path: Seq<char>) -> Seq<char> {
    joined(db_path, "db.lck"@)
}

/// The `local` entry of the database at `db_path`.
pub open spec fn local_entry(db_path: Seq<char>) -> Seq<char> {
    joined(db_path, "local"@)
}

/// What a check that stands at `run` asks for.
pub open spec fn pending(run: CheckRunView) -> CheckActionView {
    let db_path = run.plan.db_path;
    match run.stage {
        StageView::CreateScratch => CheckActionView::CreateDirAll { path: db_path },
        StageView::AskDbPath => CheckActionView::Run { command: db_path_query() },
        StageView::ProbeDbDir { named } => CheckActionView::ProbeDir { path: named },
        StageView::ProbeLocal { real_db } => CheckActionView::ProbeExists {
            path: local_entry(db_path),
        },
        StageView::LinkLocal { real_db } => CheckActionView::Symlink {
            original: local_entry(real_db),
            link: local_entry(db_path),
        },
        StageView::Sync => CheckActionView::Run { command: sync(db_path) },
        StageView::Query => CheckActionView::Run { command: query(db_path) },
        StageView::Unlock { listed } => CheckActionView::RemoveFile { path: lock_file(db_path) },
        StageView::Custom { command } => CheckActionView::Run { command },
        StageView::ProbeHelper { candidate, official } => CheckActionView::ProbeBinary {
            binary: candidate.binary_name(),
        },
        StageView::QueryAur { helper, official } => CheckActionView::Run {
            command: aur_query(helper),
        },
    }
}

/// A check after a step, before it is said what it asks for next.
pub enum Next {
    Goes { run: CheckRunView },
    Ends { result: Result<CheckOutcomeView, CommandErrorView> },
}

/// The step that `next` amounts to.
pub open spec fn step_of(next: Next) -> CheckStepView {
    match next {
        Next::Goes { run } => CheckStepView::Pending { run, action: pending(run) },
        Next::Ends { result } => CheckStepView::Finished { result },
    }
}

/// A check that goes by `plan` and stands at `stage`.
pub open spec fn goes(plan: CheckPlanView, stage: StageView) -> Next {
    Next::Goes { run: CheckRunView { plan, stage } }
}

/// A check that found `official` and `aur` with `helper`.
pub open spec fn found(
    official: Seq<PackageUpdateView>,
    aur: Seq<PackageUpdateView>,
    helper: Option<DetectedAurHelper>,
) -> Next {
    Next::Ends {
        result: Ok(CheckOutcomeView { snapshot: UpdateSnapshotView { official, aur }, helper }),
    }
}

/// A check that failed with `error`.
pub open spec fn fails(error: CommandErrorView) -> Next {
    Next::Ends { result: Err(error) }
}

/// What follows once the official repositories are done with and came to
/// `official`. Where the user repository is switched off or no helper is to
/// be looked for, the check ends there, with no helper and no updates from
/// that side. Else the helper that the mode names is looked for, and paru
/// first where the mode names none.
pub open spec fn after_official(plan: CheckPlanView, official: Seq<PackageUpdateView>) -> Next {
    if !plan.enable_aur || plan.mode == AurHelperMode::Off {
        found(official, Seq::empty(), None)
    } else {
        goes(
            plan,
            StageView::ProbeHelper {
                candidate: if plan.mode == AurHelperMode::Yay {
                    DetectedAurHelper::Yay
                } else {
                    DetectedAurHelper::Paru
                },
                official,
            },
        )
    }
}

/// What is said of a scratch directory that could not be made.
pub open spec fn create_context(db_path: Seq<char>) -> Seq<char> {
    "create temp pacman db at "@ + db_path
}

/// What is said of a link that could not be made.
pub open spec fn link_context(original: Seq<char>, link: Seq<char>) -> Seq<char> {
    "symlink local db from "@ + original + " to "@ + link
}

/// The failure of an operation on the file system, for which the operating
/// system gave `reason`.
pub open spec fn io_failure(context: Seq<char>, reason: Seq<char>) -> Next {
    fails(CommandErrorView::Io { context, source: reason })
}

/// The codes with which a command that only has to work ends well.
pub open spec fn plain_codes() -> Seq<i32> {
    seq![0i32]
}

/// The codes with which a listing of the package manager or of a helper
/// ends well: 0 where it lists updates, 1 where there are none.
pub open spec fn listing_codes() -> Seq<i32> {
    seq![0i32, 1i32]
}

/// The codes with which a configured check ends well: 0 where it lists
/// updates, 2 where there are none.
pub open spec fn custom_codes() -> Seq<i32> {
    seq![0i32, 2i32]
}

/// After the scratch directory was to be made: the package manager is
/// asked where its database lies, or the check fails.
pub open spec fn scratch_made(plan: CheckPlanView, done: Result<(), String>) -> Next {
    match done {
        Ok(_) => goes(plan, StageView::AskDbPath),
        Err(reason) => io_failure(create_context(plan.db_path), reason@),
    }
}

/// After the package manager was asked where its database lies. The first
/// line of its answer that is not blank is looked at more closely; without
/// such a line, or where the question failed, the database is taken to lie
/// at its usual place.
pub open spec fn db_path_asked(plan: CheckPlanView, spawned: Result<ProcessOutput, String>) -> Next {
    match run_result(db_path_query(), plain_codes(), spawned) {
        Ok(output) => match first_filled(lines(output.stdout)) {
            Some(named) => goes(plan, StageView::ProbeDbDir { named }),
            None => goes(plan, StageView::ProbeLocal { real_db: default_db_path() }),
        },
        Err(_) => goes(plan, StageView::ProbeLocal { real_db: default_db_path() }),
    }
}

/// After the place that the package manager named was looked at: it is
/// where the database lies if it is a directory, else the usual place is.
pub open spec fn db_dir_probed(plan: CheckPlanView, named: Seq<char>, is_dir: bool) -> Next {
    goes(
        plan,
        StageView::ProbeLocal {
            real_db: if is_dir {
                named
            } else {
                default_db_path()
            },
        },
    )
}

/// After the `local` entry of the scratch database was looked for: it is
/// linked where there is none, and left alone where there is one.
pub open spec fn local_probed(plan: CheckPlanView, real_db: Seq<char>, exists: bool) -> Next {
    if exists {
        goes(plan, StageView::Sync)
    } else {
        goes(plan, StageView::LinkLocal { real_db })
    }
}

/// After the `local` entry was to be linked: the scratch database is
/// brought up to date, or the check fails.
pub open spec fn local_linked(
    plan: CheckPlanView,
    real_db: Seq<char>,
    done: Result<(), String>,
) -> Next {
    match done {
        Ok(_) => goes(plan, StageView::Sync),
        Err(reason) => io_failure(
            link_context(local_entry(real_db), local_entry(plan.db_path)),
            reason@,
        ),
    }
}

/// After the scratch database was to be brought up to date: the updates
/// are listed, or the lock file is removed before the check fails.
pub open spec fn synced(plan: CheckPlanView, spawned: Result<ProcessOutput, String>) -> Next {
    match run_result(sync(plan.db_path), plain_codes(), spawned) {
        Ok(_) => goes(plan, StageView::Query),
        Err(error) => goes(plan, StageView::Unlock { listed: Err(error) }),
    }
}

/// After the updates of the official repositories were to be listed: the
/// lock file is removed, whether that worked or not. What was listed is read
/// without its blank lines and its notes.
pub open spec fn queried(plan: CheckPlanView, spawned: Result<ProcessOutput, String>) -> Next {
    match run_result(query(plan.db_path), listing_codes(), spawned) {
        Ok(output) => goes(
            plan,
            StageView::Unlock {
                listed: Ok(parse_lines(filtered(output.stdout), UpdateSource::Official)),
            },
        ),
        Err(error) => goes(plan, StageView::Unlock { listed: Err(error) }),
    }
}

/// After the lock file was to be removed, which may have worked or not:
/// the check fails where the official repositories could not be listed, and
/// goes on to the user repository where they could.
pub open spec fn unlocked(
    plan: CheckPlanView,
    listed: Result<Seq<PackageUpdateView>, CommandErrorView>,
) -> Next {
    match listed {
        Ok(official) => after_official(plan, official),
        Err(error) => fails(error),
    }
}

/// After the configured check was run: what it listed is read, or the
/// check fails.
pub open spec fn custom_ran(
    plan: CheckPlanView,
    command: ResolvedCommandView,
    spawned: Result<ProcessOutput, String>,
) -> Next {
    match run_result(command, custom_codes(), spawned) {
        Ok(output) => after_official(plan, parse_lines(output.stdout, UpdateSource::Official)),
        Err(error) => fails(error),
    }
}

/// After a helper was looked for: it is asked where it was found. Where
/// it was not, yay is looked for if that was paru and the mode names no
/// helper; else the check ends without a helper.
pub open spec fn helper_probed(
    plan: CheckPlanView,
    candidate: DetectedAurHelper,
    official: Seq<PackageUpdateView>,
    probes: Seq<FileProbe>,
) -> Next {
    if present(probes) {
        goes(plan, StageView::QueryAur { helper: candidate, official })
    } else if plan.mode == AurHelperMode::Auto && candidate == DetectedAurHelper::Paru {
        goes(plan, StageView::ProbeHelper { candidate: DetectedAurHelper::Yay, official })
    } else {
        found(official, Seq::empty(), None)
    }
}

/// After the helper was asked: the check ends, with what both sides
/// listed or with the helper's failure.
pub open spec fn aur_queried(
    helper: DetectedAurHelper,
    official: Seq<PackageUpdateView>,
    spawned: Result<ProcessOutput, String>,
) -> Next {
    match run_result(aur_query(helper), listing_codes(), spawned) {
        Ok(output) => found(official, parse_lines(output.stdout, UpdateSource::Aur), Some(helper)),
        Err(error) => fails(error),
    }
}

/// What follows where the check at `run` is told `event`.
///
/// The built-in check of the official repositories makes the scratch
/// directory, asks where the package database lies, links its `local` entry
/// into the scratch directory unless one is there, brings the scratch
/// database up to date, lists the updates and removes the lock file. A
/// configured check runs its command instead. Then the helper is looked for
/// and asked. The first failure ends the check, but the lock file is removed
/// before a failure of the update or of the listing does. An event that does
/// not answer what the check asked for changes nothing.
pub open spec fn advanced(run: CheckRunView, event: CheckEvent) -> Next {
    let plan = run.plan;
    match (run.stage, event) {
        (StageView::CreateScratch, CheckEvent::Done(done)) => scratch_made(plan, done),
        (StageView::AskDbPath, CheckEvent::Ran(spawned)) => db_path_asked(plan, spawned),
        (StageView::ProbeDbDir { named }, CheckEvent::Found(is_dir)) => db_dir_probed(
            plan,
            named,
            is_dir,
        ),
        (StageView::ProbeLocal { real_db }, CheckEvent::Found(exists)) => local_probed(
            plan,
            real_db,
            exists,
        ),
        (StageView::LinkLocal { real_db }, CheckEvent::Done(done)) => local_linked(
            plan,
            real_db,
            done,
        ),
        (StageView::Sync, CheckEvent::Ran(spawned)) => synced(plan, spawned),
        (StageView::Query, CheckEvent::Ran(spawned)) => queried(plan, spawned),
        (StageView::Unlock { listed }, CheckEvent::Done(_)) => unlocked(plan, listed),
        (StageView::Custom { command }, CheckEvent::Ran(spawned)) => custom_ran(
            plan,
            command,
            spawned,
        ),
        (StageView::ProbeHelper { candidate, official }, CheckEvent::Probed(probes)) =>
            helper_probed(plan, candidate, official, probes@),
        (StageView::QueryAur { helper, official }, CheckEvent::Ran(spawned)) => aur_queried(
            helper,
            official,
            spawned,
        ),
        _ => Next::Goes { run },
    }
}

/// How a check begins: a configured check with its command, which may be
/// one that cannot be taken apart, and the built-in one with the scratch
/// directory.
pub open spec fn begun(config: EffectiveConfigView, env: CheckEnv) -> Next {
    let plan = CheckPlanView {
        db_path: scratch_path(
            env.checkupdates_db.deep_view(),
            env.tmpdir.deep_view(),
            env.uid.deep_view(),
        ),
        enable_aur: config.enable_aur,
        mode: config.aur_helper,
    };
    if config.official_check_cmd != "auto"@ {
        match custom_check(config.official_check_cmd) {
            Ok(command) => goes(plan, StageView::Custom { command }),
            Err(error) => fails(error),
        }
    } else {
        goes(plan, StageView::CreateScratch)
    }
}

/// The end of a check that found `official` and `aur` with `helper`.
fn finished(
    official: Vec<PackageUpdate>,
    aur: Vec<PackageUpdate>,
    helper: Option<DetectedAurHelper>,
) -> (step: CheckStep)
    ensures
        step@ == step_of(found(official.deep_view(), aur.deep_view(), helper)),
{
    CheckStep::Finished {
        result: Ok(CheckOutcome { snapshot: UpdateSnapshot { official, aur }, helper }),
    }
}

/// The end of a check that found `official` and turned to no helper.
fn finished_without_helper(official: Vec<PackageUpdate>) -> (step: CheckStep)
    ensures
        step@ == step_of(found(official.deep_view(), Seq::empty(), None)),
{
    let none: Vec<PackageUpdate> = Vec::new();
    assert(none.deep_view() =~= Seq::<PackageUpdateView>::empty());
    finished(official, none, None)
}

/// The end of a check that failed with `error`.
fn failed(error: CommandError) -> (step: CheckStep)
    ensures
        step@ == step_of(fails(error@)),
{
    CheckStep::Finished { result: Err(error) }
}

/// The codes with which a command that only has to work ends well.
fn plain() -> (codes: [i32; 1])
    ensures
        codes@ == plain_codes(),
{
    let codes: [i32; 1] = [0];
    assert(codes@ =~= plain_codes());
    codes
}

/// The codes with which a listing ends well.
fn listing() -> (codes: [i32; 2])
    ensures
        codes@ == listing_codes(),
{
    let codes: [i32; 2] = [0, 1];
    assert(codes@ =~= listing_codes());
    codes
}

/// The codes with which a configured check ends well.
fn custom() -> (codes: [i32; 2])
    ensures
        codes@ == custom_codes(),
{
    let codes: [i32; 2] = [0, 2];
    assert(codes@ =~= custom_codes());
    codes
}

/// A copy of a list of words.
fn clone_words(words: &Vec<String>) -> (r: Vec<String>)
    ensures
        r.deep_view() == words.deep_view(),
{
    let mut r: Vec<String> = Vec::new();
    let mut i: usize = 0;
    while i < words.len()
        invariant
            i <= words.len(),
            r.len() == i,
            forall|j: int| 0 <= j < i ==> (#[trigger] r@[j])@ == words@[j]@,
        decreases words.len() - i,
    {
        r.push(words[i].clone());
        i += 1;
    }
    assert(r.deep_view() =~= words.deep_view());
    r
}

/// The text of `value`, where it holds one.
fn option_str(value: &Option<String>) -> (r: Option<&str>)
    ensures
        r.deep_view() == value.deep_view(),
{
    match value {
        Some(text) => Some(text.as_str()),
        None => None,
    }
}

impl CheckRun {
    /// What the check asks for.
    pub fn action(&self) -> (action: CheckAction)
        ensures
            action@ == pending(self@),
    {
        let db_path = self.plan.db_path.as_str();
        match &self.stage {
            Stage::CreateScratch => CheckAction::CreateDirAll { path: self.plan.db_path.clone() },
            Stage::AskDbPath => CheckAction::Run { command: db_path_query_command() },
            Stage::ProbeDbDir { named } => CheckAction::ProbeDir { path: named.clone() },
            Stage::ProbeLocal { real_db } => CheckAction::ProbeExists {
                path: path_join(db_path, "local"),
            },
            Stage::LinkLocal { real_db } => CheckAction::Symlink {
                original: path_join(real_db.as_str(), "local"),
                link: path_join(db_path, "local"),
            },
            Stage::Sync => CheckAction::Run { command: sync_command(db_path) },
            Stage::Query => CheckAction::Run { command: query_command(db_path) },
            Stage::Unlock { listed } => CheckAction::RemoveFile {
                path: path_join(db_path, "db.lck"),
            },
            Stage::Custom { command } => CheckAction::Run {
                command: ResolvedCommand {
                    program: command.program.clone(),
                    args: clone_words(&command.args),
                },
            },
            Stage::ProbeHelper { candidate, official } => CheckAction::ProbeBinary {
                binary: String::from_str(candidate.binary()),
            },
            Stage::QueryAur { helper, official } => CheckAction::Run {
                command: aur_query_command(*helper),
            },
        }
    }

    /// The check with what it asks for.
    fn step(self) -> (step: CheckStep)
        ensures
            step@ == step_of(Next::Goes { run: self@ }),
    {
        let action = self.action();
        CheckStep::Pending { run: self, action }
    }

    /// Takes the check one step on: `event` says how what it asked for
    /// went. An event that does not answer that changes nothing, and the
    /// check asks again.
    pub fn advance(self, event: CheckEvent) -> (step: CheckStep)
        ensures
            step@ == step_of(advanced(self@, event)),
    {
        let plan = self.plan;
        match (self.stage, event) {
            (Stage::CreateScratch, CheckEvent::Done(done)) => plan.scratch_made(done),
            (Stage::AskDbPath, CheckEvent::Ran(spawned)) => plan.db_path_asked(spawned),
            (Stage::ProbeDbDir { named }, CheckEvent::Found(is_dir)) => plan.db_dir_probed(
                named,
                is_dir,
            ),
            (Stage::ProbeLocal { real_db }, CheckEvent::Found(exists)) => plan.local_probed(
                real_db,
                exists,
            ),
            (Stage::LinkLocal { real_db }, CheckEvent::Done(done)) => plan.local_linked(
                real_db,
                done,
            ),
            (Stage::Sync, CheckEvent::Ran(spawned)) => plan.synced(spawned),
            (Stage::Query, CheckEvent::Ran(spawned)) => plan.queried(spawned),
            (Stage::Unlock { listed }, CheckEvent::Done(_)) => plan.unlocked(listed),
            (Stage::Custom { command }, CheckEvent::Ran(spawned)) => plan.custom_ran(
                command,
                spawned,
            ),
            (Stage::ProbeHelper { candidate, official }, CheckEvent::Probed(probes)) =>
                plan.helper_probed(candidate, official, probes),
            (Stage::QueryAur { helper, official }, CheckEvent::Ran(spawned)) => aur_queried_step(
                helper,
                official,
                spawned,
            ),
            (stage, _) => plan.at(stage),
        }
    }
}

impl CheckPlan {
    /// The check at `stage`, with what it asks for there.
    fn at(self, stage: Stage) -> (step: CheckStep)
        ensures
            step@ == step_of(goes(self@, stage@)),
    {
        CheckRun { plan: self, stage }.step()
    }

    /// What follows once the official repositories came to `official`.
    fn after_official(self, official: Vec<PackageUpdate>) -> (step: CheckStep)
        ensures
            step@ == step_of(after_official(self@, official.deep_view())),
    {
        if !self.enable_aur {
            return finished_without_helper(official);
        }
        let candidate = match self.mode {
            AurHelperMode::Off => {
                return finished_without_helper(official);
            },
            AurHelperMode::Yay => DetectedAurHelper::Yay,
            _ => DetectedAurHelper::Paru,
        };
        self.at(Stage::ProbeHelper { candidate, official })
    }

    /// What follows once the scratch directory was to be made.
    fn scratch_made(self, done: Result<(), String>) -> (step: CheckStep)
        ensures
            step@ == step_of(scratch_made(self@, done)),
    {
        match done {
            Ok(_) => self.at(Stage::AskDbPath),
            Err(reason) => {
                let mut context = String::from_str("create temp pacman db at ");
                context.append(self.db_path.as_str());
                failed(CommandError::Io { context, source: reason })
            },
        }
    }

    /// What follows once the package manager was asked for its database.
    fn db_path_asked(self, spawned: Result<ProcessOutput, String>) -> (step: CheckStep)
        ensures
            step@ == step_of(db_path_asked(self@, spawned)),
    {
        let asked = db_path_query_command();
        let named = match run_capture(&asked, plain().as_slice(), spawned) {
            Ok(output) => reported_db_path(output.stdout.as_str()),
            Err(_) => None,
        };
        match named {
            Some(named) => self.at(Stage::ProbeDbDir { named }),
            None => self.at(Stage::ProbeLocal { real_db: String::from_str("/var/lib/pacman") }),
        }
    }

    /// What follows once the place `named` was looked at.
    fn db_dir_probed(self, named: String, is_dir: bool) -> (step: CheckStep)
        ensures
            step@ == step_of(db_dir_probed(self@, named@, is_dir)),
    {
        let real_db = if is_dir {
            named
        } else {
            String::from_str("/var/lib/pacman")
        };
        self.at(Stage::ProbeLocal { real_db })
    }

    /// What follows once the `local` entry was looked for.
    fn local_probed(self, real_db: String, exists: bool) -> (step: CheckStep)
        ensures
            step@ == step_of(local_probed(self@, real_db@, exists)),
    {
        if exists {
            self.at(Stage::Sync)
        } else {
            self.at(Stage::LinkLocal { real_db })
        }
    }

    /// What follows once the `local` entry was to be linked.
    fn local_linked(self, real_db: String, done: Result<(), String>) -> (step: CheckStep)
        ensures
            step@ == step_of(local_linked(self@, real_db@, done)),
    {
        match done {
            Ok(_) => self.at(Stage::Sync),
            Err(reason) => {
                let mut context = String::from_str("symlink local db from ");
                context.append(path_join(real_db.as_str(), "local").as_str());
                context.append(" to ");
                context.append(path_join(self.db_path.as_str(), "local").as_str());
                failed(CommandError::Io { context, source: reason })
            },
        }
    }

    /// What follows once the scratch database was to be brought up to date.
    fn synced(self, spawned: Result<ProcessOutput, String>) -> (step: CheckStep)
        ensures
            step@ == step_of(synced(self@, spawned)),
    {
        let command = sync_command(self.db_path.as_str());
        match run_capture(&command, plain().as_slice(), spawned) {
            Ok(_) => self.at(Stage::Query),
            Err(error) => self.at(Stage::Unlock { listed: Err(error) }),
        }
    }

    /// What follows once the official repositories were to be listed.
    fn queried(self, spawned: Result<ProcessOutput, String>) -> (step: CheckStep)
        ensures
            step@ == step_of(queried(self@, spawned)),
    {
        let command = query_command(self.db_path.as_str());
        match run_capture(&command, listing().as_slice(), spawned) {
            Ok(output) => {
                let listing = filter_pacman_qu_output(output.stdout.as_str());
                let updates = parse_update_lines(listing.as_str(), UpdateSource::Official);
                self.at(Stage::Unlock { listed: Ok(updates) })
            },
            Err(error) => self.at(Stage::Unlock { listed: Err(error) }),
        }
    }

    /// What follows once the lock file was to be removed.
    fn unlocked(self, listed: Result<Vec<PackageUpdate>, CommandError>) -> (step: CheckStep)
        ensures
            step@ == step_of(
                unlocked(
                    self@,
                    match listed {
                        Ok(updates) => Ok(updates.deep_view()),
                        Err(error) => Err(error@),
                    },
                ),
            ),
    {
        match listed {
            Ok(official) => self.after_official(official),
            Err(error) => failed(error),
        }
    }

    /// What follows once the configured check was run.
    fn custom_ran(self, command: ResolvedCommand, spawned: Result<ProcessOutput, String>) -> (step:
        CheckStep)
        ensures
            step@ == step_of(custom_ran(self@, command@, spawned)),
    {
        match run_capture(&command, custom().as_slice(), spawned) {
            Ok(output) => {
                let updates = parse_update_lines(output.stdout.as_str(), UpdateSource::Official);
                self.after_official(updates)
            },
            Err(error) => failed(error),
        }
    }

    /// What follows once the helper `candidate` was looked for.
    fn helper_probed(
        self,
        candidate: DetectedAurHelper,
        official: Vec<PackageUpdate>,
        probes: Vec<FileProbe>,
    ) -> (step: CheckStep)
        ensures
            step@ == step_of(helper_probed(self@, candidate, official.deep_view(), probes@)),
    {
        if has_binary(&probes) {
            self.at(Stage::QueryAur { helper: candidate, official })
        } else if self.mode == AurHelperMode::Auto && candidate == DetectedAurHelper::Paru {
            self.at(Stage::ProbeHelper { candidate: DetectedAurHelper::Yay, official })
        } else {
            finished_without_helper(official)
        }
    }
}

/// What follows once the helper was asked for its listing.
fn aur_queried_step(
    helper: DetectedAurHelper,
    official: Vec<PackageUpdate>,
    spawned: Result<ProcessOutput, String>,
) -> (step: CheckStep)
    ensures
        step@ == step_of(aur_queried(helper, official.deep_view(), spawned)),
{
    let command = aur_query_command(helper);
    match run_capture(&command, listing().as_slice(), spawned) {
        Ok(output) => {
            let updates = parse_update_lines(output.stdout.as_str(), UpdateSource::Aur);
            finished(official, updates, Some(helper))
        },
        Err(error) => failed(error),
    }
}

/// Begins a check for updates: first of the official repositories, by the
/// configured command or, with `auto`, by a scratch copy of the package
/// database; then of the user repository, where that is enabled and a helper
/// is found. The step that comes back says what is to be done first;
/// `CheckRun::advance` goes on from there. A configured command that cannot
/// be taken apart ends the check at once, with `InvalidCommand`.
pub fn perform_check(config: &EffectiveConfig, env: &CheckEnv) -> (step: CheckStep)
    ensures
        step@ == step_of(begun(config@, *env)),
{
    let plan = CheckPlan {
        db_path: checkupdates_db_path_from_inputs(
            option_str(&env.checkupdates_db),
            option_str(&env.tmpdir),
            option_str(&env.uid),
        ),
        enable_aur: config.enable_aur,
        mode: config.aur_helper,
    };
    if !same_text(config.official_check_cmd.as_str(), "auto") {
        match custom_check_command(config.official_check_cmd.as_str()) {
            Ok(command) => plan.at(Stage::Custom { command }),
            Err(error) => failed(error),
        }
    } else {
        plan.at(Stage::CreateScratch)
    }
}

/// Whether a check at `stage` has the scratch database locked.
pub open spec fn holds_lock(stage: StageView) -> bool {
    stage is Sync || stage is Query
}

/// The lock file is removed on every way out. Whatever a check that has
/// the scratch database locked is told, it does not end there: it keeps the
/// lock, or asks for the lock file to be removed.
pub proof fn lemma_lock_is_released(run: CheckRunView, event: CheckEvent)
    requires
        holds_lock(run.stage),
    ensures
        advanced(run, event) is Goes,
        holds_lock(advanced(run, event)->run.stage) || (advanced(run, event)->run.stage is Unlock
            && pending(advanced(run, event)->run) == (CheckActionView::RemoveFile {
            path: lock_file(run.plan.db_path),
        })),
{
}

/// A `local` entry that is there is not made again: where the scratch
/// database has one, the check goes straight on to bring the database up to
/// date, and a link is only ever asked for after word that none is there.
pub proof fn lemma_present_link_is_kept(run: CheckRunView, event: CheckEvent)
    ensures
        run.stage is ProbeLocal && event == CheckEvent::Found(true) ==> advanced(run, event)
            == goes(run.plan, StageView::Sync),
        advanced(run, event) is Goes && advanced(run, event)->run.stage is LinkLocal ==> run.stage
            is LinkLocal || (run.stage is ProbeLocal && event == CheckEvent::Found(false)),
{
}

/// The number of answers after which a check at `stage` has ended at the
/// latest.
pub open spec fn steps_left(stage: StageView) -> nat {
    match stage {
        StageView::CreateScratch => 11,
        StageView::AskDbPath => 10,
        StageView::ProbeDbDir { .. } => 9,
        StageView::ProbeLocal { .. } => 8,
        StageView::LinkLocal { .. } => 7,
        StageView::Sync => 6,
        StageView::Query => 5,
        StageView::Unlock { .. } => 4,
        StageView::Custom { .. } => 4,
        StageView::ProbeHelper { candidate, .. } => if candidate == DetectedAurHelper::Paru {
            3
        } else {
            2
        },
        StageView::QueryAur { .. } => 1,
    }
}

/// Every check ends. An answer leaves the check where it was, if it
/// answers nothing that was asked, or ends it, or takes it to a stage that
/// is nearer to the end.
pub proof fn lemma_check_ends(run: CheckRunView, event: CheckEvent)
    ensures
        advanced(run, event) is Goes ==> advanced(run, event)->run == run || steps_left(
            advanced(run, event)->run.stage,
        ) < steps_left(run.stage),
{
}

/// The user repository comes after the official ones, and only where they
/// were listed: a check does not turn to the helper before it knows the
/// updates of the official repositories, and a failure on the official side
/// ends it.
pub proof fn lemma_official_first(run: CheckRunView, event: CheckEvent)
    ensures
        advanced(run, event) is Goes && advanced(run, event)->run.stage is ProbeHelper ==> {
            ||| run.stage is ProbeHelper
            ||| run.stage matches StageView::Unlock { listed } && listed is Ok
            ||| run.stage is Custom
        },
        run.stage matches StageView::Unlock { listed } ==> (listed is Err && event is Done
            ==> advanced(run, event) == fails(listed->Err_0)),
{
}

/// Whether `event` answers what `action` asks for.
pub open spec fn answers(action: CheckActionView, event: CheckEvent) -> bool {
    match action {
        CheckActionView::CreateDirAll { .. } => event is Done,
        CheckActionView::Symlink { .. } => event is Done,
        CheckActionView::RemoveFile { .. } => event is Done,
        CheckActionView::Run { .. } => event is Ran,
        CheckActionView::ProbeDir { .. } => event is Found,
        CheckActionView::ProbeExists { .. } => event is Found,
        CheckActionView::ProbeBinary { .. } => event is Probed,
    }
}

/// Where a check stands once it was told `events`, one after the other. A
/// check that has ended stays as it ended.
pub open spec fn told(next: Next, events: Seq<CheckEvent>) -> Next
    decreases events.len(),
{
    if events.len() == 0 {
        next
    } else {
        match told(next, events.drop_last()) {
            Next::Goes { run } => advanced(run, events.last()),
            ended => ended,
        }
    }
}

/// Whether each of `events` answers what the check asked for when it was
/// told it.
pub open spec fn answered(next: Next, events: Seq<CheckEvent>) -> bool
    decreases events.len(),
{
    events.len() > 0 ==> {
        &&& answered(next, events.drop_last())
        &&& told(next, events.drop_last()) matches Next::Goes { run } ==> answers(
            pending(run),
            events.last(),
        )
    }
}

/// An answer to what a check asked for takes the check nearer to its end,
/// or ends it.
pub proof fn lemma_answer_takes_on(run: CheckRunView, event: CheckEvent)
    requires
        answers(pending(run), event),
    ensures
        advanced(run, event) is Goes ==> steps_left(advanced(run, event)->run.stage) < steps_left(
            run.stage,
        ),
{
}

/// A check that gets an answer to whatever it asks for ends, and does so
/// after no more answers than its stage has steps left.
pub proof fn lemma_answered_check_ends(run: CheckRunView, events: Seq<CheckEvent>)
    requires
        answered(Next::Goes { run }, events),
    ensures
        told(Next::Goes { run }, events) is Goes ==> steps_left(
            told(Next::Goes { run }, events)->run.stage,
        ) + events.len() <= steps_left(run.stage),
        events.len() >= steps_left(run.stage) ==> told(Next::Goes { run }, events) is Ends,
    decreases events.len(),
{
    if events.len() > 0 {
        lemma_answered_check_ends(run, events.drop_last());
        match told(Next::Goes { run }, events.drop_last()) {
            Next::Goes { run: before } => {
                lemma_answer_takes_on(before, events.last());
            },
            _ => {},
        }
    }
}

} // verus!
