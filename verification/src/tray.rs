//! What the tray shows of the published state, and when a change of the
//! count is worth a notification.

use crate::commands::DetectedAurHelper;
use crate::scheduler::{SchedulerUpdate, SchedulerUpdateView};
use crate::state::{AppState, AppStateView, Status, UpdateSnapshot, UpdateSnapshotView};
use crate::text::{chars_of, decimal, push_decimal, string_of};
use vstd::prelude::*;
use vstd::string::StringExecFns;

verus! {

/// The number of characters of an error that the tray shows.
pub const ERROR_WIDTH: usize = 72;

/// An error cut down to what the tray shows of it: all of it where it has
/// no more than `ERROR_WIDTH` characters, else that many and three dots.
pub open spec fn truncated(message: Seq<char>) -> Seq<char> {
    if message.len() <= ERROR_WIDTH {
        message
    } else {
        message.take(ERROR_WIDTH as int) + "..."@
    }
}

/// An error cut down to what the tray shows of it.
pub fn truncate_error(message: &str) -> (text: String)
    ensures
        text@ == truncated(message@),
{
    let v = chars_of(message);
    if v.len() <= ERROR_WIDTH {
        String::from_str(message)
    } else {
        let mut text = string_of(&v, 0, ERROR_WIDTH);
        text.append("...");
        text
    }
}

/// The status in words.
pub open spec fn status_words(state: AppStateView) -> Seq<char> {
    match state.status {
        Status::Checking => "checking"@,
        Status::UpToDate => "up to date"@,
        Status::UpdatesAvailable => decimal(state.total_count) + " updates available"@,
        Status::Error => "error ("@ + match state.last_error {
            Some(message) => truncated(message),
            None => "unknown error"@,
        } + ")"@,
    }
}

/// The status in words, as the tray shows it.
pub fn status_text(state: &AppState) -> (text: String)
    ensures
        text@ == status_words(state@),
{
    match state.status {
        Status::Checking => String::from_str("checking"),
        Status::UpToDate => String::from_str("up to date"),
        Status::UpdatesAvailable => {
            let mut text = String::new();
            push_decimal(&mut text, state.total_count as u64);
            text.append(" updates available");
            assert(text@ =~= decimal(state.total_count as nat) + " updates available"@);
            text
        },
        Status::Error => {
            let mut text = String::from_str("error (");
            match &state.last_error {
                Some(message) => {
                    text.append(truncate_error(message.as_str()).as_str());
                },
                None => {
                    text.append("unknown error");
                },
            }
            text.append(")");
            text
        },
    }
}

/// The entry of the menu that gives the status.
pub fn status_label(state: &AppState) -> (label: String)
    ensures
        label@ == "Status: "@ + status_words(state@),
{
    let mut label = String::from_str("Status: ");
    label.append(status_text(state).as_str());
    label
}

/// The entry of the menu that counts the updates of the official
/// repositories.
pub fn official_label(state: &AppState) -> (label: String)
    ensures
        label@ == "Official updates: "@ + decimal(state@.official_count),
{
    let mut label = String::from_str("Official updates: ");
    push_decimal(&mut label, state.official_count as u64);
    label
}

/// The entry of the menu that counts the updates of the user repository.
pub fn aur_label(state: &AppState) -> (label: String)
    ensures
        label@ == "AUR updates: "@ + decimal(state@.aur_count),
{
    let mut label = String::from_str("AUR updates: ");
    push_decimal(&mut label, state.aur_count as u64);
    label
}

/// The entry of the menu that gives the time of the last check, where
/// `checked` is that time in words, if there was a check.
pub fn checked_label(checked: Option<&str>) -> (label: String)
    ensures
        label@ == "Last check: "@ + match checked {
            Some(time) => time@,
            None => "never"@,
        },
{
    let mut label = String::from_str("Last check: ");
    match checked {
        Some(time) => label.append(time),
        None => label.append("never"),
    }
    label
}

/// What the tray keeps between two publications.
#[derive(Debug)]
pub struct RuntimeState {
    /// The count of pending updates that the last finished check gave.
    pub previous_total_count: Option<usize>,
    /// The helper in use.
    pub helper: Option<DetectedAurHelper>,
    /// What the last check that ended well found.
    pub snapshot: Option<UpdateSnapshot>,
}

/// What the tray keeps as the contracts see it.
pub struct RuntimeStateView {
    pub previous_total_count: Option<usize>,
    pub helper: Option<DetectedAurHelper>,
    pub snapshot: Option<UpdateSnapshotView>,
}

impl View for RuntimeState {
    type V = RuntimeStateView;

    open spec fn view(&self) -> RuntimeStateView {
        RuntimeStateView {
            previous_total_count: self.previous_total_count,
            helper: self.helper,
            snapshot: self.snapshot.deep_view(),
        }
    }
}

impl RuntimeStateView {
    /// The two counts to tell the user of when `state` is published: the
    /// count went from the first to the second. There is something to tell
    /// where notifications are wanted, the state is that of a finished check,
    /// and its count differs from the one before.
    pub open spec fn change(self, state: AppStateView, notify: bool) -> Option<(usize, usize)> {
        if notify && state.status != Status::Checking && self.previous_total_count is Some
            && self.previous_total_count->0 != state.total_count {
            Some((self.previous_total_count->0, state.total_count as usize))
        } else {
            None
        }
    }

    /// What the tray keeps after `update` was published. The helper is
    /// that of the update, and the snapshot too where the update brings one.
    /// The count is kept where notifications are wanted and the state is that
    /// of a finished check.
    pub open spec fn applied(self, update: SchedulerUpdateView, notify: bool) -> RuntimeStateView {
        RuntimeStateView {
            previous_total_count: if notify && update.state.status != Status::Checking {
                Some(update.state.total_count as usize)
            } else {
                self.previous_total_count
            },
            helper: update.helper,
            snapshot: match update.snapshot {
                Some(snapshot) => Some(snapshot),
                None => self.snapshot,
            },
        }
    }
}

impl RuntimeState {
    /// What the tray keeps at its start: nothing.
    pub fn new() -> (r: Self)
        ensures
            r@ == (RuntimeStateView { previous_total_count: None, helper: None, snapshot: None }),
    {
        RuntimeState { previous_total_count: None, helper: None, snapshot: None }
    }

    /// Whether the entry that upgrades the user repository can be chosen:
    /// where that repository is enabled and a helper is in use.
    pub fn aur_upgrade_enabled(&self, enable_aur: bool) -> (enabled: bool)
        ensures
            enabled == (enable_aur && self.helper is Some),
    {
        enable_aur && self.helper.is_some()
    }

    /// Takes in a publication of the scheduler. Where the user is to be
    /// told of a change of the count, the two counts come back.
    pub fn apply(&mut self, update: SchedulerUpdate, notify: bool) -> (change: Option<
        (usize, usize),
    >)
        ensures
            change == old(self)@.change(update@.state, notify),
            final(self)@ == old(self)@.applied(update@, notify),
    {
        self.helper = update.helper;
        if let Some(snapshot) = update.snapshot {
            self.snapshot = Some(snapshot);
        }
        let mut change: Option<(usize, usize)> = None;
        if notify {
            let finished = match update.state.status {
                Status::Checking => false,
                _ => true,
            };
            if finished {
                if let Some(previous) = self.previous_total_count {
                    if previous != update.state.total_count {
                        change = Some((previous, update.state.total_count));
                    }
                }
                self.previous_total_count = Some(update.state.total_count);
            }
        }
        change
    }
}

} // verus!
