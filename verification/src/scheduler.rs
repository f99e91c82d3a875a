//! The scheduler: when a check is made, and what is published of it.
//!
//! The scheduler waits, is woken by a command, by the end of the wait or by
//! the loss of everyone who could send a command, and decides what follows.
//! Around each check it publishes the state it keeps. The waiting, the check
//! and the publishing are done by its caller.

use crate::commands::{
    outcome_view, CheckOutcome, CheckOutcomeView, CommandError, CommandErrorView,
    DetectedAurHelper,
};
use crate::config::at_least_one;
use crate::state::{AppState, AppStateView, Status, Timestamp, UpdateSnapshot, UpdateSnapshotView};
use vstd::prelude::*;

verus! {

/// What the scheduler can be told to do.
#[derive(Debug, Clone, Copy, PartialEq, Eq, Structural)]
pub enum SchedulerCommand {
    RefreshNow,
    Quit,
}

/// What the scheduler publishes: the state, what the check found if one
/// just ended well, and the helper in use.
#[derive(Debug)]
pub struct SchedulerUpdate {
    pub state: AppState,
    pub snapshot: Option<UpdateSnapshot>,
    pub helper: Option<DetectedAurHelper>,
}

/// A publication as the contracts see it.
pub struct SchedulerUpdateView {
    pub state: AppStateView,
    pub snapshot: Option<UpdateSnapshotView>,
    pub helper: Option<DetectedAurHelper>,
}

impl View for SchedulerUpdate {
    type V = SchedulerUpdateView;

    open spec fn view(&self) -> SchedulerUpdateView {
        SchedulerUpdateView {
            state: self.state@,
            snapshot: self.snapshot.deep_view(),
            helper: self.helper,
        }
    }
}

impl Clone for SchedulerUpdate {
    fn clone(&self) -> (r: Self)
        ensures
            r@ == self@,
    {
        SchedulerUpdate {
            state: self.state.clone(),
            snapshot: match &self.snapshot {
                Some(snapshot) => Some(snapshot.clone()),
                None => None,
            },
            helper: self.helper,
        }
    }
}

/// Why a check is made.
#[derive(Debug, Clone, Copy, PartialEq, Eq, Structural)]
pub enum Trigger {
    /// The scheduler has just started.
    Startup,
    /// A refresh was asked for.
    ManualRefresh,
    /// The time between two checks has passed.
    Periodic,
}

impl Trigger {
    /// The trigger's name.
    pub open spec fn name(self) -> Seq<char> {
        match self {
            Trigger::Startup => "startup"@,
            Trigger::ManualRefresh => "manual-refresh"@,
            Trigger::Periodic => "periodic"@,
        }
    }

    /// The trigger's name, for the log.
    pub fn label(self) -> (label: &'static str)
        ensures
            label@ == self.name(),
    {
        match self {
            Trigger::Startup => "startup",
            Trigger::ManualRefresh => "manual-refresh",
            Trigger::Periodic => "periodic",
        }
    }
}

/// How a wait for a command ended.
#[derive(Debug, Clone, Copy, PartialEq, Eq, Structural)]
pub enum Wakeup {
    /// A command came.
    Command(SchedulerCommand),
    /// The time between two checks passed without a command.
    TimedOut,
    /// No one is left who could send a command.
    Disconnected,
}

/// What the scheduler does after a wait.
#[derive(Debug, Clone, Copy, PartialEq, Eq, Structural)]
pub enum Decision {
    /// Make a check, then wait again.
    Cycle(Trigger),
    /// Stop.
    Stop,
}

/// The scheduler: the state that was published last, the helper that the
/// last check that ended well went with, and whether the scheduler has
/// stopped.
#[derive(Debug)]
pub struct Scheduler {
    pub last_state: AppState,
    pub last_helper: Option<DetectedAurHelper>,
    pub stopped: bool,
}

/// The scheduler as the contracts see it.
pub struct SchedulerView {
    pub last_state: AppStateView,
    pub last_helper: Option<DetectedAurHelper>,
    pub stopped: bool,
}

impl View for Scheduler {
    type V = SchedulerView;

    open spec fn view(&self) -> SchedulerView {
        SchedulerView {
            last_state: self.last_state@,
            last_helper: self.last_helper,
            stopped: self.stopped,
        }
    }
}

impl SchedulerView {
    /// The scheduler at its start.
    pub open spec fn initial() -> SchedulerView {
        SchedulerView { last_state: AppStateView::initial(), last_helper: None, stopped: false }
    }

    /// What the scheduler does after a wait that ended with `wakeup`. A
    /// request for a refresh and the end of the time between two checks
    /// bring a check. A request to quit and the loss of every sender stop the
    /// scheduler. A scheduler that has stopped does nothing more.
    pub open spec fn decision(self, wakeup: Wakeup) -> Decision {
        if self.stopped {
            Decision::Stop
        } else {
            match wakeup {
                Wakeup::Command(SchedulerCommand::RefreshNow) => Decision::Cycle(
                    Trigger::ManualRefresh,
                ),
                Wakeup::Command(SchedulerCommand::Quit) => Decision::Stop,
                Wakeup::TimedOut => Decision::Cycle(Trigger::Periodic),
                Wakeup::Disconnected => Decision::Stop,
            }
        }
    }

    /// The scheduler after a wait that ended with `wakeup`.
    pub open spec fn woken(self, wakeup: Wakeup) -> SchedulerView {
        SchedulerView { stopped: self.decision(wakeup) == Decision::Stop, ..self }
    }

    /// What is published when a check begins: the state as it was, but
    /// checking and without an error, no snapshot, and the helper as it was.
    pub open spec fn checking(self) -> SchedulerUpdateView {
        SchedulerUpdateView {
            state: self.last_state.with_checking(),
            snapshot: None,
            helper: self.last_helper,
        }
    }

    /// The scheduler after a check that ended with `result` and was begun
    /// at `checked_at`. A check that ended well sets the state by what it
    /// found, and the helper. A check that failed sets the error and the
    /// time, and leaves the counts and the helper as they were.
    pub open spec fn checked(
        self,
        result: Result<CheckOutcomeView, CommandErrorView>,
        checked_at: Timestamp,
    ) -> SchedulerView {
        match result {
            Ok(outcome) => SchedulerView {
                last_state: AppStateView::from_snapshot(outcome.snapshot, checked_at),
                last_helper: outcome.helper,
                ..self
            },
            Err(error) => SchedulerView {
                last_state: self.last_state.with_error(error.message(), checked_at),
                ..self
            },
        }
    }

    /// What is published when a check has ended with `result`: the new
    /// state and the helper, and the snapshot where the check ended well.
    pub open spec fn report(
        self,
        result: Result<CheckOutcomeView, CommandErrorView>,
        checked_at: Timestamp,
    ) -> SchedulerUpdateView {
        let next = self.checked(result, checked_at);
        SchedulerUpdateView {
            state: next.last_state,
            snapshot: match result {
                Ok(outcome) => Some(outcome.snapshot),
                Err(_) => None,
            },
            helper: next.last_helper,
        }
    }

    /// The scheduler after one check after the other has failed, with the
    /// errors and at the times that `failures` holds.
    pub open spec fn after_failures(
        self,
        failures: Seq<(CommandErrorView, Timestamp)>,
    ) -> SchedulerView
        decreases failures.len(),
    {
        if failures.len() == 0 {
            self
        } else {
            self.after_failures(failures.drop_last()).checked(
                Err(failures.last().0),
                failures.last().1,
            )
        }
    }
}

/// The seconds to wait between two checks, for a configured number of
/// minutes: at least one minute.
pub fn poll_interval_secs(poll_minutes: u64) -> (secs: u64)
    requires
        poll_minutes <= u64::MAX / 60,
    ensures
        secs == at_least_one(poll_minutes) * 60,
{
    let minutes = if poll_minutes < 1 {
        1
    } else {
        poll_minutes
    };
    minutes * 60
}

impl Scheduler {
    /// The scheduler at its start: nothing checked yet, no helper known.
    pub fn new() -> (r: Self)
        ensures
            r@ == SchedulerView::initial(),
    {
        Scheduler { last_state: AppState::default(), last_helper: None, stopped: false }
    }

    /// What the scheduler does first: a check, before the first wait.
    pub fn first_decision(&self) -> (decision: Decision)
        ensures
            decision == Decision::Cycle(Trigger::Startup),
    {
        Decision::Cycle(Trigger::Startup)
    }

    /// Decides what follows a wait that ended with `wakeup`.
    pub fn on_wakeup(&mut self, wakeup: Wakeup) -> (decision: Decision)
        ensures
            decision == old(self)@.decision(wakeup),
            final(self)@ == old(self)@.woken(wakeup),
    {
        if self.stopped {
            return Decision::Stop;
        }
        match wakeup {
            Wakeup::Command(SchedulerCommand::RefreshNow) => Decision::Cycle(
                Trigger::ManualRefresh,
            ),
            Wakeup::TimedOut => Decision::Cycle(Trigger::Periodic),
            Wakeup::Command(SchedulerCommand::Quit) | Wakeup::Disconnected => {
                self.stopped = true;
                Decision::Stop
            },
        }
    }

    /// What is to be published before a check is made.
    pub fn begin_cycle(&self) -> (update: SchedulerUpdate)
        ensures
            update@ == self@.checking(),
    {
        SchedulerUpdate {
            state: self.last_state.clone().with_checking(),
            snapshot: None,
            helper: self.last_helper,
        }
    }

    /// Takes in how a check ended, and says what is to be published of
    /// it. `checked_at` is the time at which the check was begun.
    pub fn finish_cycle(
        &mut self,
        result: Result<CheckOutcome, CommandError>,
        checked_at: Timestamp,
    ) -> (update: SchedulerUpdate)
        requires
            result is Ok ==> result->Ok_0.snapshot.countable(),
        ensures
            final(self)@ == old(self)@.checked(outcome_view(result), checked_at),
            update@ == old(self)@.report(outcome_view(result), checked_at),
    {
        match result {
            Ok(outcome) => {
                let state = AppState::from_snapshot(&outcome.snapshot, checked_at);
                self.last_state = state.clone();
                self.last_helper = outcome.helper;
                SchedulerUpdate {
                    state,
                    snapshot: Some(outcome.snapshot),
                    helper: outcome.helper,
                }
            },
            Err(error) => {
                let state = self.last_state.clone().with_error(error.message(), checked_at);
                self.last_state = state.clone();
                SchedulerUpdate { state, snapshot: None, helper: self.last_helper }
            },
        }
    }
}

/// After a check that ended well the state says that everything is up to
/// date where the check found nothing, and that updates are available where
/// it found any.
pub proof fn lemma_success_sets_status(
    before: SchedulerView,
    outcome: CheckOutcomeView,
    checked_at: Timestamp,
)
    ensures
        outcome.snapshot.total() == 0 ==> before.checked(Ok(outcome), checked_at).last_state.status
            == Status::UpToDate,
        outcome.snapshot.total() > 0 ==> before.checked(Ok(outcome), checked_at).last_state.status
            == Status::UpdatesAvailable,
        before.checked(Ok(outcome), checked_at).last_state.total_count == outcome.snapshot.total(),
        before.report(Ok(outcome), checked_at).snapshot == Some(outcome.snapshot),
{
}

/// After a check that failed the state says so and gives the error, and
/// the counts and the helper are those of before.
pub proof fn lemma_failure_keeps_counts(
    before: SchedulerView,
    error: CommandErrorView,
    checked_at: Timestamp,
)
    ensures
        ({
            let after = before.checked(Err(error), checked_at);
            &&& after.last_state.status == Status::Error
            &&& after.last_state.last_error == Some(error.message())
            &&& after.last_state.last_checked == Some(checked_at)
            &&& after.last_state.official_count == before.last_state.official_count
            &&& after.last_state.aur_count == before.last_state.aur_count
            &&& after.last_state.total_count == before.last_state.total_count
            &&& after.last_helper == before.last_helper
            &&& before.report(Err(error), checked_at).snapshot is None
        }),
{
}

/// However many checks fail after one that ended well, the counts and the
/// helper stay those of the check that ended well, and the state gives the
/// error of the last one.
pub proof fn lemma_counts_outlast_failures(
    before: SchedulerView,
    outcome: CheckOutcomeView,
    checked_at: Timestamp,
    failures: Seq<(CommandErrorView, Timestamp)>,
)
    ensures
        ({
            let after = before.checked(Ok(outcome), checked_at).after_failures(failures);
            &&& after.last_state.official_count == outcome.snapshot.official.len()
            &&& after.last_state.aur_count == outcome.snapshot.aur.len()
            &&& after.last_state.total_count == outcome.snapshot.total()
            &&& after.last_helper == outcome.helper
            &&& failures.len() > 0 ==> after.last_state.status == Status::Error
                && after.last_state.last_error == Some(failures.last().0.message())
        }),
    decreases failures.len(),
{
    if failures.len() > 0 {
        lemma_counts_outlast_failures(before, outcome, checked_at, failures.drop_last());
    }
}

/// A request to quit stops the scheduler, and a scheduler that has stopped
/// stays so: whatever comes after, it makes no check.
pub proof fn lemma_quit_stops(before: SchedulerView, later: Wakeup)
    ensures
        before.decision(Wakeup::Command(SchedulerCommand::Quit)) == Decision::Stop,
        before.woken(Wakeup::Command(SchedulerCommand::Quit)).stopped,
        before.stopped ==> before.decision(later) == Decision::Stop && before.woken(later)
            == before,
{
}

/// While the scheduler has not stopped, a request for a refresh and the
/// end of the wait each bring a check, and the scheduler goes on.
pub proof fn lemma_running_checks(before: SchedulerView)
    requires
        !before.stopped,
    ensures
        before.decision(Wakeup::Command(SchedulerCommand::RefreshNow)) == Decision::Cycle(
            Trigger::ManualRefresh,
        ),
        before.decision(Wakeup::TimedOut) == Decision::Cycle(Trigger::Periodic),
        before.decision(Wakeup::Disconnected) == Decision::Stop,
        !before.woken(Wakeup::TimedOut).stopped,
        !before.woken(Wakeup::Command(SchedulerCommand::RefreshNow)).stopped,
{
}

} // verus!
