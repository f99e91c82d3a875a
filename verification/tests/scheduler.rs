use pactrack::commands::{CheckOutcome, CommandError, DetectedAurHelper};
use pactrack::scheduler::{
    poll_interval_secs, Decision, Scheduler, SchedulerCommand, Trigger, Wakeup,
};
use pactrack::state::{PackageUpdate, Status, Timestamp, UpdateSnapshot, UpdateSource};

fn update(name: &str, source: UpdateSource) -> PackageUpdate {
    PackageUpdate {
        name: name.to_string(),
        current: "1".to_string(),
        latest: "2".to_string(),
        source,
    }
}

fn at(secs: i64) -> Timestamp {
    Timestamp { secs, nanos: 0 }
}

fn outcome(official: usize, aur: usize, helper: Option<DetectedAurHelper>) -> CheckOutcome {
    CheckOutcome {
        snapshot: UpdateSnapshot {
            official: (0..official).map(|i| update(&format!("o{i}"), UpdateSource::Official)).collect(),
            aur: (0..aur).map(|i| update(&format!("a{i}"), UpdateSource::Aur)).collect(),
        },
        helper,
    }
}

#[test]
fn interval_is_in_seconds_and_at_least_a_minute() {
    assert_eq!(poll_interval_secs(0), 60);
    assert_eq!(poll_interval_secs(1), 60);
    assert_eq!(poll_interval_secs(30), 1800);
    assert_eq!(poll_interval_secs(u64::MAX / 60), (u64::MAX / 60) * 60);
}

#[test]
fn scheduler_starts_with_a_check() {
    let scheduler = Scheduler::new();
    assert_eq!(scheduler.first_decision(), Decision::Cycle(Trigger::Startup));
    assert!(!scheduler.stopped);
    assert_eq!(scheduler.last_helper, None);
    assert_eq!(scheduler.last_state.status, Status::Checking);
    assert_eq!(Trigger::Startup.label(), "startup");
    assert_eq!(Trigger::ManualRefresh.label(), "manual-refresh");
    assert_eq!(Trigger::Periodic.label(), "periodic");
}

#[test]
fn refresh_and_timeout_bring_a_check() {
    let mut scheduler = Scheduler::new();
    assert_eq!(
        scheduler.on_wakeup(Wakeup::Command(SchedulerCommand::RefreshNow)),
        Decision::Cycle(Trigger::ManualRefresh)
    );
    assert_eq!(scheduler.on_wakeup(Wakeup::TimedOut), Decision::Cycle(Trigger::Periodic));
    assert!(!scheduler.stopped);
}

#[test]
fn quit_stops_and_nothing_is_done_after_it() {
    let mut scheduler = Scheduler::new();
    assert_eq!(scheduler.on_wakeup(Wakeup::Command(SchedulerCommand::Quit)), Decision::Stop);
    assert!(scheduler.stopped);
    assert_eq!(scheduler.on_wakeup(Wakeup::Command(SchedulerCommand::RefreshNow)), Decision::Stop);
    assert_eq!(scheduler.on_wakeup(Wakeup::TimedOut), Decision::Stop);
    assert_eq!(scheduler.on_wakeup(Wakeup::Command(SchedulerCommand::Quit)), Decision::Stop);
    assert!(scheduler.stopped);
}

#[test]
fn lost_senders_stop_the_scheduler() {
    let mut scheduler = Scheduler::new();
    assert_eq!(scheduler.on_wakeup(Wakeup::Disconnected), Decision::Stop);
    assert!(scheduler.stopped);
}

#[test]
fn cycle_begins_with_checking_and_old_counts() {
    let mut scheduler = Scheduler::new();
    scheduler.finish_cycle(Ok(outcome(2, 1, Some(DetectedAurHelper::Yay))), at(100));
    let update = scheduler.begin_cycle();
    assert_eq!(update.state.status, Status::Checking);
    assert_eq!(update.state.total_count, 3);
    assert_eq!(update.state.last_checked, Some(at(100)));
    assert_eq!(update.state.last_error, None);
    assert!(update.snapshot.is_none());
    assert_eq!(update.helper, Some(DetectedAurHelper::Yay));
    assert_eq!(scheduler.last_state.status, Status::UpdatesAvailable);
}

#[test]
fn successful_cycle_without_updates_is_up_to_date() {
    let mut scheduler = Scheduler::new();
    let update = scheduler.finish_cycle(Ok(outcome(0, 0, None)), at(7));
    assert_eq!(update.state.status, Status::UpToDate);
    assert_eq!(update.state.total_count, 0);
    assert_eq!(update.snapshot, Some(UpdateSnapshot::default()));
    assert_eq!(update.helper, None);
    assert_eq!(scheduler.last_state.status, Status::UpToDate);
    assert_eq!(scheduler.last_state.last_checked, Some(at(7)));
}

#[test]
fn successful_cycle_with_updates_says_so() {
    let mut scheduler = Scheduler::new();
    let update = scheduler.finish_cycle(Ok(outcome(1, 2, Some(DetectedAurHelper::Paru))), at(8));
    assert_eq!(update.state.status, Status::UpdatesAvailable);
    assert_eq!(update.state.official_count, 1);
    assert_eq!(update.state.aur_count, 2);
    assert_eq!(update.state.total_count, 3);
    assert_eq!(update.snapshot.as_ref().map(|s| s.official.len()), Some(1));
    assert_eq!(update.snapshot.as_ref().map(|s| s.aur.len()), Some(2));
    assert_eq!(update.helper, Some(DetectedAurHelper::Paru));
    assert_eq!(scheduler.last_helper, Some(DetectedAurHelper::Paru));
}

#[test]
fn failing_cycle_keeps_counts_and_helper() {
    let mut scheduler = Scheduler::new();
    scheduler.finish_cycle(Ok(outcome(4, 1, Some(DetectedAurHelper::Paru))), at(8));
    let error = CommandError::NonZero {
        command: "pacman -Qu".to_string(),
        status: 3,
        stderr: "db locked".to_string(),
    };
    let update = scheduler.finish_cycle(Err(error), at(9));
    assert_eq!(update.state.status, Status::Error);
    assert_eq!(
        update.state.last_error,
        Some("command `pacman -Qu` exited with 3: db locked".to_string())
    );
    assert_eq!(update.state.last_checked, Some(at(9)));
    assert_eq!(update.state.official_count, 4);
    assert_eq!(update.state.aur_count, 1);
    assert_eq!(update.state.total_count, 5);
    assert!(update.snapshot.is_none());
    assert_eq!(update.helper, Some(DetectedAurHelper::Paru));

    let second = scheduler.finish_cycle(Err(CommandError::InvalidCommand("x y".to_string())), at(10));
    assert_eq!(second.state.total_count, 5);
    assert_eq!(second.state.last_error, Some("invalid configured command `x y`".to_string()));
    assert_eq!(scheduler.last_helper, Some(DetectedAurHelper::Paru));
    assert_eq!(scheduler.last_state.total_count, 5);
}

#[test]
fn first_cycle_may_fail() {
    let mut scheduler = Scheduler::new();
    let update = scheduler.finish_cycle(
        Err(CommandError::Spawn { program: "fakeroot".to_string(), source: "not found".to_string() }),
        at(1),
    );
    assert_eq!(update.state.status, Status::Error);
    assert_eq!(update.state.total_count, 0);
    assert_eq!(update.state.last_error, Some("failed to spawn `fakeroot`: not found".to_string()));
    assert_eq!(update.helper, None);
    let copy = update.clone();
    assert_eq!(copy.state.last_error, update.state.last_error);
}
