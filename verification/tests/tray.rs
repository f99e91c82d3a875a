use pactrack::commands::DetectedAurHelper;
use pactrack::icons::{choose_icon_name, icon_candidates};
use pactrack::scheduler::SchedulerUpdate;
use pactrack::state::{AppState, PackageUpdate, Status, Timestamp, UpdateSnapshot, UpdateSource};
use pactrack::tray::{
    aur_label, checked_label, official_label, status_label, status_text, truncate_error,
    RuntimeState, ERROR_WIDTH,
};

fn state(status: Status, total: usize, error: Option<&str>) -> AppState {
    AppState {
        status,
        official_count: total,
        aur_count: 0,
        total_count: total,
        last_checked: Some(Timestamp { secs: 1, nanos: 0 }),
        last_error: error.map(|e| e.to_string()),
    }
}

fn update(status: Status, total: usize, helper: Option<DetectedAurHelper>) -> SchedulerUpdate {
    SchedulerUpdate { state: state(status, total, None), snapshot: None, helper }
}

#[test]
fn icons_for_each_status() {
    assert_eq!(icon_candidates(&Status::Checking), ("view-refresh-symbolic", "pactrack-checking"));
    assert_eq!(icon_candidates(&Status::UpToDate), ("emblem-default", "pactrack-up-to-date"));
    assert_eq!(
        icon_candidates(&Status::UpdatesAvailable),
        ("software-update-available", "pactrack-updates-available")
    );
    assert_eq!(icon_candidates(&Status::Error), ("dialog-error", "pactrack-error"));
}

#[test]
fn short_errors_are_shown_in_full() {
    assert_eq!(truncate_error(""), "");
    assert_eq!(truncate_error("boom"), "boom");
    let exact = "x".repeat(ERROR_WIDTH);
    assert_eq!(truncate_error(&exact), exact);
}

#[test]
fn long_errors_are_cut_by_characters() {
    let long = "y".repeat(73);
    assert_eq!(truncate_error(&long), format!("{}...", "y".repeat(72)));
    let wide = "\u{e9}".repeat(100);
    assert_eq!(truncate_error(&wide), format!("{}...", "\u{e9}".repeat(72)));
}

#[test]
fn status_in_words() {
    assert_eq!(status_text(&state(Status::Checking, 3, None)), "checking");
    assert_eq!(status_text(&state(Status::UpToDate, 0, None)), "up to date");
    assert_eq!(status_text(&state(Status::UpdatesAvailable, 12, None)), "12 updates available");
    assert_eq!(status_text(&state(Status::Error, 1, Some("boom"))), "error (boom)");
    assert_eq!(status_text(&state(Status::Error, 1, None)), "error (unknown error)");
    let long = "z".repeat(80);
    assert_eq!(
        status_text(&state(Status::Error, 1, Some(&long))),
        format!("error ({}...)", "z".repeat(72))
    );
}

#[test]
fn first_finished_check_tells_nothing() {
    let mut rt = RuntimeState::new();
    assert_eq!(rt.apply(update(Status::Checking, 0, None), true), None);
    assert_eq!(rt.previous_total_count, None);
    assert_eq!(rt.apply(update(Status::UpdatesAvailable, 3, None), true), None);
    assert_eq!(rt.previous_total_count, Some(3));
}

#[test]
fn changed_count_is_told_once_the_check_has_ended() {
    let mut rt = RuntimeState::new();
    rt.apply(update(Status::UpdatesAvailable, 3, None), true);
    assert_eq!(rt.apply(update(Status::Checking, 3, None), true), None);
    assert_eq!(rt.apply(update(Status::UpdatesAvailable, 5, None), true), Some((3, 5)));
    assert_eq!(rt.apply(update(Status::UpdatesAvailable, 5, None), true), None);
    assert_eq!(rt.apply(update(Status::UpToDate, 0, None), true), Some((5, 0)));
    assert_eq!(rt.apply(update(Status::Error, 0, None), true), None);
    assert_eq!(rt.previous_total_count, Some(0));
}

#[test]
fn nothing_is_told_where_notifications_are_off() {
    let mut rt = RuntimeState::new();
    assert_eq!(rt.apply(update(Status::UpdatesAvailable, 3, None), false), None);
    assert_eq!(rt.previous_total_count, None);
    assert_eq!(rt.apply(update(Status::UpdatesAvailable, 5, None), false), None);
    assert_eq!(rt.previous_total_count, None);
}

#[test]
fn helper_and_snapshot_follow_the_publications() {
    let mut rt = RuntimeState::new();
    assert!(!rt.aur_upgrade_enabled(true));
    let snapshot = UpdateSnapshot {
        official: vec![PackageUpdate {
            name: "a".to_string(),
            current: "1".to_string(),
            latest: "2".to_string(),
            source: UpdateSource::Official,
        }],
        aur: vec![],
    };
    let with_snapshot = SchedulerUpdate {
        state: state(Status::UpdatesAvailable, 1, None),
        snapshot: Some(snapshot.clone()),
        helper: Some(DetectedAurHelper::Yay),
    };
    rt.apply(with_snapshot, true);
    assert_eq!(rt.helper, Some(DetectedAurHelper::Yay));
    assert_eq!(rt.snapshot, Some(snapshot.clone()));
    assert!(rt.aur_upgrade_enabled(true));
    assert!(!rt.aur_upgrade_enabled(false));
    rt.apply(update(Status::Checking, 1, None), true);
    assert_eq!(rt.helper, None);
    assert_eq!(rt.snapshot, Some(snapshot));
}

#[test]
fn icon_of_the_theme_is_taken_where_the_theme_has_it() {
    assert_eq!(choose_icon_name(&Status::Error, true), "dialog-error");
    assert_eq!(choose_icon_name(&Status::Error, false), "pactrack-error");
    assert_eq!(choose_icon_name(&Status::UpToDate, true), "emblem-default");
    assert_eq!(choose_icon_name(&Status::Checking, false), "pactrack-checking");
}

#[test]
fn menu_labels() {
    let mut shown = state(Status::UpdatesAvailable, 7, None);
    shown.aur_count = 3;
    assert_eq!(status_label(&shown), "Status: 7 updates available");
    assert_eq!(official_label(&shown), "Official updates: 7");
    assert_eq!(aur_label(&shown), "AUR updates: 3");
    assert_eq!(checked_label(Some("2024-05-01 12:00:00")), "Last check: 2024-05-01 12:00:00");
    assert_eq!(checked_label(None), "Last check: never");
}
