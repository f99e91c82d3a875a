use pactrack::state::{
    clone_updates, AppState, PackageUpdate, Status, Timestamp, UpdateSnapshot, UpdateSource,
};

fn update(name: &str, source: UpdateSource) -> PackageUpdate {
    PackageUpdate {
        name: name.to_string(),
        current: "1".to_string(),
        latest: "2".to_string(),
        source,
    }
}

fn at(secs: i64) -> Timestamp {
    Timestamp { secs, nanos: 500 }
}

#[test]
fn total_is_the_sum_of_both_sources() {
    let snapshot = UpdateSnapshot {
        official: vec![update("a", UpdateSource::Official), update("b", UpdateSource::Official)],
        aur: vec![update("c", UpdateSource::Aur)],
    };
    assert_eq!(snapshot.total_count(), 3);
    assert_eq!(UpdateSnapshot::default().total_count(), 0);
}

#[test]
fn initial_state_is_checking_with_nothing_counted() {
    let state = AppState::default();
    assert_eq!(state.status, Status::Checking);
    assert_eq!(state.official_count, 0);
    assert_eq!(state.aur_count, 0);
    assert_eq!(state.total_count, 0);
    assert_eq!(state.last_checked, None);
    assert_eq!(state.last_error, None);
}

#[test]
fn empty_snapshot_means_up_to_date() {
    let state = AppState::from_snapshot(&UpdateSnapshot::default(), at(10));
    assert_eq!(state.status, Status::UpToDate);
    assert_eq!(state.total_count, 0);
    assert_eq!(state.last_checked, Some(at(10)));
    assert_eq!(state.last_error, None);
}

#[test]
fn filled_snapshot_means_updates_available() {
    let snapshot = UpdateSnapshot {
        official: vec![update("a", UpdateSource::Official)],
        aur: vec![update("b", UpdateSource::Aur), update("c", UpdateSource::Aur)],
    };
    let state = AppState::from_snapshot(&snapshot, at(20));
    assert_eq!(state.status, Status::UpdatesAvailable);
    assert_eq!(state.official_count, 1);
    assert_eq!(state.aur_count, 2);
    assert_eq!(state.total_count, 3);
    assert_eq!(state.last_checked, Some(at(20)));

    let only_aur = UpdateSnapshot { official: vec![], aur: vec![update("b", UpdateSource::Aur)] };
    assert_eq!(AppState::from_snapshot(&only_aur, at(1)).status, Status::UpdatesAvailable);
}

#[test]
fn error_keeps_the_counts() {
    let snapshot = UpdateSnapshot {
        official: vec![update("a", UpdateSource::Official)],
        aur: vec![update("b", UpdateSource::Aur)],
    };
    let state = AppState::from_snapshot(&snapshot, at(20)).with_error("boom".to_string(), at(30));
    assert_eq!(state.status, Status::Error);
    assert_eq!(state.official_count, 1);
    assert_eq!(state.aur_count, 1);
    assert_eq!(state.total_count, 2);
    assert_eq!(state.last_checked, Some(at(30)));
    assert_eq!(state.last_error, Some("boom".to_string()));
}

#[test]
fn checking_keeps_counts_and_time_and_clears_the_error() {
    let snapshot = UpdateSnapshot { official: vec![update("a", UpdateSource::Official)], aur: vec![] };
    let state = AppState::from_snapshot(&snapshot, at(20))
        .with_error("boom".to_string(), at(30))
        .with_checking();
    assert_eq!(state.status, Status::Checking);
    assert_eq!(state.total_count, 1);
    assert_eq!(state.official_count, 1);
    assert_eq!(state.last_checked, Some(at(30)));
    assert_eq!(state.last_error, None);
}

#[test]
fn copies_are_equal_to_what_they_copy() {
    let updates = vec![update("a", UpdateSource::Official), update("b", UpdateSource::Aur)];
    assert_eq!(clone_updates(&updates), updates);
    let snapshot = UpdateSnapshot { official: updates.clone(), aur: vec![] };
    assert_eq!(snapshot.clone(), snapshot);
    let state = AppState::from_snapshot(&snapshot, at(5)).with_error("e".to_string(), at(6));
    let copy = state.clone();
    assert_eq!(copy.status, state.status);
    assert_eq!(copy.total_count, state.total_count);
    assert_eq!(copy.last_checked, state.last_checked);
    assert_eq!(copy.last_error, state.last_error);
}
