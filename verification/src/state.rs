//! What a check found and what is shown of it: package updates, the
//! snapshot of one check, and the status that is published.

use vstd::prelude::*;

verus! {

/// What the tracker is doing, or how its last check ended.
#[derive(Clone, Copy, Debug, PartialEq, Eq, Structural)]
pub enum Status {
    Checking,
    UpToDate,
    UpdatesAvailable,
    Error,
}

/// Which of the two sources reported an update.
#[derive(Clone, Copy, Debug, PartialEq, Eq, Structural)]
pub enum UpdateSource {
    Official,
    Aur,
}

/// A moment in time: seconds and nanoseconds since the Unix epoch.
#[derive(Clone, Copy, Debug, PartialEq, Eq, Structural)]
pub struct Timestamp {
    pub secs: i64,
    pub nanos: u32,
}

/// One pending update of one package.
#[derive(Debug, PartialEq, Eq)]
pub struct PackageUpdate {
    pub name: String,
    pub current: String,
    pub latest: String,
    pub source: UpdateSource,
}

/// An update as the contracts see it.
pub struct PackageUpdateView {
    pub name: Seq<char>,
    pub current: Seq<char>,
    pub latest: Seq<char>,
    pub source: UpdateSource,
}

impl View for PackageUpdate {
    type V = PackageUpdateView;

    open spec fn view(&self) -> PackageUpdateView {
        PackageUpdateView {
            name: self.name@,
            current: self.current@,
            latest: self.latest@,
            source: self.source,
        }
    }
}

impl DeepView for PackageUpdate {
    type V = PackageUpdateView;

    open spec fn deep_view(&self) -> PackageUpdateView {
        self@
    }
}

impl Clone for PackageUpdate {
    fn clone(&self) -> (r: Self)
        ensures
            r@ == self@,
    {
        PackageUpdate {
            name: self.name.clone(),
            current: self.current.clone(),
            latest: self.latest.clone(),
            source: self.source,
        }
    }
}

/// A copy of a list of updates.
pub fn clone_updates(updates: &Vec<PackageUpdate>) -> (r: Vec<PackageUpdate>)
    ensures
        r.deep_view() == updates.deep_view(),
{
    let mut r: Vec<PackageUpdate> = Vec::new();
    let mut i: usize = 0;
    while i < updates.len()
        invariant
            i <= updates.len(),
            r.len() == i,
            forall|j: int| 0 <= j < i ==> (#[trigger] r@[j])@ == updates@[j]@,
        decreases updates.len() - i,
    {
        r.push(updates[i].clone());
        i += 1;
    }
    assert(r.deep_view() =~= updates.deep_view());
    r
}

/// What one check found: the pending updates of each source, in the order
/// in which the source listed them.
#[derive(Debug, PartialEq, Eq)]
pub struct UpdateSnapshot {
    pub official: Vec<PackageUpdate>,
    pub aur: Vec<PackageUpdate>,
}

/// A snapshot as the contracts see it.
pub struct UpdateSnapshotView {
    pub official: Seq<PackageUpdateView>,
    pub aur: Seq<PackageUpdateView>,
}

impl UpdateSnapshotView {
    /// The number of updates of both sources together.
    pub open spec fn total(self) -> nat {
        self.official.len() + self.aur.len()
    }
}

impl View for UpdateSnapshot {
    type V = UpdateSnapshotView;

    open spec fn view(&self) -> UpdateSnapshotView {
        UpdateSnapshotView { official: self.official.deep_view(), aur: self.aur.deep_view() }
    }
}

impl DeepView for UpdateSnapshot {
    type V = UpdateSnapshotView;

    open spec fn deep_view(&self) -> UpdateSnapshotView {
        self@
    }
}

impl Clone for UpdateSnapshot {
    fn clone(&self) -> (r: Self)
        ensures
            r@ == self@,
    {
        UpdateSnapshot { official: clone_updates(&self.official), aur: clone_updates(&self.aur) }
    }
}

impl Default for UpdateSnapshot {
    fn default() -> (r: Self)
        ensures
            r@.official.len() == 0,
            r@.aur.len() == 0,
    {
        UpdateSnapshot { official: Vec::new(), aur: Vec::new() }
    }
}

impl UpdateSnapshot {
    /// Whether the number of all updates is one the machine can hold.
    pub open spec fn countable(&self) -> bool {
        self@.total() <= usize::MAX
    }

    /// The number of updates of both sources together.
    pub fn total_count(&self) -> (n: usize)
        requires
            self.countable(),
        ensures
            n == self@.total(),
    {
        self.official.len() + self.aur.len()
    }
}

/// The status that is published: how the last check ended, how many updates
/// it counted, when it was made and what went wrong.
#[derive(Debug)]
pub struct AppState {
    pub status: Status,
    pub official_count: usize,
    pub aur_count: usize,
    pub total_count: usize,
    pub last_checked: Option<Timestamp>,
    pub last_error: Option<String>,
}

/// The published status as the contracts see it.
pub struct AppStateView {
    pub status: Status,
    pub official_count: nat,
    pub aur_count: nat,
    pub total_count: nat,
    pub last_checked: Option<Timestamp>,
    pub last_error: Option<Seq<char>>,
}

impl AppStateView {
    /// The state before any check was made.
    pub open spec fn initial() -> AppStateView {
        AppStateView {
            status: Status::Checking,
            official_count: 0,
            aur_count: 0,
            total_count: 0,
            last_checked: None,
            last_error: None,
        }
    }

    /// The state after a check that found `snapshot` at `checked_at`.
    pub open spec fn from_snapshot(
        snapshot: UpdateSnapshotView,
        checked_at: Timestamp,
    ) -> AppStateView {
        AppStateView {
            status: if snapshot.total() == 0 {
                Status::UpToDate
            } else {
                Status::UpdatesAvailable
            },
            official_count: snapshot.official.len(),
            aur_count: snapshot.aur.len(),
            total_count: snapshot.total(),
            last_checked: Some(checked_at),
            last_error: None,
        }
    }

    /// This state after a check that failed with `message` at `checked_at`:
    /// the counts stay as they were.
    pub open spec fn with_error(self, message: Seq<char>, checked_at: Timestamp) -> AppStateView {
        AppStateView {
            status: Status::Error,
            last_checked: Some(checked_at),
            last_error: Some(message),
            ..self
        }
    }

    /// This state while a check is under way: the counts and the time of the
    /// last check stay as they were.
    pub open spec fn with_checking(self) -> AppStateView {
        AppStateView { status: Status::Checking, last_error: None, ..self }
    }
}

impl View for AppState {
    type V = AppStateView;

    open spec fn view(&self) -> AppStateView {
        AppStateView {
            status: self.status,
            official_count: self.official_count as nat,
            aur_count: self.aur_count as nat,
            total_count: self.total_count as nat,
            last_checked: self.last_checked,
            last_error: self.last_error.deep_view(),
        }
    }
}

impl Clone for AppState {
    fn clone(&self) -> (r: Self)
        ensures
            r@ == self@,
    {
        AppState {
            status: self.status,
            official_count: self.official_count,
            aur_count: self.aur_count,
            total_count: self.total_count,
            last_checked: self.last_checked,
            last_error: match &self.last_error {
                Some(message) => Some(message.clone()),
                None => None,
            },
        }
    }
}

impl Default for AppState {
    fn default() -> (r: Self)
        ensures
            r@ == AppStateView::initial(),
    {
        AppState {
            status: Status::Checking,
            official_count: 0,
            aur_count: 0,
            total_count: 0,
            last_checked: None,
            last_error: None,
        }
    }
}

impl AppState {
    /// The state after a check that found `snapshot` at `checked_at`: up to
    /// date where it found nothing, updates available where it found any.
    pub fn from_snapshot(snapshot: &UpdateSnapshot, checked_at: Timestamp) -> (r: Self)
        requires
            snapshot.countable(),
        ensures
            r@ == AppStateView::from_snapshot(snapshot@, checked_at),
    {
        let total = snapshot.total_count();
        let status = if total == 0 {
            Status::UpToDate
        } else {
            Status::UpdatesAvailable
        };
        AppState {
            status,
            official_count: snapshot.official.len(),
            aur_count: snapshot.aur.len(),
            total_count: total,
            last_checked: Some(checked_at),
            last_error: None,
        }
    }

    /// This state after a check that failed with `message` at `checked_at`.
    pub fn with_error(self, message: String, checked_at: Timestamp) -> (r: Self)
        ensures
            r@ == self@.with_error(message@, checked_at),
    {
        let mut next = self;
        next.status = Status::Error;
        next.last_checked = Some(checked_at);
        next.last_error = Some(message);
        next
    }

    /// This state while a check is under way.
    pub fn with_checking(self) -> (r: Self)
        ensures
            r@ == self@.with_checking(),
    {
        let mut next = self;
        next.status = Status::Checking;
        next.last_error = None;
        next
    }
}

} // verus!
