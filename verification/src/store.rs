use vstd::prelude::*;
use vstd::rwlock::RwLock;
use vstd::rwlock::RwLockPredicate;
use crate::collection::DataFrame;
use crate::collection::PointerState;
use crate::collection::apply_keyboard;
use crate::collection::apply_pointer;
use crate::collection::apply_windows;
use crate::math;
use crate::windows::Application;
use crate::windows::at_most_one_focused;

verus! {

/// The invariant every snapshot value stored in the lock satisfies.
pub struct SnapshotInv {}

impl RwLockPredicate<DataFrame> for SnapshotInv {
    open spec fn inv(self, v: DataFrame) -> bool {
        v.wf()
    }
}

/// Relies on `chrono::Utc::now` and `DateTime::timestamp_millis`: a reading
/// of the wall clock; nothing is promised of its value.
#[verifier::external_body]
fn now_millis() -> (t: u64) {
    chrono::Utc::now().timestamp_millis() as u64
}

/// Owns the shared snapshot behind a reader-writer lock. Every update and
/// every read holds the lock only for a plain in-memory copy — sampling and
/// all other I/O happen before an update is applied, never inside it — so
/// writers serialize against each other and a reader never observes a
/// partially applied update.
pub struct SnapshotStore {
    lock: RwLock<DataFrame, SnapshotInv>,
}

impl SnapshotStore {
    /// Creates the store holding the all-default snapshot.
    pub fn new() -> (s: SnapshotStore) {
        SnapshotStore { lock: RwLock::new(DataFrame::new(), Ghost(SnapshotInv {})) }
    }

    /// Atomically applies one keyboard sample, stamped with the current
    /// time: `keys` is replaced wholesale and no other sampler's fields are
    /// touched (see `apply_keyboard`).
    pub fn apply_keyboard_sample(&self, keys: Vec<u16>) {
        let now = now_millis();
        let (mut frame, handle) = self.lock.acquire_write();
        apply_keyboard(&mut frame, keys, now);
        handle.release_write(frame);
    }

    /// Atomically applies one pointer sample, stamped with the current
    /// time: position, buttons and the travel distance from the previous
    /// position are written together, and the sampler-local previous
    /// position advances to `coords` (see `apply_pointer`).
    pub fn apply_pointer_sample(
        &self,
        state: &mut PointerState,
        coords: (i32, i32),
        buttons: Vec<bool>,
    )
        requires
            math::dist_sq(old(state).last_coords, coords) <= i32::MAX as int,
        ensures
            final(state).last_coords == coords,
    {
        let now = now_millis();
        let (mut frame, handle) = self.lock.acquire_write();
        apply_pointer(&mut frame, state, coords, buttons, now);
        handle.release_write(frame);
    }

    /// Atomically applies one window-sampler tick, stamped with the current
    /// time: a successful enumeration replaces the open-window list, a
    /// failed one leaves the snapshot exactly as it was (see
    /// `apply_windows`).
    pub fn apply_window_sample(&self, sampled: Result<Vec<Application>, String>)
        requires
            sampled matches Ok(apps) ==> at_most_one_focused(apps@),
    {
        let now = now_millis();
        let (mut frame, handle) = self.lock.acquire_write();
        apply_windows(&mut frame, sampled, now);
        handle.release_write(frame);
    }

    /// Atomically reads a full, consistent, well-formed copy of the
    /// snapshot. The copy shares no mutable state with the store: later
    /// updates cannot change it.
    pub fn read(&self) -> (r: DataFrame)
        ensures
            r.wf(),
    {
        let handle = self.lock.acquire_read();
        let copy = handle.borrow().deep_copy();
        handle.release_read();
        copy
    }
}

} // verus!
