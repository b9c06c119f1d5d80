use vstd::prelude::*;
use crate::collection::FrameModel;
use crate::collection::keyboard_applied;
use crate::collection::pointer_applied;
use crate::collection::windows_applied;
use crate::windows::Application;

verus! {

/// A keyboard update is atomic per field group: it rewrites exactly the
/// keyboard-owned field and the shared timestamp, and leaves every field
/// owned by the pointer and window samplers as it was. A reader therefore
/// sees each group either wholly before or wholly after the update.
pub proof fn lemma_keyboard_isolation(m: FrameModel, keys: Seq<u16>, now: u64)
    ensures
        keyboard_applied(m, keys, now).keys == keys,
        keyboard_applied(m, keys, now).timestamp == now,
        keyboard_applied(m, keys, now).mouse_coords == m.mouse_coords,
        keyboard_applied(m, keys, now).mouse_buttons == m.mouse_buttons,
        keyboard_applied(m, keys, now).mouse_distance == m.mouse_distance,
        keyboard_applied(m, keys, now).open_applications == m.open_applications,
{
}

/// A pointer update is atomic per field group: position, buttons and
/// travel distance change together with the shared timestamp, and the
/// keyboard- and window-owned fields are left as they were.
pub proof fn lemma_pointer_isolation(
    m: FrameModel,
    coords: (i32, i32),
    buttons: Seq<bool>,
    distance: i32,
    now: u64,
)
    ensures
        pointer_applied(m, coords, buttons, distance, now).mouse_coords == coords,
        pointer_applied(m, coords, buttons, distance, now).mouse_buttons == buttons,
        pointer_applied(m, coords, buttons, distance, now).mouse_distance == distance,
        pointer_applied(m, coords, buttons, distance, now).timestamp == now,
        pointer_applied(m, coords, buttons, distance, now).keys == m.keys,
        pointer_applied(m, coords, buttons, distance, now).open_applications
            == m.open_applications,
{
}

/// A window update is atomic per field group: it rewrites exactly the
/// open-window list and the shared timestamp, and leaves the keyboard- and
/// pointer-owned fields as they were.
pub proof fn lemma_windows_isolation(m: FrameModel, apps: Seq<Application>, now: u64)
    ensures
        windows_applied(m, apps, now).open_applications == apps,
        windows_applied(m, apps, now).timestamp == now,
        windows_applied(m, apps, now).keys == m.keys,
        windows_applied(m, apps, now).mouse_coords == m.mouse_coords,
        windows_applied(m, apps, now).mouse_buttons == m.mouse_buttons,
        windows_applied(m, apps, now).mouse_distance == m.mouse_distance,
{
}

/// No lost update between samplers: a keyboard update and a pointer update
/// applied in either order yield the very same snapshot — both updates are
/// present afterwards, with the later write's timestamp — so the order in
/// which the store serializes two concurrent updates cannot drop either.
pub proof fn lemma_no_lost_update_keyboard_pointer(
    m: FrameModel,
    keys: Seq<u16>,
    coords: (i32, i32),
    buttons: Seq<bool>,
    distance: i32,
    first: u64,
    second: u64,
)
    ensures
        pointer_applied(keyboard_applied(m, keys, first), coords, buttons, distance, second)
            == keyboard_applied(pointer_applied(m, coords, buttons, distance, first), keys, second),
        pointer_applied(keyboard_applied(m, keys, first), coords, buttons, distance, second).keys
            == keys,
        pointer_applied(
            keyboard_applied(m, keys, first),
            coords,
            buttons,
            distance,
            second,
        ).mouse_coords == coords,
        pointer_applied(
            keyboard_applied(m, keys, first),
            coords,
            buttons,
            distance,
            second,
        ).open_applications == m.open_applications,
{
    assert(pointer_applied(keyboard_applied(m, keys, first), coords, buttons, distance, second)
        =~= keyboard_applied(pointer_applied(m, coords, buttons, distance, first), keys, second));
}

/// One sampler's update, as the store serializes it: the values one
/// `apply` call writes, together with the timestamp it carries.
pub enum Update {
    Keyboard { keys: Seq<u16>, now: u64 },
    Pointer { coords: (i32, i32), buttons: Seq<bool>, distance: i32, now: u64 },
    Windows { apps: Seq<Application>, now: u64 },
}

/// The snapshot after one serialized update.
pub open spec fn applied(m: FrameModel, u: Update) -> FrameModel {
    match u {
        Update::Keyboard { keys, now } => keyboard_applied(m, keys, now),
        Update::Pointer { coords, buttons, distance, now } => pointer_applied(
            m,
            coords,
            buttons,
            distance,
            now,
        ),
        Update::Windows { apps, now } => windows_applied(m, apps, now),
    }
}

/// The snapshot after a whole serialized history of updates, oldest first.
pub open spec fn applied_all(m: FrameModel, us: Seq<Update>) -> FrameModel
    decreases us.len(),
{
    if us.len() == 0 {
        m
    } else {
        applied(applied_all(m, us.drop_last()), us.last())
    }
}

/// The key set written by the most recent keyboard update of the history,
/// or the starting one where the keyboard sampler never ran.
pub open spec fn last_keys(us: Seq<Update>, orig: Seq<u16>) -> Seq<u16>
    decreases us.len(),
{
    if us.len() == 0 {
        orig
    } else {
        match us.last() {
            Update::Keyboard { keys, .. } => keys,
            _ => last_keys(us.drop_last(), orig),
        }
    }
}

/// The position, buttons and distance written by the most recent pointer
/// update of the history, or the starting ones where the pointer sampler
/// never ran.
pub open spec fn last_pointer(us: Seq<Update>, orig: ((i32, i32), Seq<bool>, i32)) -> (
    (i32, i32),
    Seq<bool>,
    i32,
)
    decreases us.len(),
{
    if us.len() == 0 {
        orig
    } else {
        match us.last() {
            Update::Pointer { coords, buttons, distance, .. } => (coords, buttons, distance),
            _ => last_pointer(us.drop_last(), orig),
        }
    }
}

/// The window list written by the most recent window update of the history,
/// or the starting one where the window sampler never ran.
pub open spec fn last_apps(us: Seq<Update>, orig: Seq<Application>) -> Seq<Application>
    decreases us.len(),
{
    if us.len() == 0 {
        orig
    } else {
        match us.last() {
            Update::Windows { apps, .. } => apps,
            _ => last_apps(us.drop_last(), orig),
        }
    }
}

/// Samplers at independent cadences cannot interfere: however the store
/// interleaves a history of updates, each field group of the resulting
/// snapshot is exactly what its own sampler's most recent update wrote —
/// other samplers' updates, however many and however ordered, leave it
/// untouched.
pub proof fn lemma_group_last_writer(m: FrameModel, us: Seq<Update>)
    ensures
        applied_all(m, us).keys == last_keys(us, m.keys),
        applied_all(m, us).mouse_coords == last_pointer(
            us,
            (m.mouse_coords, m.mouse_buttons, m.mouse_distance),
        ).0,
        applied_all(m, us).mouse_buttons == last_pointer(
            us,
            (m.mouse_coords, m.mouse_buttons, m.mouse_distance),
        ).1,
        applied_all(m, us).mouse_distance == last_pointer(
            us,
            (m.mouse_coords, m.mouse_buttons, m.mouse_distance),
        ).2,
        applied_all(m, us).open_applications == last_apps(us, m.open_applications),
    decreases us.len(),
{
    if us.len() > 0 {
        lemma_group_last_writer(m, us.drop_last());
    }
}

/// No lost update between the keyboard and window samplers, stated as for
/// the pointer: either serialization order yields the same snapshot.
pub proof fn lemma_no_lost_update_keyboard_windows(
    m: FrameModel,
    keys: Seq<u16>,
    apps: Seq<Application>,
    first: u64,
    second: u64,
)
    ensures
        windows_applied(keyboard_applied(m, keys, first), apps, second) == keyboard_applied(
            windows_applied(m, apps, first),
            keys,
            second,
        ),
{
    assert(windows_applied(keyboard_applied(m, keys, first), apps, second) =~= keyboard_applied(
        windows_applied(m, apps, first),
        keys,
        second,
    ));
}

} // verus!
