use vstd::prelude::*;
use crate::math;
use crate::windows::Application;
use crate::windows::at_most_one_focused;

verus! {

/// Mathematical model of the shared snapshot: one field group per sampler,
/// plus the shared recency timestamp.
#[verifier::ext_equal]
pub struct FrameModel {
    pub keys: Seq<u16>,
    pub mouse_coords: (i32, i32),
    pub timestamp: u64,
    pub mouse_buttons: Seq<bool>,
    pub mouse_distance: i32,
    pub open_applications: Seq<Application>,
}

impl FrameModel {
    /// Well-formedness of the snapshot: the travel distance is never
    /// negative and at most one open window is focused.
    pub open spec fn wf(self) -> bool {
        &&& self.mouse_distance >= 0
        &&& at_most_one_focused(self.open_applications)
    }
}

/// The snapshot whose fields a reader sees: all defaults, the state before
/// any sampler has run.
pub open spec fn empty_frame() -> FrameModel {
    FrameModel {
        keys: Seq::empty(),
        mouse_coords: (0, 0),
        timestamp: 0,
        mouse_buttons: Seq::empty(),
        mouse_distance: 0,
        open_applications: Seq::empty(),
    }
}

/// The shared snapshot record. Each field is owned by exactly one sampler:
/// `keys` by the keyboard sampler, `mouse_coords`, `mouse_buttons` and
/// `mouse_distance` by the pointer sampler, `open_applications` by the
/// window sampler; `timestamp` is written by whichever sampler wrote last.
#[derive(Debug)]
pub struct DataFrame {
    pub keys: Vec<u16>,
    pub mouse_coords: (i32, i32),
    pub timestamp: u64,
    pub mouse_buttons: Vec<bool>,
    pub mouse_distance: i32,
    pub open_applications: Vec<Application>,
}

impl View for DataFrame {
    type V = FrameModel;

    open spec fn view(&self) -> FrameModel {
        FrameModel {
            keys: self.keys@,
            mouse_coords: self.mouse_coords,
            timestamp: self.timestamp,
            mouse_buttons: self.mouse_buttons@,
            mouse_distance: self.mouse_distance,
            open_applications: self.open_applications@,
        }
    }
}

/// The keyboard sampler's update: the raw key set replaces `keys` entirely
/// and the timestamp is refreshed; every other field is untouched.
pub open spec fn keyboard_applied(m: FrameModel, keys: Seq<u16>, now: u64) -> FrameModel {
    FrameModel { keys: keys, timestamp: now, ..m }
}

/// The pointer sampler's update: position, buttons and travel distance are
/// replaced together and the timestamp is refreshed; every other field is
/// untouched.
pub open spec fn pointer_applied(
    m: FrameModel,
    coords: (i32, i32),
    buttons: Seq<bool>,
    distance: i32,
    now: u64,
) -> FrameModel {
    FrameModel {
        mouse_coords: coords,
        mouse_buttons: buttons,
        mouse_distance: distance,
        timestamp: now,
        ..m
    }
}

/// The window sampler's update: the open-window list is replaced and the
/// timestamp is refreshed; every other field is untouched.
pub open spec fn windows_applied(m: FrameModel, apps: Seq<Application>, now: u64) -> FrameModel {
    FrameModel { open_applications: apps, timestamp: now, ..m }
}

impl DataFrame {
    pub open spec fn wf(&self) -> bool {
        self@.wf()
    }

    /// The all-default snapshot created at startup.
    pub fn new() -> (r: DataFrame)
        ensures
            r@ == empty_frame(),
            r.wf(),
    {
        let r = DataFrame {
            keys: Vec::new(),
            mouse_coords: (0, 0),
            timestamp: 0,
            mouse_buttons: Vec::new(),
            mouse_distance: 0,
            open_applications: Vec::new(),
        };
        proof {
            assert(r@ =~= empty_frame());
        }
        r
    }

    /// A full value copy that shares no mutable storage with `self`; later
    /// writes to `self` cannot change the copy.
    pub fn deep_copy(&self) -> (r: DataFrame)
        ensures
            r@ == self@,
    {
        let r = DataFrame {
            keys: self.keys.clone(),
            mouse_coords: self.mouse_coords,
            timestamp: self.timestamp,
            mouse_buttons: self.mouse_buttons.clone(),
            mouse_distance: self.mouse_distance,
            open_applications: copy_applications(&self.open_applications),
        };
        proof {
            assert(r.keys@ =~= self.keys@);
            assert(r.mouse_buttons@ =~= self.mouse_buttons@);
            assert(r@ =~= self@);
        }
        r
    }
}

impl Default for DataFrame {
    /// The all-default snapshot, as created at startup.
    fn default() -> (r: DataFrame)
        ensures
            r@ == empty_frame(),
            r.wf(),
    {
        DataFrame::new()
    }
}

/// An element-by-element copy of the window list.
fn copy_applications(v: &Vec<Application>) -> (r: Vec<Application>)
    ensures
        r@ == v@,
{
    let mut r: Vec<Application> = Vec::new();
    let mut i: usize = 0;
    while i < v.len()
        invariant
            i <= v.len(),
            r@ == v@.take(i as int),
        decreases v.len() - i,
    {
        r.push(v[i].duplicate());
        proof {
            assert(v@.take(i as int + 1) =~= v@.take(i as int).push(v@[i as int]));
        }
        i = i + 1;
    }
    proof {
        assert(v@.take(v.len() as int) =~= v@);
    }
    r
}

/// Pointer-sampler-local memory: the position seen on the previous tick,
/// starting at the origin before the first sample.
#[derive(Debug)]
pub struct PointerState {
    pub last_coords: (i32, i32),
}

impl PointerState {
    pub fn new() -> (r: PointerState)
        ensures
            r.last_coords == (0i32, 0i32),
    {
        PointerState { last_coords: (0, 0) }
    }
}

/// Applies one keyboard sample: the pressed-key set replaces `keys` (an
/// empty set is a valid sample), the timestamp is refreshed, and no other
/// field changes.
pub fn apply_keyboard(frame: &mut DataFrame, keys: Vec<u16>, now: u64)
    requires
        old(frame).wf(),
    ensures
        final(frame)@ == keyboard_applied(old(frame)@, keys@, now),
        final(frame).wf(),
{
    frame.keys = keys;
    frame.timestamp = now;
    proof {
        assert(frame@ =~= keyboard_applied(old(frame)@, frame.keys@, now));
    }
}

/// Applies one pointer sample: position, buttons and the travel distance
/// from the previously seen position are written together, the sampler's
/// private previous position is advanced, and no other field changes.
/// The distance is the floor of the Euclidean distance from the previous
/// position, `0` when the position is unchanged.
pub fn apply_pointer(
    frame: &mut DataFrame,
    state: &mut PointerState,
    coords: (i32, i32),
    buttons: Vec<bool>,
    now: u64,
)
    requires
        old(frame).wf(),
        math::dist_sq(old(state).last_coords, coords) <= i32::MAX as int,
    ensures
        final(frame)@ == pointer_applied(
            old(frame)@,
            coords,
            buttons@,
            final(frame).mouse_distance,
            now,
        ),
        final(frame).mouse_distance == math::isqrt_spec(
            math::dist_sq(old(state).last_coords, coords),
        ),
        old(state).last_coords == coords ==> final(frame).mouse_distance == 0,
        final(state).last_coords == coords,
        final(frame).wf(),
{
    let distance = math::euclidean_distance(state.last_coords, coords);
    frame.mouse_coords = coords;
    frame.mouse_buttons = buttons;
    frame.mouse_distance = distance;
    frame.timestamp = now;
    state.last_coords = coords;
    proof {
        assert(frame@ =~= pointer_applied(
            old(frame)@,
            coords,
            frame.mouse_buttons@,
            distance,
            now,
        ));
    }
}

/// Applies one window-sampler tick. A successful enumeration replaces the
/// open-window list and refreshes the timestamp; a failed one changes
/// nothing at all — the previous list is retained and the snapshot is left
/// exactly as it was.
pub fn apply_windows(frame: &mut DataFrame, sampled: Result<Vec<Application>, String>, now: u64)
    requires
        old(frame).wf(),
        sampled matches Ok(apps) ==> at_most_one_focused(apps@),
    ensures
        sampled matches Ok(apps) ==> final(frame)@ == windows_applied(old(frame)@, apps@, now),
        sampled is Err ==> final(frame)@ == old(frame)@,
        final(frame).wf(),
{
    match sampled {
        Ok(apps) => {
            frame.open_applications = apps;
            frame.timestamp = now;
            proof {
                assert(frame@ =~= windows_applied(old(frame)@, frame.open_applications@, now));
            }
        },
        Err(_) => {},
    }
}

} // verus!
