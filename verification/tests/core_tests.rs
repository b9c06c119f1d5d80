use sentinel::collection::{apply_keyboard, apply_pointer, apply_windows, DataFrame, PointerState};
use sentinel::config::{SentinelError, Settings};
use sentinel::math::{euclidean_distance, isqrt};
use sentinel::store::SnapshotStore;
use sentinel::windows::{build_applications, Application, ProcessInfo};

fn app(pid: u32, name: &str, title: &str, focused: bool) -> Application {
    Application {
        name: name.to_string(),
        pid,
        process_name: name.to_string(),
        window_title: title.to_string(),
        is_focused: focused,
    }
}

fn proc_row(pid: u32, name: &str, title: Option<&str>) -> ProcessInfo {
    ProcessInfo {
        pid,
        name: name.to_string(),
        window_title: title.map(|t| t.to_string()),
    }
}

#[test]
fn isqrt_exact_values() {
    assert_eq!(isqrt(0), 0);
    assert_eq!(isqrt(1), 1);
    assert_eq!(isqrt(2), 1);
    assert_eq!(isqrt(3), 1);
    assert_eq!(isqrt(4), 2);
    assert_eq!(isqrt(24), 4);
    assert_eq!(isqrt(25), 5);
    assert_eq!(isqrt(26), 5);
    assert_eq!(isqrt(u32::MAX), 65535);
}

#[test]
fn distance_exact_values() {
    assert_eq!(euclidean_distance((10, 10), (13, 14)), 5);
    assert_eq!(euclidean_distance((0, 0), (3, 4)), 5);
    assert_eq!(euclidean_distance((0, 0), (0, 0)), 0);
    assert_eq!(euclidean_distance((7, -3), (7, -3)), 0);
    assert_eq!(euclidean_distance((-3, -4), (0, 0)), 5);
    assert_eq!(euclidean_distance((0, 0), (1, 1)), 1);
    assert_eq!(euclidean_distance((5, 5), (5, 9)), 4);
}

#[test]
fn pointer_distance_scenario() {
    let store = SnapshotStore::new();
    let mut state = PointerState::new();
    store.apply_pointer_sample(&mut state, (10, 10), vec![false; 3]);
    let first = store.read();
    // The very first sample measures from the origin.
    assert_eq!(first.mouse_distance, euclidean_distance((0, 0), (10, 10)));
    store.apply_pointer_sample(&mut state, (13, 14), vec![false; 3]);
    let frame = store.read();
    assert_eq!(frame.mouse_distance, 5);
    assert_eq!(frame.mouse_coords, (13, 14));
}

#[test]
fn first_pointer_sample_measures_from_origin() {
    let store = SnapshotStore::new();
    let mut state = PointerState::new();
    store.apply_pointer_sample(&mut state, (3, 4), vec![true]);
    let frame = store.read();
    assert_eq!(frame.mouse_distance, 5);
    assert_eq!(frame.mouse_buttons, vec![true]);
    assert_eq!(frame.mouse_coords, (3, 4));
}

#[test]
fn window_failure_keeps_previous_list() {
    let store = SnapshotStore::new();
    store.apply_window_sample(Err("enumeration failed".to_string()));
    let after_failure = store.read();
    assert!(after_failure.open_applications.is_empty());

    store.apply_window_sample(Ok(vec![app(100, "app", "Main", true)]));
    let after_success = store.read();
    assert_eq!(after_success.open_applications.len(), 1);
    let entry = &after_success.open_applications[0];
    assert_eq!(entry.pid, 100);
    assert_eq!(entry.name, "app");
    assert_eq!(entry.window_title, "Main");
    assert!(entry.is_focused);

    // A later failed tick retains the list from the successful one.
    store.apply_window_sample(Err("enumeration failed".to_string()));
    let after_second_failure = store.read();
    assert_eq!(after_second_failure.open_applications.len(), 1);
    assert_eq!(after_second_failure.open_applications[0].window_title, "Main");
}

#[test]
fn no_lost_update_between_samplers() {
    let store = SnapshotStore::new();
    let mut state = PointerState::new();
    store.apply_keyboard_sample(vec![65]);
    store.apply_pointer_sample(&mut state, (1, 1), vec![false]);
    let frame = store.read();
    assert_eq!(frame.keys, vec![65]);
    assert_eq!(frame.mouse_coords, (1, 1));
}

#[test]
fn keyboard_set_replaces_wholesale() {
    let store = SnapshotStore::new();
    store.apply_keyboard_sample(vec![1, 2, 3]);
    assert_eq!(store.read().keys, vec![1, 2, 3]);
    // An empty pressed-set is a valid sample: all keys released.
    store.apply_keyboard_sample(vec![]);
    assert!(store.read().keys.is_empty());
}

#[test]
fn read_before_any_sampler_is_default() {
    let store = SnapshotStore::new();
    let frame = store.read();
    assert!(frame.keys.is_empty());
    assert_eq!(frame.mouse_coords, (0, 0));
    assert_eq!(frame.timestamp, 0);
    assert!(frame.mouse_buttons.is_empty());
    assert_eq!(frame.mouse_distance, 0);
    assert!(frame.open_applications.is_empty());
}

#[test]
fn read_returns_independent_copy() {
    let store = SnapshotStore::new();
    store.apply_keyboard_sample(vec![9]);
    let copy = store.read();
    store.apply_keyboard_sample(vec![10, 11]);
    assert_eq!(copy.keys, vec![9]);
    assert_eq!(store.read().keys, vec![10, 11]);
}

#[test]
fn build_applications_marks_single_focus() {
    let procs = vec![
        proc_row(100, "app", Some("Main")),
        proc_row(200, "editor", Some("Notes")),
        proc_row(300, "daemon", None),
    ];
    let apps = build_applications(&procs, Some(200));
    assert_eq!(apps.len(), 2);
    assert_eq!(apps[0].pid, 100);
    assert!(!apps[0].is_focused);
    assert_eq!(apps[1].pid, 200);
    assert!(apps[1].is_focused);
    assert_eq!(apps[1].process_name, "editor");
    assert_eq!(apps[1].window_title, "Notes");
    assert_eq!(apps.iter().filter(|a| a.is_focused).count(), 1);
}

#[test]
fn build_applications_unknown_foreground_focuses_nothing() {
    let procs = vec![
        proc_row(100, "app", Some("Main")),
        proc_row(200, "editor", Some("Notes")),
    ];
    let apps = build_applications(&procs, None);
    assert_eq!(apps.len(), 2);
    assert!(apps.iter().all(|a| !a.is_focused));

    // A foreground process without a window focuses nothing either.
    let apps = build_applications(&procs, Some(300));
    assert!(apps.iter().all(|a| !a.is_focused));
}

#[test]
fn apply_functions_on_a_plain_frame() {
    let mut frame = DataFrame::new();
    let mut state = PointerState::new();
    apply_keyboard(&mut frame, vec![42], 7);
    assert_eq!(frame.keys, vec![42]);
    assert_eq!(frame.timestamp, 7);

    apply_pointer(&mut frame, &mut state, (6, 8), vec![true, false], 8);
    assert_eq!(frame.mouse_distance, 10);
    assert_eq!(frame.mouse_coords, (6, 8));
    assert_eq!(frame.mouse_buttons, vec![true, false]);
    assert_eq!(frame.timestamp, 8);
    assert_eq!(state.last_coords, (6, 8));
    // The keyboard sampler's field was not touched by the pointer update.
    assert_eq!(frame.keys, vec![42]);

    apply_windows(&mut frame, Err("down".to_string()), 9);
    assert_eq!(frame.timestamp, 8);
    assert!(frame.open_applications.is_empty());

    apply_windows(&mut frame, Ok(vec![app(1, "a", "t", false)]), 10);
    assert_eq!(frame.timestamp, 10);
    assert_eq!(frame.open_applications.len(), 1);
    assert_eq!(frame.keys, vec![42]);
    assert_eq!(frame.mouse_coords, (6, 8));
}

#[test]
fn deep_copy_matches_and_detaches() {
    let mut frame = DataFrame::new();
    apply_keyboard(&mut frame, vec![5, 6], 3);
    apply_windows(&mut frame, Ok(vec![app(1, "a", "t", true)]), 4);
    let copy = frame.deep_copy();
    assert_eq!(copy.keys, frame.keys);
    assert_eq!(copy.timestamp, frame.timestamp);
    assert_eq!(copy.open_applications.len(), 1);
    assert_eq!(copy.open_applications[0].window_title, "t");
    apply_keyboard(&mut frame, vec![], 5);
    assert_eq!(copy.keys, vec![5, 6]);
}

#[test]
fn settings_accept_positive_cadences() {
    let s = Settings::new(50, 60, 1000, 1000).unwrap();
    assert_eq!(s.keyboard_cadence_ms, 50);
    assert_eq!(s.pointer_cadence_ms, 60);
    assert_eq!(s.window_cadence_ms, 1000);
    assert_eq!(s.aggregation_interval_ms, 1000);
}

#[test]
fn settings_reject_zero_cadence() {
    assert_eq!(
        Settings::new(0, 60, 1000, 1000).unwrap_err(),
        SentinelError::ConfigurationInvalid
    );
    assert_eq!(
        Settings::new(50, 0, 1000, 1000).unwrap_err(),
        SentinelError::ConfigurationInvalid
    );
    assert_eq!(
        Settings::new(50, 60, 0, 1000).unwrap_err(),
        SentinelError::ConfigurationInvalid
    );
    assert_eq!(
        Settings::new(50, 60, 1000, 0).unwrap_err(),
        SentinelError::ConfigurationInvalid
    );
}

#[test]
fn groups_keep_their_own_samplers_rate() {
    // Samplers ticking at different rates: two keyboard updates around one
    // window update; each group reflects only its own sampler's last write.
    let store = SnapshotStore::new();
    store.apply_keyboard_sample(vec![1]);
    store.apply_window_sample(Ok(vec![app(7, "w", "t", false)]));
    store.apply_keyboard_sample(vec![2]);
    store.apply_keyboard_sample(vec![3]);
    let frame = store.read();
    assert_eq!(frame.keys, vec![3]);
    assert_eq!(frame.open_applications.len(), 1);
    assert_eq!(frame.open_applications[0].pid, 7);
    assert_eq!(frame.mouse_coords, (0, 0));
}

#[test]
fn concurrent_applies_lose_nothing() {
    // Two apply calls racing from different tasks: after both complete, a
    // read shows both updates.
    let rt = tokio::runtime::Runtime::new().unwrap();
    rt.block_on(async {
        let store = std::sync::Arc::new(SnapshotStore::new());
        let keyboard_store = store.clone();
        let keyboard = tokio::spawn(async move {
            keyboard_store.apply_keyboard_sample(vec![65]);
        });
        let pointer_store = store.clone();
        let pointer = tokio::spawn(async move {
            let mut state = PointerState::new();
            pointer_store.apply_pointer_sample(&mut state, (1, 1), vec![false]);
        });
        keyboard.await.unwrap();
        pointer.await.unwrap();
        let frame = store.read();
        assert_eq!(frame.keys, vec![65]);
        assert_eq!(frame.mouse_coords, (1, 1));
    });
}
