use vstd::prelude::*;

verus! {

/// The agent's error taxonomy: a source failed transiently (the tick is
/// skipped), or a configured cadence was invalid (startup fails).
#[derive(Clone, Copy, Debug, PartialEq, Eq, Structural)]
pub enum SentinelError {
    SourceUnavailable,
    ConfigurationInvalid,
}

/// The cadences the supervisor starts the four loops with, one per sampler
/// plus the aggregator's export interval; validated positive at
/// construction.
#[derive(Clone, Copy, Debug)]
pub struct Settings {
    pub keyboard_cadence_ms: u64,
    pub pointer_cadence_ms: u64,
    pub window_cadence_ms: u64,
    pub aggregation_interval_ms: u64,
}

impl Settings {
    /// Every cadence is a positive number of milliseconds.
    pub open spec fn wf(&self) -> bool {
        &&& self.keyboard_cadence_ms > 0
        &&& self.pointer_cadence_ms > 0
        &&& self.window_cadence_ms > 0
        &&& self.aggregation_interval_ms > 0
    }

    /// Validates the configured cadences: accepted exactly when every one
    /// is positive; otherwise startup fails with `ConfigurationInvalid`
    /// and no loop is started.
    pub fn new(
        keyboard_cadence_ms: u64,
        pointer_cadence_ms: u64,
        window_cadence_ms: u64,
        aggregation_interval_ms: u64,
    ) -> (r: Result<Settings, SentinelError>)
        ensures
            (r is Ok) <==> (keyboard_cadence_ms > 0 && pointer_cadence_ms > 0
                && window_cadence_ms > 0 && aggregation_interval_ms > 0),
            r matches Ok(s) ==> s == (Settings {
                keyboard_cadence_ms,
                pointer_cadence_ms,
                window_cadence_ms,
                aggregation_interval_ms,
            }) && s.wf(),
            r matches Err(e) ==> e == SentinelError::ConfigurationInvalid,
    {
        if keyboard_cadence_ms > 0 && pointer_cadence_ms > 0 && window_cadence_ms > 0
            && aggregation_interval_ms > 0 {
            Ok(
                Settings {
                    keyboard_cadence_ms,
                    pointer_cadence_ms,
                    window_cadence_ms,
                    aggregation_interval_ms,
                },
            )
        } else {
            Err(SentinelError::ConfigurationInvalid)
        }
    }
}

} // verus!
