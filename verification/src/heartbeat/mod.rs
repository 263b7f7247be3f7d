//! The heartbeat service: its interval and its running state. The caller runs the
//! periodic ticker while the service says so.
use vstd::prelude::*;

verus! {

/// The interval a service uses for a requested interval: 0 gives the default of 30
/// minutes, and anything below 5 minutes is raised to 5.
pub open spec fn effective_interval(requested: u64) -> u64 {
    if requested < 5 && requested != 0 {
        5
    } else if requested == 0 {
        30
    } else {
        requested
    }
}

/// What starting does: a disabled or running service is kept as it is and starts no
/// ticker; an enabled, stopped one becomes running and asks for a ticker.
pub open spec fn start_post(pre: HeartbeatService, post: HeartbeatService, spawn: bool) -> bool {
    &&& post.interval_minutes == pre.interval_minutes
    &&& post.enabled == pre.enabled
    &&& spawn == (pre.enabled && !pre.running)
    &&& post.running == (pre.running || pre.enabled)
}

/// Heartbeat service state.
#[derive(Debug, Clone, Copy)]
pub struct HeartbeatService {
    pub interval_minutes: u64,
    pub enabled: bool,
    pub running: bool,
}

impl HeartbeatService {
    /// A stopped service with the effective interval for `interval_minutes`.
    pub fn new(interval_minutes: u64, enabled: bool) -> (r: Self)
        ensures
            r.interval_minutes == effective_interval(interval_minutes),
            r.enabled == enabled,
            !r.running,
    {
        let interval = if interval_minutes < 5 && interval_minutes != 0 {
            5
        } else if interval_minutes == 0 {
            30
        } else {
            interval_minutes
        };
        HeartbeatService { interval_minutes: interval, enabled, running: false }
    }

    /// The default service: every 30 minutes, enabled.
    pub fn default_service() -> (r: Self)
        ensures
            r.interval_minutes == 30,
            r.enabled,
            !r.running,
    {
        Self::new(30, true)
    }

    /// Starts the service. Returns whether the caller must start the ticker: a disabled
    /// or already running service is left as it is and returns `false`.
    pub fn start(&mut self) -> (spawn: bool)
        ensures
            start_post(*old(self), *final(self), spawn),
    {
        if !self.enabled {
            return false;
        }
        if self.running {
            return false;
        }
        self.running = true;
        true
    }

    /// Stops the service; the ticker ends at its next tick. This always succeeds.
    pub fn stop(&mut self) -> (r: Result<(), crate::error::Error>)
        ensures
            final(self).interval_minutes == old(self).interval_minutes,
            final(self).enabled == old(self).enabled,
            !final(self).running,
            r is Ok,
    {
        self.running = false;
        Ok(())
    }

    /// Whether the service is running; the ticker keeps going while it is.
    pub fn is_running(&self) -> (r: bool)
        ensures
            r == self.running,
    {
        self.running
    }

    /// The ticker's period in seconds, or `None` when it does not fit in a `u64`.
    pub fn tick_seconds(&self) -> (r: Option<u64>)
        ensures
            match r {
                Some(s) => s == self.interval_minutes * 60,
                None => self.interval_minutes * 60 > u64::MAX,
            },
    {
        self.interval_minutes.checked_mul(60)
    }
}

/// The interval is never below 5 minutes; 0 asks for the default of 30.
pub proof fn law_interval_floor(requested: u64)
    ensures
        effective_interval(requested) >= 5,
        requested == 0 ==> effective_interval(requested) == 30,
        requested >= 5 ==> effective_interval(requested) == requested,
{
}

/// Starting is idempotent: a second start on a started service starts no second ticker.
pub proof fn law_start_idempotent(s0: HeartbeatService, s1: HeartbeatService, s2: HeartbeatService, spawn1: bool, spawn2: bool)
    requires
        start_post(s0, s1, spawn1),
        start_post(s1, s2, spawn2),
    ensures
        !spawn2,
{
}

} // verus!
