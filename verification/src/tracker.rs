//! The stateful "launch external application" binding: tracks one spawned
//! process so that a later firing re-surfaces the running instance instead
//! of spawning another.
//!
//! Each firing is driven as: ask [`LaunchState::fire_query`] what to do;
//! answer a liveness probe through [`LaunchState::on_liveness`]; report a
//! spawn attempt through [`LaunchState::on_spawn`].  Process enumeration,
//! spawning and window foregrounding are the driver's work; the driver holds
//! the state behind a mutex so concurrent re-entrant firings are serialized.
//!
//! Liveness is probed by matching the executable's name among the running
//! processes, not by a strong process handle; a reused pid of an unrelated
//! process between a tracked launch and a later probe would be misidentified
//! as still alive.  That approximation is inherited deliberately.

use vstd::prelude::*;

verus! {

/// The one piece of state mutated across repeated firings of the launch-app
/// binding.
#[derive(Clone, Copy, Debug, PartialEq, Eq, Structural)]
pub struct LaunchState {
    /// Pid of the tracked process; 0 exactly when no process has been
    /// confirmed alive.
    pub tracked_pid: u32,
    /// When the last foreground request was issued, as a driver-supplied
    /// timestamp.
    pub last_foreground_attempt: u64,
}

/// What a firing must do first.
#[derive(Clone, Copy, Debug, PartialEq, Eq, Structural)]
pub enum LaunchProbe {
    /// A process is tracked: probe whether it is still alive.
    ProbeLiveness(u32),
    /// Nothing is tracked: spawn a new process.
    SpawnNew,
}

/// What a firing does next, after the probe or spawn result is known.
#[derive(Clone, Copy, Debug, PartialEq, Eq, Structural)]
pub enum LaunchStep {
    /// Request the top-level window of this pid be brought to front.
    Foreground(u32),
    /// Spawn a new process.
    SpawnNew,
    /// Nothing further; a failed spawn is swallowed so the user may simply
    /// fire the binding again.
    Nothing,
}

impl LaunchState {
    /// No process tracked yet.
    pub fn new() -> (r: Self)
        ensures
            r.tracked_pid == 0,
            r.last_foreground_attempt == 0,
    {
        LaunchState { tracked_pid: 0, last_foreground_attempt: 0 }
    }

    /// The first step of a firing, under the mutex: with a tracked pid the
    /// driver must probe liveness, otherwise it spawns directly.
    pub fn fire_query(&self) -> (q: LaunchProbe)
        ensures
            self.tracked_pid != 0 ==> q == LaunchProbe::ProbeLiveness(self.tracked_pid),
            self.tracked_pid == 0 ==> q == LaunchProbe::SpawnNew,
    {
        if self.tracked_pid != 0 {
            LaunchProbe::ProbeLiveness(self.tracked_pid)
        } else {
            LaunchProbe::SpawnNew
        }
    }

    /// The liveness answer for the tracked process.  Alive: exactly one
    /// foreground request for the tracked pid, no new process.  Dead: the
    /// pid is reset and the firing continues with a spawn.
    pub fn on_liveness(&mut self, alive: bool, now: u64) -> (step: LaunchStep)
        requires
            old(self).tracked_pid != 0,
        ensures
            alive ==> step == LaunchStep::Foreground(old(self).tracked_pid) && *final(self) == (
            LaunchState { last_foreground_attempt: now, ..*old(self) }),
            !alive ==> step == LaunchStep::SpawnNew && *final(self) == (LaunchState {
                tracked_pid: 0,
                ..*old(self)
            }),
    {
        if alive {
            self.last_foreground_attempt = now;
            LaunchStep::Foreground(self.tracked_pid)
        } else {
            self.tracked_pid = 0;
            LaunchStep::SpawnNew
        }
    }

    /// The result of a spawn attempt.  Success records the new pid — the
    /// state again tracks a confirmed-alive process — and requests one
    /// foreground for it; failure is a no-op.
    pub fn on_spawn(&mut self, spawned: Option<u32>, now: u64) -> (step: LaunchStep)
        requires
            old(self).tracked_pid == 0,
        ensures
            match spawned {
                Some(pid) => if pid != 0 {
                    step == LaunchStep::Foreground(pid) && *final(self) == (LaunchState {
                        tracked_pid: pid,
                        last_foreground_attempt: now,
                    })
                } else {
                    step == LaunchStep::Nothing && *final(self) == *old(self)
                },
                None => step == LaunchStep::Nothing && *final(self) == *old(self),
            },
    {
        match spawned {
            Some(pid) => {
                if pid != 0 {
                    self.tracked_pid = pid;
                    self.last_foreground_attempt = now;
                    LaunchStep::Foreground(pid)
                } else {
                    LaunchStep::Nothing
                }
            },
            None => LaunchStep::Nothing,
        }
    }
}

} // verus!
