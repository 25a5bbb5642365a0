//! The self-healing supervisor over the two managed files: a monitor and a
//! healer coupled by two single-slot rendezvous channels and a shared run
//! flag.
//!
//! The two loops live on threads of the unverified driver; every decision
//! they take is a transition of the [`Supervisor`] state below.  The driver
//! calls [`Supervisor::monitor_observe`] with each fresh probe result, hands a
//! taken loss signal to the healer, runs one reconciliation, and posts the
//! outcome back.  The single-slot discipline — a loss signal is answered by
//! exactly one outcome before the monitor re-probes — is what makes
//! overlapping recovery attempts impossible, and it is proved here as an
//! invariant of the transitions.

use vstd::prelude::*;

use crate::resource::FileExist;
use crate::resource::files_present;
use crate::resource::both_files_present;

verus! {

/// Where the monitor loop stands.
#[derive(Clone, Copy, Debug, PartialEq, Eq)]
pub enum MonitorPhase {
    /// At the top of its loop: probing every interval.
    Watching,
    /// Blocked on the outcome channel after sending a loss signal.
    AwaitingOutcome,
    /// Terminated, either by the run flag or by a failed recovery.
    Stopped,
}

/// Where the healer loop stands.
#[derive(Clone, Copy, Debug, PartialEq, Eq)]
pub enum HealerPhase {
    /// Blocked on the loss channel.
    Waiting,
    /// Performing the single recovery attempt for one loss signal.
    Healing,
}

/// The shared state of the monitor/healer pair: the run flag, both loop
/// phases, the two single-slot rendezvous channels, and a count of recovery
/// attempts performed so far.
#[derive(Clone, Copy, Debug, PartialEq, Eq)]
pub struct Supervisor {
    /// The process-wide "keep operating" flag; moves from true to false at
    /// most once, never back.
    pub run_flag: bool,
    /// Phase of the monitor loop.
    pub monitor: MonitorPhase,
    /// Phase of the healer loop.
    pub healer: HealerPhase,
    /// The single-slot loss-signal channel: true when a loss signal is posted
    /// and not yet taken.
    pub loss_slot: bool,
    /// The single-slot outcome channel: the recovery outcome, once posted and
    /// not yet received.
    pub outcome_slot: Option<bool>,
    /// How many recovery attempts the healer has started.
    pub attempts: u64,
}

/// The rendezvous invariant: a loss signal in flight, a recovery attempt in
/// progress, and a pending outcome are mutually exclusive, each pins the
/// monitor to its blocking receive, and a blocked monitor always has exactly
/// one of the three to wait on.
pub open spec fn wf(s: Supervisor) -> bool {
    &&& s.loss_slot ==> s.monitor is AwaitingOutcome && s.healer is Waiting && s.outcome_slot
        is None
    &&& s.healer is Healing ==> s.monitor is AwaitingOutcome && !s.loss_slot && s.outcome_slot
        is None
    &&& s.outcome_slot is Some ==> s.monitor is AwaitingOutcome && s.healer is Waiting
        && !s.loss_slot
    &&& s.monitor is AwaitingOutcome ==> s.loss_slot || s.healer is Healing || s.outcome_slot
        is Some
}

/// One visit of the monitor to the top of its loop, given a fresh probe
/// result.  A stopped or blocked monitor does not reach the loop top, so the
/// state is unchanged; a cleared run flag ends the loop; a missing file
/// posts a loss signal and blocks the monitor on the outcome channel.
pub open spec fn monitor_observe_spec(s: Supervisor, status: FileExist) -> Supervisor {
    if !(s.monitor is Watching) {
        s
    } else if !s.run_flag {
        Supervisor { monitor: MonitorPhase::Stopped, ..s }
    } else if files_present(status) {
        s
    } else {
        Supervisor { monitor: MonitorPhase::AwaitingOutcome, loss_slot: true, ..s }
    }
}

/// The healer taking a posted loss signal: the slot empties and exactly one
/// recovery attempt starts.  With no signal posted nothing happens.
pub open spec fn healer_take_spec(s: Supervisor) -> (Supervisor, bool) {
    if s.loss_slot && s.healer is Waiting {
        (
            Supervisor {
                loss_slot: false,
                healer: HealerPhase::Healing,
                attempts: (s.attempts + 1) as u64,
                ..s
            },
            true,
        )
    } else {
        (s, false)
    }
}

/// The healer posting the outcome of its single recovery attempt.
pub open spec fn healer_report_spec(s: Supervisor, outcome: bool) -> Supervisor {
    if s.healer is Healing {
        Supervisor { healer: HealerPhase::Waiting, outcome_slot: Some(outcome), ..s }
    } else {
        s
    }
}

/// The monitor's blocking receive on the outcome channel.  A recovered
/// outcome resumes watching; a failed outcome clears the run flag and stops
/// the monitor — fatal, since the launcher is useless without its payload.
pub open spec fn monitor_receive_spec(s: Supervisor) -> (Supervisor, Option<bool>) {
    if s.monitor is AwaitingOutcome && s.outcome_slot is Some {
        let outcome = s.outcome_slot->0;
        if outcome {
            (Supervisor { monitor: MonitorPhase::Watching, outcome_slot: None, ..s }, Some(true))
        } else {
            (
                Supervisor {
                    monitor: MonitorPhase::Stopped,
                    run_flag: false,
                    outcome_slot: None,
                    ..s
                },
                Some(false),
            )
        }
    } else {
        (s, None)
    }
}

impl Supervisor {
    /// The state in which the supervisor pair is spawned.  Startup has
    /// already run one synchronous reconciliation, so the pair starts from a
    /// healthy disk with both loops idle.
    pub fn new() -> (r: Self)
        ensures
            wf(r),
            r.run_flag,
            r.monitor is Watching,
            r.healer is Waiting,
            !r.loss_slot,
            r.outcome_slot is None,
            r.attempts == 0,
    {
        Supervisor {
            run_flag: true,
            monitor: MonitorPhase::Watching,
            healer: HealerPhase::Waiting,
            loss_slot: false,
            outcome_slot: None,
            attempts: 0,
        }
    }

    /// The monitor observes one fresh probe result at the top of its loop.
    pub fn monitor_observe(&mut self, status: FileExist)
        ensures
            *final(self) == monitor_observe_spec(*old(self), status),
    {
        match self.monitor {
            MonitorPhase::Watching => {
                if !self.run_flag {
                    self.monitor = MonitorPhase::Stopped;
                } else if !both_files_present(status) {
                    self.loss_slot = true;
                    self.monitor = MonitorPhase::AwaitingOutcome;
                }
            },
            _ => {},
        }
    }

    /// The healer polls the loss channel; returns whether it took a signal
    /// and therefore started a recovery attempt.
    pub fn healer_take_loss(&mut self) -> (took: bool)
        requires
            old(self).attempts < u64::MAX,
        ensures
            (*final(self), took) == healer_take_spec(*old(self)),
    {
        match self.healer {
            HealerPhase::Waiting => {
                if self.loss_slot {
                    self.loss_slot = false;
                    self.healer = HealerPhase::Healing;
                    self.attempts = self.attempts + 1;
                    true
                } else {
                    false
                }
            },
            HealerPhase::Healing => false,
        }
    }

    /// The healer posts the outcome of its recovery attempt: true exactly
    /// when the re-probe after the attempt reported fully healthy.
    pub fn healer_report(&mut self, outcome: bool)
        ensures
            *final(self) == healer_report_spec(*old(self), outcome),
    {
        match self.healer {
            HealerPhase::Healing => {
                self.healer = HealerPhase::Waiting;
                self.outcome_slot = Some(outcome);
            },
            HealerPhase::Waiting => {},
        }
    }

    /// The monitor's receive on the outcome channel; `None` means the healer
    /// has not reported yet and the monitor keeps blocking.
    pub fn monitor_receive(&mut self) -> (received: Option<bool>)
        ensures
            (*final(self), received) == monitor_receive_spec(*old(self)),
    {
        match self.monitor {
            MonitorPhase::AwaitingOutcome => {
                match self.outcome_slot {
                    Some(outcome) => {
                        self.outcome_slot = None;
                        if outcome {
                            self.monitor = MonitorPhase::Watching;
                        } else {
                            self.run_flag = false;
                            self.monitor = MonitorPhase::Stopped;
                        }
                        Some(outcome)
                    },
                    None => None,
                }
            },
            _ => None,
        }
    }

    /// The monitor finds the outcome channel closed: the healer is gone
    /// without reporting — a state the rendezvous invariant itself rules out,
    /// reachable only if the healer's thread dies — so recovery can never
    /// succeed again; fatal.
    pub fn monitor_channel_closed(&mut self)
        requires
            old(self).monitor is AwaitingOutcome,
            old(self).healer is Waiting,
            !old(self).loss_slot,
            old(self).outcome_slot is None,
        ensures
            *final(self) == (Supervisor {
                monitor: MonitorPhase::Stopped,
                run_flag: false,
                ..*old(self)
            }),
    {
        self.run_flag = false;
        self.monitor = MonitorPhase::Stopped;
    }

    /// An external stop request clears the run flag; the monitor honours it
    /// at its next loop top.
    pub fn request_stop(&mut self)
        ensures
            *final(self) == (Supervisor { run_flag: false, ..*old(self) }),
    {
        self.run_flag = false;
    }
}

/// Every transition preserves the rendezvous invariant, never revives a
/// cleared run flag, and only the healer's take of a loss signal moves the
/// attempt count, by exactly one.
pub proof fn lemma_transitions_preserve_wf(s: Supervisor, status: FileExist, outcome: bool)
    requires
        wf(s),
    ensures
        wf(monitor_observe_spec(s, status)),
        wf(healer_take_spec(s).0),
        wf(healer_report_spec(s, outcome)),
        wf(monitor_receive_spec(s).0),
        !s.run_flag ==> !monitor_observe_spec(s, status).run_flag,
        !s.run_flag ==> !healer_take_spec(s).0.run_flag,
        !s.run_flag ==> !healer_report_spec(s, outcome).run_flag,
        !s.run_flag ==> !monitor_receive_spec(s).0.run_flag,
        monitor_observe_spec(s, status).attempts == s.attempts,
        healer_report_spec(s, outcome).attempts == s.attempts,
        monitor_receive_spec(s).0.attempts == s.attempts,
        !healer_take_spec(s).1 ==> healer_take_spec(s).0.attempts == s.attempts,
        healer_take_spec(s).1 && s.attempts < u64::MAX ==> healer_take_spec(s).0.attempts
            == s.attempts + 1,
{
}

/// No overlapping recovery attempts: a posted loss signal, a recovery in
/// progress and a pending outcome exclude one another, so at most one
/// recovery attempt can ever be in flight.
pub proof fn lemma_no_overlapping_recovery(s: Supervisor)
    requires
        wf(s),
    ensures
        !(s.loss_slot && s.healer is Healing),
        !(s.loss_slot && s.outcome_slot is Some),
        !(s.healer is Healing && s.outcome_slot is Some),
{
}

/// After a deletion is detected, exactly one recovery attempt occurs before
/// the monitor's next probe cycle, even if the deletion is detected twice in
/// rapid succession: the second detection finds the monitor already blocked
/// and changes nothing, and the healer can take the single posted loss signal
/// only once.
pub proof fn lemma_one_attempt_per_loss(s: Supervisor, status: FileExist)
    requires
        wf(s),
        s.run_flag,
        s.monitor is Watching,
        !files_present(status),
        s.attempts < u64::MAX,
    ensures
        ({
            let once = monitor_observe_spec(s, status);
            let twice = monitor_observe_spec(once, status);
            let first_take = healer_take_spec(twice);
            let second_take = healer_take_spec(first_take.0);
            &&& twice == once
            &&& first_take.1
            &&& first_take.0.attempts == s.attempts + 1
            &&& !second_take.1
            &&& second_take.0.attempts == s.attempts + 1
        }),
{
}

} // verus!
