//! The hotkey dispatch loop: ordered registration of shortcut bindings
//! against the system-wide hotkey table, a cooperative poll step, and
//! drain-on-stop.
//!
//! [`HotkeyRegistry`] models the one system-wide table of claimed key
//! combinations: registering an already-claimed combination fails and changes
//! nothing.  [`Dispatcher`] owns the bindings it managed to register and
//! walks the phases registering, running, draining, stopped.  The unverified
//! driver runs the actual poll loop on its dedicated thread: each iteration
//! it feeds the pending hotkey message (if any) and the stop channel's state
//! into [`Dispatcher::poll`] and performs the returned action.

use vstd::prelude::*;

use crate::settings::Action;
use crate::settings::Binding;
use crate::settings::HotkeyValue;

verus! {

broadcast use vstd::seq_lib::group_seq_properties;

/// The system-wide table of claimed hotkey combinations.  There is one such
/// table per machine; every dispatcher registers into the same one, which is
/// why a combination can be claimed by somebody else already.
pub struct HotkeyRegistry {
    /// The currently claimed combinations, each at most once.
    pub claimed: Vec<HotkeyValue>,
}

impl HotkeyRegistry {
    /// Whether the combination is currently claimed.
    pub open spec fn claims(&self, hk: HotkeyValue) -> bool {
        self.claimed@.contains(hk)
    }

    /// No combination is claimed twice.
    pub open spec fn wf(&self) -> bool {
        forall|i: int, j: int|
            0 <= i < j < self.claimed@.len() ==> self.claimed@[i] != self.claimed@[j]
    }

    /// An empty table: nothing claimed.
    pub fn new() -> (r: Self)
        ensures
            r.wf(),
            r.claimed@.len() == 0,
    {
        HotkeyRegistry { claimed: Vec::new() }
    }

    /// Claims a combination.  Fails exactly when the combination is already
    /// claimed, in which case the table is unchanged.
    pub fn register(&mut self, hk: HotkeyValue) -> (ok: bool)
        requires
            old(self).wf(),
        ensures
            final(self).wf(),
            ok == !old(self).claims(hk),
            ok ==> final(self).claimed@ == old(self).claimed@.push(hk),
            !ok ==> *final(self) == *old(self),
    {
        let n = self.claimed.len();
        let mut i: usize = 0;
        while i < n
            invariant
                self.claimed == old(self).claimed,
                old(self).wf(),
                n == self.claimed@.len(),
                i <= n,
                forall|k: int| 0 <= k < i ==> self.claimed@[k] != hk,
            decreases n - i,
        {
            if self.claimed[i] == hk {
                proof {
                    assert(old(self).claims(hk));
                }
                return false;
            }
            i += 1;
        }
        self.claimed.push(hk);
        true
    }

    /// Releases a combination.  Every other combination's claim is
    /// unaffected.
    pub fn unregister(&mut self, hk: HotkeyValue) -> (was: bool)
        requires
            old(self).wf(),
        ensures
            final(self).wf(),
            was == old(self).claims(hk),
            !final(self).claims(hk),
            forall|other: HotkeyValue|
                other != hk ==> final(self).claims(other) == old(self).claims(other),
    {
        let n = self.claimed.len();
        let mut i: usize = 0;
        while i < n
            invariant
                n == self.claimed@.len(),
                i <= n,
                self.claimed == old(self).claimed,
                old(self).wf(),
                forall|k: int| 0 <= k < i ==> self.claimed@[k] != hk,
            decreases n - i,
        {
            if self.claimed[i] == hk {
                let ghost before = self.claimed@;
                self.claimed.remove(i);
                proof {
                    assert forall|k: int| 0 <= k < self.claimed@.len() implies self.claimed@[k]
                        != hk by {
                        if k < i {
                            assert(self.claimed@[k] == before[k]);
                        } else {
                            assert(self.claimed@[k] == before[k + 1]);
                        }
                    }
                    assert forall|other: HotkeyValue|
                        other != hk implies self.claims(other) == old(self).claims(other) by {
                        if old(self).claims(other) {
                            let w = choose|w: int|
                                0 <= w < before.len() && before[w] == other;
                            if w < i {
                                assert(self.claimed@[w] == other);
                            } else {
                                assert(self.claimed@[w - 1] == other);
                            }
                        }
                        if self.claims(other) {
                            let w = choose|w: int|
                                0 <= w < self.claimed@.len() && self.claimed@[w] == other;
                            if w < i {
                                assert(before[w] == other);
                            } else {
                                assert(before[w + 1] == other);
                            }
                        }
                    }
                    assert forall|a: int, b: int|
                        0 <= a < b < self.claimed@.len() implies self.claimed@[a]
                        != self.claimed@[b] by {
                        let a0 = if a < i { a } else { a + 1 };
                        let b0 = if b < i { b } else { b + 1 };
                        assert(self.claimed@[a] == before[a0]);
                        assert(self.claimed@[b] == before[b0]);
                    }
                }
                return true;
            }
            i += 1;
        }
        false
    }
}

/// Which phase of its life the dispatcher is in.
#[derive(Clone, Copy, Debug, PartialEq, Eq)]
pub enum DispatcherPhase {
    /// Claiming its declared bindings, in declared order.
    Registering,
    /// Poll loop active.
    Running,
    /// Stop signal seen; bindings are about to be released.
    Draining,
    /// Loop exited: either after draining or after a registration failure.
    Stopped,
}

/// What one poll-loop iteration asks the driver to do.
#[derive(Clone, Copy, Debug, PartialEq, Eq)]
pub enum PollOutcome {
    /// A stop message is present: leave the loop and drain.
    Stopping,
    /// A pending hotkey message matched a binding: perform its action.
    Dispatched(Action),
    /// Nothing to do this interval.
    Idle,
}

/// Whether declaration `i` cannot register, given the combinations claimed
/// before registration started: its combination is either already claimed or
/// repeated among the earlier declarations.
pub open spec fn conflict_at(claimed: Seq<HotkeyValue>, declared: Seq<Binding>, i: int) -> bool {
    claimed.contains(declared[i].hotkey) || exists|j: int|
        0 <= j < i && declared[j].hotkey == declared[i].hotkey
}

/// Every declared binding registers: none conflicts.
pub open spec fn all_register(claimed: Seq<HotkeyValue>, declared: Seq<Binding>) -> bool {
    forall|i: int| 0 <= i < declared.len() ==> !conflict_at(claimed, declared, i)
}

/// No two bindings share a combination.
pub open spec fn distinct_combos(bindings: Seq<Binding>) -> bool {
    forall|i: int, j: int|
        0 <= i < j < bindings.len() ==> bindings[i].hotkey != bindings[j].hotkey
}

/// Some binding uses the combination.
pub open spec fn combo_in(bindings: Seq<Binding>, hk: HotkeyValue) -> bool {
    exists|i: int| 0 <= i < bindings.len() && bindings[i].hotkey == hk
}

/// The dispatcher's bindings are all claimed in the table and pairwise
/// distinct, so it can later release exactly what it holds.
pub open spec fn linked(bindings: Seq<Binding>, reg: &HotkeyRegistry) -> bool {
    &&& distinct_combos(bindings)
    &&& forall|i: int| 0 <= i < bindings.len() ==> reg.claims(bindings[i].hotkey)
}

/// The action of the first binding whose combination matches, if any.
pub open spec fn first_match(bindings: Seq<Binding>, hk: HotkeyValue) -> Option<Action>
    decreases bindings.len(),
{
    if bindings.len() == 0 {
        None
    } else if bindings[0].hotkey == hk {
        Some(bindings[0].action)
    } else {
        first_match(bindings.drop_first(), hk)
    }
}

/// After registering the first `k` declarations without conflict, the
/// registered prefix is linked to the table: pairwise distinct and all
/// claimed.
proof fn lemma_prefix_linked(
    declared: Seq<Binding>,
    k: int,
    base: Seq<HotkeyValue>,
    reg: &HotkeyRegistry,
)
    requires
        0 <= k <= declared.len(),
        reg.claimed@ == base + declared.take(k).map_values(|b: Binding| b.hotkey),
        forall|j: int| 0 <= j < k ==> !conflict_at(base, declared, j),
    ensures
        linked(declared.take(k), reg),
{
    let pref = declared.take(k);
    let combos = pref.map_values(|b: Binding| b.hotkey);
    assert forall|i: int, j: int| 0 <= i < j < pref.len() implies pref[i].hotkey
        != pref[j].hotkey by {
        if pref[i].hotkey == pref[j].hotkey {
            assert(declared[i].hotkey == declared[j].hotkey);
            assert(conflict_at(base, declared, j));
        }
    }
    assert forall|i: int| 0 <= i < pref.len() implies reg.claims(pref[i].hotkey) by {
        assert(combos[i] == pref[i].hotkey);
        assert(reg.claimed@[base.len() + i] == combos[i]);
    }
}

/// What one poll iteration decides, given the pending message.
pub open spec fn poll_outcome_spec(bindings: Seq<Binding>, msg: Option<HotkeyValue>) -> PollOutcome {
    match msg {
        Some(hk) => match first_match(bindings, hk) {
            Some(a) => PollOutcome::Dispatched(a),
            None => PollOutcome::Idle,
        },
        None => PollOutcome::Idle,
    }
}

/// Resolves a fired combination to the action of the first matching binding.
pub fn lookup(bindings: &Vec<Binding>, hk: HotkeyValue) -> (r: Option<Action>)
    ensures
        r == first_match(bindings@, hk),
{
    let n = bindings.len();
    let mut i: usize = 0;
    while i < n
        invariant
            n == bindings@.len(),
            i <= n,
            first_match(bindings@, hk) == first_match(bindings@.skip(i as int), hk),
        decreases n - i,
    {
        let b = bindings[i];
        proof {
            assert(bindings@.skip(i as int)[0] == b);
            assert(bindings@.skip(i as int).drop_first() =~= bindings@.skip(i + 1));
        }
        if b.hotkey == hk {
            return Some(b.action);
        }
        i += 1;
    }
    proof {
        assert(bindings@.skip(n as int) =~= Seq::<Binding>::empty());
    }
    None
}

/// One dispatcher: the bindings it has registered, in registration order,
/// and its phase.
pub struct Dispatcher {
    /// Current phase.
    pub phase: DispatcherPhase,
    /// The successfully registered bindings, in declared order.
    pub bindings: Vec<Binding>,
}

impl Dispatcher {
    /// A fresh dispatcher, about to register its declared bindings.
    pub fn new() -> (r: Self)
        ensures
            r.phase is Registering,
            r.bindings@.len() == 0,
    {
        Dispatcher { phase: DispatcherPhase::Registering, bindings: Vec::new() }
    }

    /// Registers the declared bindings in declared order.  On success every
    /// binding is claimed and the dispatcher runs.  A single failure is fatal
    /// for the dispatcher — it stops and reports the failing index — but the
    /// bindings registered before the failure stay claimed and held.
    pub fn register_all(&mut self, reg: &mut HotkeyRegistry, declared: &Vec<Binding>) -> (r:
        Result<(), usize>)
        requires
            old(self).phase is Registering,
            old(self).bindings@.len() == 0,
            old(reg).wf(),
        ensures
            final(reg).wf(),
            linked(final(self).bindings@, final(reg)),
            match r {
                Ok(()) => {
                    &&& all_register(old(reg).claimed@, declared@)
                    &&& final(self).phase is Running
                    &&& final(self).bindings@ == declared@
                    &&& final(reg).claimed@ == old(reg).claimed@ + declared@.map_values(
                        |b: Binding| b.hotkey,
                    )
                },
                Err(i) => {
                    &&& i < declared@.len()
                    &&& conflict_at(old(reg).claimed@, declared@, i as int)
                    &&& forall|j: int|
                        0 <= j < i ==> !conflict_at(old(reg).claimed@, declared@, j)
                    &&& final(self).phase is Stopped
                    &&& final(self).bindings@ == declared@.take(i as int)
                    &&& final(reg).claimed@ == old(reg).claimed@ + declared@.take(
                        i as int,
                    ).map_values(|b: Binding| b.hotkey)
                },
            },
    {
        let n = declared.len();
        let mut k: usize = 0;
        while k < n
            invariant
                n == declared@.len(),
                k <= n,
                self.phase is Registering,
                self.bindings@ == declared@.take(k as int),
                reg.wf(),
                reg.claimed@ == old(reg).claimed@ + declared@.take(k as int).map_values(
                    |b: Binding| b.hotkey,
                ),
                forall|j: int| 0 <= j < k ==> !conflict_at(old(reg).claimed@, declared@, j),
            decreases n - k,
        {
            let ghost prefix = declared@.take(k as int).map_values(|b: Binding| b.hotkey);
            let b = declared[k];
            let ok = reg.register(b.hotkey);
            if ok {
                self.bindings.push(b);
                proof {
                    assert(declared@.take(k + 1) =~= declared@.take(k as int).push(b));
                    assert(declared@.take(k + 1).map_values(|b: Binding| b.hotkey) =~= prefix.push(
                        b.hotkey,
                    ));
                    assert(reg.claimed@ =~= old(reg).claimed@ + declared@.take(k + 1).map_values(
                        |b: Binding| b.hotkey,
                    ));
                    // the newly registered combination conflicted with nothing
                    assert(!(old(reg).claimed@ + prefix).contains(b.hotkey));
                    assert forall|j: int|
                        0 <= j < k && declared@[j].hotkey == declared@[k as int].hotkey
                        implies false by {
                        assert(prefix[j] == b.hotkey);
                        assert(prefix.contains(b.hotkey));
                    }
                    assert(!conflict_at(old(reg).claimed@, declared@, k as int));
                }
                k += 1;
            } else {
                self.phase = DispatcherPhase::Stopped;
                proof {
                    // the failing combination was claimed: either from the
                    // start, or by an earlier declaration
                    assert((old(reg).claimed@ + prefix).contains(b.hotkey));
                    if !old(reg).claimed@.contains(b.hotkey) {
                        assert(prefix.contains(b.hotkey));
                        let w = choose|w: int| 0 <= w < prefix.len() && prefix[w] == b.hotkey;
                        assert(declared@.take(k as int)[w].hotkey == b.hotkey);
                        assert(declared@[w].hotkey == declared@[k as int].hotkey);
                    }
                    assert(conflict_at(old(reg).claimed@, declared@, k as int));
                    lemma_prefix_linked(declared@, k as int, old(reg).claimed@, reg);
                }
                return Err(k);
            }
        }
        self.phase = DispatcherPhase::Running;
        proof {
            lemma_prefix_linked(declared@, n as int, old(reg).claimed@, reg);
            assert(declared@.take(n as int) =~= declared@);
        }
        Ok(())
    }

    /// One iteration of the cooperative poll loop.  A present stop message
    /// makes this the last iteration: the dispatcher leaves the loop — within
    /// one poll interval of the stop being sent — and moves to draining.
    /// Otherwise a pending hotkey message is resolved to the action of the
    /// first matching binding, to be performed by the driver without the loop
    /// blocking on its completion.
    pub fn poll(&mut self, stop_requested: bool, msg: Option<HotkeyValue>) -> (out: PollOutcome)
        requires
            old(self).phase is Running,
        ensures
            final(self).bindings == old(self).bindings,
            stop_requested ==> final(self).phase is Draining && out is Stopping,
            !stop_requested ==> *final(self) == *old(self) && out == poll_outcome_spec(
                old(self).bindings@,
                msg,
            ),
    {
        if stop_requested {
            self.phase = DispatcherPhase::Draining;
            return PollOutcome::Stopping;
        }
        match msg {
            Some(hk) => match lookup(&self.bindings, hk) {
                Some(a) => PollOutcome::Dispatched(a),
                None => PollOutcome::Idle,
            },
            None => PollOutcome::Idle,
        }
    }

    /// Releases every binding the dispatcher holds and stops.  Afterwards the
    /// combinations are unclaimed again — a subsequent registration of the
    /// same combinations, by another dispatcher, succeeds — and every foreign
    /// claim is untouched.
    pub fn drain(&mut self, reg: &mut HotkeyRegistry)
        requires
            old(self).phase is Draining,
            old(reg).wf(),
            linked(old(self).bindings@, old(reg)),
        ensures
            final(reg).wf(),
            final(self).phase is Stopped,
            final(self).bindings@.len() == 0,
            forall|i: int|
                0 <= i < old(self).bindings@.len() ==> !final(reg).claims(
                    old(self).bindings@[i].hotkey,
                ),
            forall|hk: HotkeyValue|
                !combo_in(old(self).bindings@, hk) ==> final(reg).claims(hk) == old(reg).claims(
                    hk,
                ),
    {
        let ghost all = old(self).bindings@;
        while self.bindings.len() > 0
            invariant
                reg.wf(),
                self.phase == old(self).phase,
                distinct_combos(all),
                self.bindings@.len() <= all.len(),
                self.bindings@ == all.take(self.bindings@.len() as int),
                linked(self.bindings@, reg),
                forall|i: int|
                    self.bindings@.len() <= i < all.len() ==> !reg.claims(all[i].hotkey),
                forall|hk: HotkeyValue|
                    !combo_in(all, hk) ==> reg.claims(hk) == old(reg).claims(hk),
            decreases self.bindings@.len(),
        {
            let ghost len0: int = self.bindings@.len() as int;
            let ghost pre = self.bindings@;
            let b = self.bindings.pop().unwrap();
            proof {
                assert(pre == all.take(len0));
                assert(pre[len0 - 1] == all[len0 - 1]);
                assert(b == all[len0 - 1]);
                assert(self.bindings@ =~= all.take(len0 - 1));
            }
            reg.unregister(b.hotkey);
            proof {
                assert forall|i: int|
                    0 <= i < self.bindings@.len() implies reg.claims(
                    self.bindings@[i].hotkey,
                ) by {
                    assert(all[i] == self.bindings@[i]);
                    assert(all[i].hotkey != all[len0 - 1].hotkey);
                }
                assert forall|i: int|
                    self.bindings@.len() <= i < all.len() implies !reg.claims(all[i].hotkey) by {
                    if i > len0 - 1 {
                        assert(all[i].hotkey != all[len0 - 1].hotkey);
                    }
                }
                assert forall|hk: HotkeyValue|
                    !combo_in(all, hk) implies reg.claims(hk) == old(reg).claims(hk) by {
                    assert(hk != all[len0 - 1].hotkey);
                }
            }
        }
        self.phase = DispatcherPhase::Stopped;
    }
}

} // verus!
