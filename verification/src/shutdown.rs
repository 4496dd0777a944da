//! The shutdown coordinator: races the OS interrupt against the proxy
//! supervisor's exit and guarantees that the workload delete is attempted on
//! exactly one of the triggers. The losing path observes that cleanup
//! already ran and skips the duplicate delete.
//!
//! The coordinator is a single-fire state machine; the surrounding process
//! holds it behind a synchronization primitive so that the two racing paths
//! step it one at a time.

use vstd::prelude::*;

verus! {

/// What can end a session: the OS interrupt, or the proxy subprocess
/// exiting on its own.
#[derive(Clone, Copy, Debug, PartialEq, Eq, Structural)]
pub enum ShutdownTrigger {
    Interrupt,
    ProxyExited,
}

/// Tracks which trigger fired first and how many delete attempts were
/// issued. At most one delete is ever issued, whatever fires and in
/// whatever order.
pub struct ShutdownCoordinator {
    fired: bool,
    deletes_issued: u64,
    winner: Option<ShutdownTrigger>,
}

impl ShutdownCoordinator {
    /// Whether a trigger has already fired and cleanup was claimed.
    pub closed spec fn spec_fired(&self) -> bool {
        self.fired
    }

    /// How many delete attempts this coordinator has issued.
    pub closed spec fn spec_deletes_issued(&self) -> nat {
        self.deletes_issued as nat
    }

    /// The trigger that won the race, once one has fired.
    pub closed spec fn spec_winner(&self) -> Option<ShutdownTrigger> {
        self.winner
    }

    /// The coordinator's invariant: exactly one delete has been issued once
    /// a trigger has fired, none before, and the winner is recorded if and
    /// only if one fired.
    pub open spec fn inv(&self) -> bool {
        &&& self.spec_deletes_issued() == (if self.spec_fired() {
            1nat
        } else {
            0nat
        })
        &&& self.spec_fired() <==> self.spec_winner() is Some
    }

    /// A fresh coordinator: nothing fired, no delete issued.
    pub fn new() -> (r: Self)
        ensures
            !r.spec_fired(),
            r.spec_deletes_issued() == 0,
            r.spec_winner() is None,
            r.inv(),
    {
        ShutdownCoordinator { fired: false, deletes_issued: 0, winner: None }
    }

    /// Reports a trigger. Returns true exactly when this trigger won the
    /// race: the caller must then perform the one delete attempt. A later
    /// trigger observes that cleanup was already claimed and must skip it.
    pub fn on_trigger(&mut self, t: ShutdownTrigger) -> (do_delete: bool)
        requires
            old(self).inv(),
        ensures
            final(self).inv(),
            do_delete == !old(self).spec_fired(),
            final(self).spec_fired(),
            final(self).spec_deletes_issued() == old(self).spec_deletes_issued() + (
            if do_delete {
                1nat
            } else {
                0nat
            }),
            final(self).spec_winner() == (if do_delete {
                Some(t)
            } else {
                old(self).spec_winner()
            }),
            (*final(self), do_delete) == spec_on_trigger(*old(self), t),
    {
        if self.fired {
            false
        } else {
            self.fired = true;
            self.deletes_issued = self.deletes_issued + 1;
            self.winner = Some(t);
            true
        }
    }

    /// Whether cleanup has already been claimed, without stepping the
    /// machine.
    pub fn cleanup_claimed(&self) -> (r: bool)
        ensures
            r == self.spec_fired(),
    {
        self.fired
    }

    /// How many delete attempts have been issued so far.
    pub fn deletes_issued(&self) -> (n: u64)
        ensures
            n == self.spec_deletes_issued(),
    {
        self.deletes_issued
    }

    /// The trigger that won the race, if one has fired.
    pub fn winner(&self) -> (r: Option<ShutdownTrigger>)
        ensures
            r == self.spec_winner(),
    {
        self.winner
    }
}

/// One step of the coordinator, as a function: the next state and whether
/// this trigger must perform the delete.
pub open spec fn spec_on_trigger(c: ShutdownCoordinator, t: ShutdownTrigger) -> (
    ShutdownCoordinator,
    bool,
) {
    if c.spec_fired() {
        (c, false)
    } else {
        (spec_fired_coordinator(c, t), true)
    }
}

/// The state after the winning trigger `t` claims cleanup.
pub closed spec fn spec_fired_coordinator(
    c: ShutdownCoordinator,
    t: ShutdownTrigger,
) -> ShutdownCoordinator {
    ShutdownCoordinator {
        fired: true,
        deletes_issued: (c.deletes_issued + 1) as u64,
        winner: Some(t),
    }
}

/// The coordinator after a whole sequence of triggers, in order.
pub open spec fn spec_run(c: ShutdownCoordinator, ts: Seq<ShutdownTrigger>) -> ShutdownCoordinator
    decreases ts.len(),
{
    if ts.len() == 0 {
        c
    } else {
        spec_run(spec_on_trigger(c, ts[0]).0, ts.subrange(1, ts.len() as int))
    }
}

/// Once a trigger has fired, any further triggers leave the delete count at
/// one and the winner unchanged.
proof fn lemma_run_after_fired(c: ShutdownCoordinator, ts: Seq<ShutdownTrigger>)
    requires
        c.inv(),
        c.spec_fired(),
    ensures
        spec_run(c, ts) == c,
    decreases ts.len(),
{
    if ts.len() > 0 {
        lemma_run_after_fired(c, ts.subrange(1, ts.len() as int));
    }
}

/// The shutdown-race guarantee: from a fresh coordinator, any non-empty
/// sequence of triggers — the interrupt and the proxy exit, concurrently
/// reported in any order, any number of times — issues exactly one delete,
/// never zero, never two; and the winner is the trigger that arrived first.
pub proof fn lemma_delete_exactly_once(start: ShutdownCoordinator, ts: Seq<ShutdownTrigger>)
    requires
        start.inv(),
        !start.spec_fired(),
        ts.len() >= 1,
    ensures
        spec_run(start, ts).spec_deletes_issued() == 1,
        spec_run(start, ts).spec_winner() == Some(ts[0]),
{
    let after_first = spec_on_trigger(start, ts[0]).0;
    assert(after_first.inv());
    lemma_run_after_fired(after_first, ts.subrange(1, ts.len() as int));
}

} // verus!
