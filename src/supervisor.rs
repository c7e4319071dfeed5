//! The policy that supervises the launched command: when to spawn it, when to
//! kill the running one, and when a change waits for the current run to end.
//!
//! Decisions are made one event at a time on a single slot that holds at most
//! one child. The caller performs each returned action and feeds back what
//! happened (the child was reaped, the spawn failed).
use vstd::prelude::*;
use crate::debounce::CoalescedChange;
use crate::status::Termination;

verus! {

/// What the supervisor knows of its one child slot.
#[derive(Clone, Copy, Debug, PartialEq, Eq, Structural)]
pub enum Slot {
    /// No child is alive.
    Idle,
    /// A child is alive and nothing was asked of it.
    Running,
    /// A child is alive and has been told to terminate; it is not reaped yet.
    Terminating,
}

/// What the caller does after a decision.
#[derive(Clone, Copy, Debug, PartialEq, Eq, Structural)]
pub struct Action {
    /// Hand this outcome of the reaped child to the status pipeline.
    pub report: Option<Termination>,
    /// Send the running child a forceful terminate signal, then reap it.
    pub kill: bool,
    /// Start a new run of the command.
    pub spawn: bool,
    /// Clear the screen right before that spawn.
    pub clear: bool,
}

/// The supervisor of one command's runs.
#[derive(Clone, Copy, Debug, PartialEq, Eq, Structural)]
pub struct Supervisor {
    /// A new change terminates the running child instead of waiting for it.
    pub restart: bool,
    /// Clear the screen before each spawn.
    pub clear: bool,
    /// The state of the child slot.
    pub slot: Slot,
    /// A change came while a child was alive: run once more after it ends.
    pub pending: bool,
}

/// Nothing to do.
pub open spec fn no_action() -> Action {
    Action { report: None, kill: false, spawn: false, clear: false }
}

/// Start a run, clearing the screen first when `clear` is set.
pub open spec fn spawn_action(report: Option<Termination>, clear: bool) -> Action {
    Action { report, kill: false, spawn: true, clear }
}

/// A supervisor that was never told of a pending run while idle.
pub open spec fn well_formed(s: Supervisor) -> bool {
    s.slot is Idle ==> !s.pending
}

/// The decision on a qualifying change.
pub open spec fn on_change_spec(s: Supervisor) -> (Supervisor, Action) {
    match s.slot {
        Slot::Idle => (Supervisor { slot: Slot::Running, pending: false, ..s }, spawn_action(None, s.clear)),
        Slot::Running => if s.restart {
            (Supervisor { slot: Slot::Terminating, pending: true, ..s },
             Action { report: None, kill: true, spawn: false, clear: false })
        } else {
            (Supervisor { pending: true, ..s }, no_action())
        },
        Slot::Terminating => (Supervisor { pending: true, ..s }, no_action()),
    }
}

/// The decision once the child has been reaped with `outcome`.
pub open spec fn on_reaped_spec(s: Supervisor, outcome: Termination) -> (Supervisor, Action) {
    if s.pending {
        (Supervisor { slot: Slot::Running, pending: false, ..s }, spawn_action(Some(outcome), s.clear))
    } else {
        (Supervisor { slot: Slot::Idle, pending: false, ..s },
         Action { report: Some(outcome), kill: false, spawn: false, clear: false })
    }
}

/// The decision when a spawn failed: the slot is idle again.
pub open spec fn on_spawn_failed_spec(s: Supervisor) -> (Supervisor, Action) {
    (Supervisor { slot: Slot::Idle, pending: false, ..s }, no_action())
}

impl Supervisor {
    /// An idle supervisor with the given restart and clear-screen policy.
    pub fn new(restart: bool, clear: bool) -> (r: Supervisor)
        ensures
            r == (Supervisor { restart, clear, slot: Slot::Idle, pending: false }),
    {
        Supervisor { restart, clear, slot: Slot::Idle, pending: false }
    }

    /// The decision at startup: run once right away unless the first run is
    /// postponed until a change.
    pub fn start(&mut self, postpone: bool) -> (r: Action)
        requires
            well_formed(*old(self)),
        ensures
            postpone ==> *final(self) == *old(self) && r == no_action(),
            !postpone ==> (*final(self), r) == on_change_spec(*old(self)),
            well_formed(*final(self)),
    {
        if postpone {
            Action { report: None, kill: false, spawn: false, clear: false }
        } else {
            self.on_change()
        }
    }

    /// The decision on a qualifying change: spawn when idle; when a child is
    /// alive, remember one pending run and, under the restart policy, ask for
    /// the child to be killed.
    pub fn on_change(&mut self) -> (r: Action)
        requires
            well_formed(*old(self)),
        ensures
            (*final(self), r) == on_change_spec(*old(self)),
            well_formed(*final(self)),
    {
        match self.slot {
            Slot::Idle => {
                self.slot = Slot::Running;
                self.pending = false;
                Action { report: None, kill: false, spawn: true, clear: self.clear }
            },
            Slot::Running => {
                self.pending = true;
                if self.restart {
                    self.slot = Slot::Terminating;
                    Action { report: None, kill: true, spawn: false, clear: false }
                } else {
                    Action { report: None, kill: false, spawn: false, clear: false }
                }
            },
            Slot::Terminating => {
                self.pending = true;
                Action { report: None, kill: false, spawn: false, clear: false }
            },
        }
    }

    /// The decision once the child has exited and been reaped: report how it
    /// ended, and start the pending run if there is one.
    pub fn on_reaped(&mut self, outcome: Termination) -> (r: Action)
        requires
            well_formed(*old(self)),
            !(old(self).slot is Idle),
        ensures
            (*final(self), r) == on_reaped_spec(*old(self), outcome),
            well_formed(*final(self)),
    {
        if self.pending {
            self.slot = Slot::Running;
            self.pending = false;
            Action { report: Some(outcome), kill: false, spawn: true, clear: self.clear }
        } else {
            self.slot = Slot::Idle;
            Action { report: Some(outcome), kill: false, spawn: false, clear: false }
        }
    }

    /// The decision when the command could not be spawned: back to idle,
    /// waiting for the next change.
    pub fn on_spawn_failed(&mut self) -> (r: Action)
        requires
            well_formed(*old(self)),
        ensures
            (*final(self), r) == on_spawn_failed_spec(*old(self)),
            well_formed(*final(self)),
    {
        self.slot = Slot::Idle;
        self.pending = false;
        Action { report: None, kill: false, spawn: false, clear: false }
    }

    /// The decision on a change that came out of the debouncer: only a
    /// qualifying change of files counts; an error or a change of excluded
    /// kinds asks for nothing.
    pub fn on_coalesced(&mut self, c: &CoalescedChange) -> (r: Action)
        requires
            well_formed(*old(self)),
        ensures
            c.qualifies && !c.error ==> (*final(self), r) == on_change_spec(*old(self)),
            !(c.qualifies && !c.error) ==> *final(self) == *old(self) && r == no_action(),
            well_formed(*final(self)),
    {
        if c.qualifies && !c.error {
            self.on_change()
        } else {
            Action { report: None, kill: false, spawn: false, clear: false }
        }
    }

    /// Whether a child is alive in the slot.
    pub fn is_busy(&self) -> (r: bool)
        ensures
            r == !(self.slot is Idle),
    {
        match self.slot {
            Slot::Idle => false,
            _ => true,
        }
    }
}

/// The state and the spawns after `n` qualifying changes, starting from `s`.
pub open spec fn changes(s: Supervisor, n: nat) -> (Supervisor, nat)
    decreases n,
{
    if n == 0 {
        (s, 0)
    } else {
        let (t, k) = changes(s, (n - 1) as nat);
        let (u, a) = on_change_spec(t);
        (u, if a.spawn { k + 1 } else { k })
    }
}

/// Without the restart policy, any number of changes while a child runs
/// spawn nothing and leave the child running with one pending run; once it
/// is reaped exactly one run starts, and nothing is left pending, so when
/// that run is reaped in turn nothing more starts.
pub proof fn lemma_pending_runs_coalesce(s: Supervisor, n: nat, outcome: Termination, next: Termination)
    requires
        !s.restart,
        s.slot is Running,
        n > 0,
    ensures
        changes(s, n).1 == 0,
        changes(s, n).0.slot is Running,
        changes(s, n).0.pending,
        on_reaped_spec(changes(s, n).0, outcome).1.spawn,
        on_reaped_spec(changes(s, n).0, outcome).0.slot is Running,
        !on_reaped_spec(changes(s, n).0, outcome).0.pending,
        !on_reaped_spec(on_reaped_spec(changes(s, n).0, outcome).0, next).1.spawn,
        on_reaped_spec(on_reaped_spec(changes(s, n).0, outcome).0, next).0.slot is Idle,
    decreases n,
{
    reveal_with_fuel(changes, 2);
    if n > 1 {
        lemma_pending_runs_coalesce(s, (n - 1) as nat, outcome, next);
    }
}

/// Under the restart policy, a change while a child is alive never spawns:
/// it asks for the child to be killed (at most once), and a new run starts
/// only on the decision made after that child is reaped.
pub proof fn lemma_restart_reaps_before_spawn(s: Supervisor, n: nat, outcome: Termination)
    requires
        s.restart,
        !(s.slot is Idle),
        n > 0,
    ensures
        changes(s, n).1 == 0,
        changes(s, n).0.slot is Terminating,
        on_change_spec(s).1.kill <==> s.slot is Running,
        on_change_spec(s).0.slot is Terminating,
        on_reaped_spec(changes(s, n).0, outcome).1.spawn,
        on_reaped_spec(changes(s, n).0, outcome).1.report == Some(outcome),
        !on_reaped_spec(changes(s, n).0, outcome).1.kill,
    decreases n,
{
    reveal_with_fuel(changes, 2);
    if n > 1 {
        lemma_restart_reaps_before_spawn(s, (n - 1) as nat, outcome);
    }
}

/// A spawn is only ever decided for an idle slot or for one whose child has
/// just been reaped: no decision on a change spawns while a child is alive.
pub proof fn lemma_single_child(s: Supervisor)
    ensures
        on_change_spec(s).1.spawn <==> s.slot is Idle,
        on_change_spec(s).1.spawn ==> !on_change_spec(s).1.kill,
{
}

} // verus!
