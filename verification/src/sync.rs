//! Critical-section discipline for the shared console state.
//!
//! The renderer and the decoder are shared between the boot path and the
//! interrupt handlers on one core without a scheduler: the only protection
//! is to disable interrupts for the duration of the critical section. The
//! invariant of the discipline is that the guard is never held while
//! interrupts are enabled — a handler arriving then could try to take the
//! same guard and spin forever, since nothing would ever preempt it. The
//! state machine here is the shape every guarded access must follow:
//! remember the interrupt flag, disable, take the guard, work, release,
//! restore.

use vstd::prelude::*;

verus! {

/// The interrupt flag together with the console guard.
pub struct SyncState {
    interrupts_on: bool,
    guard_held: bool,
    saved_flag: bool,
}

impl SyncState {
    /// Whether interrupts are currently enabled.
    pub closed spec fn spec_interrupts_on(self) -> bool {
        self.interrupts_on
    }

    /// Whether the console guard is currently held.
    pub closed spec fn spec_guard_held(self) -> bool {
        self.guard_held
    }

    /// The interrupt flag remembered on entering the critical section.
    pub closed spec fn spec_saved_flag(self) -> bool {
        self.saved_flag
    }

    /// The discipline's invariant: the guard is never held while
    /// interrupts are enabled.
    pub open spec fn inv(self) -> bool {
        self.spec_guard_held() ==> !self.spec_interrupts_on()
    }

    /// Boot state: interrupts disabled, guard free.
    pub fn new() -> (s: SyncState)
        ensures
            s.inv(),
            !s.spec_interrupts_on(),
            !s.spec_guard_held(),
    {
        SyncState { interrupts_on: false, guard_held: false, saved_flag: false }
    }

    /// Enable interrupts, as the boot path does once everything is
    /// installed. The guard must be free.
    pub fn enable_interrupts(&mut self)
        requires
            old(self).inv(),
            !old(self).spec_guard_held(),
        ensures
            final(self).inv(),
            final(self).spec_interrupts_on(),
            !final(self).spec_guard_held(),
    {
        self.interrupts_on = true;
    }

    /// Enter the critical section: remember the interrupt flag, disable
    /// interrupts, take the guard. The guard must be free — on one core
    /// without a scheduler, taking a held guard would spin forever.
    pub fn enter_critical(&mut self)
        requires
            old(self).inv(),
            !old(self).spec_guard_held(),
        ensures
            final(self).inv(),
            final(self).spec_guard_held(),
            !final(self).spec_interrupts_on(),
            final(self).spec_saved_flag() == old(self).spec_interrupts_on(),
    {
        self.saved_flag = self.interrupts_on;
        self.interrupts_on = false;
        self.guard_held = true;
    }

    /// Leave the critical section: release the guard, then restore the
    /// remembered interrupt flag. The order matters: restoring first would
    /// hold the guard with interrupts enabled.
    pub fn exit_critical(&mut self)
        requires
            old(self).inv(),
            old(self).spec_guard_held(),
        ensures
            final(self).inv(),
            !final(self).spec_guard_held(),
            final(self).spec_interrupts_on() == old(self).spec_saved_flag(),
            final(self).spec_saved_flag() == old(self).spec_saved_flag(),
    {
        self.guard_held = false;
        self.interrupts_on = self.saved_flag;
    }
}

} // verus!
