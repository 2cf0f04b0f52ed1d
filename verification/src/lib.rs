//! In-process verification harness for a source-level breakpoint facility.
//!
//! A debugging aid can plant a processor trap instruction at a chosen source
//! line, either unconditionally or guarded by a boolean condition. When no
//! debugger intercepts the resulting trap signal, the process's own handler
//! for that signal observes it instead. This crate holds the state such a
//! harness keeps for a thread — has a trap signal been observed since the
//! last reset? — and proves the transitions that the reset, query, trap and
//! guarded-trap operations perform on it.
//!
//! The pieces that must touch the operating system (installing the handler
//! through `signal`, the trap instruction itself) live outside this library;
//! they drive a [`Harness`] value and inherit its verified transitions.

use vstd::prelude::*;

verus! {

/// Signal number of the POSIX trap/debug signal (`SIGTRAP`).
pub const SIGTRAP: i32 = 5;

/// Trap-hit flag value after a trap signal is delivered to and handled by
/// the in-process handler: the flag is raised whatever it held before.
pub open spec fn hit_after_trap(hit: bool) -> bool {
    true
}

/// Trap-hit flag value after the guarded breakpoint form runs with guard `g`:
/// raised as by a trap when the guard holds, untouched when it does not.
pub open spec fn hit_after_guarded(hit: bool, g: bool) -> bool {
    if g {
        hit_after_trap(hit)
    } else {
        hit
    }
}

/// Trap-hit flag value after a reset: cleared whatever it held before.
pub open spec fn hit_after_reset(hit: bool) -> bool {
    false
}

/// The trap verification harness as one thread sees it: the thread's own
/// trap-hit flag, and whether the process-wide trap-signal handler has been
/// installed. Each thread owns its flag outright, so no operation here ever
/// races on it; the handler installation is shared by the whole process.
pub struct Harness {
    hit: bool,
    installed: bool,
}

impl Harness {
    /// Whether a trap signal has been observed on this thread since the
    /// last reset.
    pub closed spec fn observed(&self) -> bool {
        self.hit
    }

    /// Whether the process-wide handler for the trap signal is installed.
    pub closed spec fn handler_installed(&self) -> bool {
        self.installed
    }

    /// The state of a fresh thread: no trap observed yet, and the handler
    /// not yet installed — installation happens lazily, on the first reset.
    pub fn new() -> (h: Harness)
        ensures
            !h.observed(),
            !h.handler_installed(),
    {
        Harness { hit: false, installed: false }
    }

    /// Clears the calling thread's trap-hit flag, whatever its prior state,
    /// and (re-)installs the trap-signal handler for the process.
    pub fn reset(&mut self)
        ensures
            final(self).observed() == hit_after_reset(old(self).observed()),
            final(self).handler_installed(),
    {
        self.hit = false;
        self.installed = true;
    }

    /// The calling thread's current trap-hit flag. A pure read: the harness
    /// is left exactly as it was.
    pub fn hit_breakpoint(&self) -> (r: bool)
        ensures
            r == self.observed(),
    {
        self.hit
    }

    /// What the signal handler does when the operating system delivers
    /// signal `sig` to it: raise the trap-hit flag. The handler treats any
    /// signal other than the trap signal as a fatal misconfiguration, so
    /// such values are excluded here.
    pub fn record_trap(&mut self, sig: i32)
        requires
            sig == SIGTRAP,
        ensures
            final(self).observed() == hit_after_trap(old(self).observed()),
            final(self).handler_installed() == old(self).handler_installed(),
    {
        self.hit = true;
    }

    /// The unconditional breakpoint form, as this thread observes it when no
    /// debugger intercepts: the trap signal is raised and the in-process
    /// handler records it. Without an installed handler the operating
    /// system's default action ends the process, so that state is excluded.
    pub fn breakpoint(&mut self)
        requires
            old(self).handler_installed(),
        ensures
            final(self).observed() == hit_after_trap(old(self).observed()),
            final(self).handler_installed() == old(self).handler_installed(),
    {
        self.record_trap(SIGTRAP);
    }

    /// The guarded breakpoint form: the caller's guard expression, already
    /// evaluated exactly once to the value `guard`, decides whether the trap
    /// fires. A false guard raises no signal and so needs no handler.
    pub fn breakpoint_if(&mut self, guard: bool)
        requires
            guard ==> old(self).handler_installed(),
        ensures
            final(self).observed() == hit_after_guarded(old(self).observed(), guard),
            final(self).handler_installed() == old(self).handler_installed(),
    {
        if guard {
            self.breakpoint();
        }
    }
}

/// Whatever the flag held before, a false guard leaves it unchanged, and a
/// true guard acts exactly as the unconditional form does.
pub proof fn lemma_guarded_form(hit: bool, g: bool)
    ensures
        !g ==> hit_after_guarded(hit, g) == hit,
        g ==> hit_after_guarded(hit, g) == hit_after_trap(hit),
{
}

/// A reset clears the trap-hit flag, regardless of its prior state.
pub proof fn lemma_reset_clears(hit: bool)
    ensures
        !hit_after_reset(hit),
{
}

/// A trap delivered after a reset leaves the next query of the flag true.
pub proof fn lemma_trap_after_reset(hit: bool)
    ensures
        hit_after_trap(hit_after_reset(hit)),
{
}

} // verus!
