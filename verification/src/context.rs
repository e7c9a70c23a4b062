//! The context ownership monitor: a two-state machine guarding the single
//! shared rendering context.
//!
//! Exactly one thread may have the shared context bound (`Current`) at a
//! time, because the underlying context object is consumed by each
//! transition and cannot be duplicated. The monitor makes that an explicit
//! contract: acquiring while already current, releasing while already
//! released, or resolving a proc address while released are programming
//! contract violations. They are reported as [`ContextFault`] values so the
//! caller can abort the session, which is the only sound response —
//! continuing would use an invalid context. The glue that holds the real
//! context object performs the underlying bind/unbind only when the monitor
//! grants the transition.

use vstd::prelude::*;

verus! {

/// Whether the shared rendering context is bound to the producer thread.
#[derive(Clone, Copy, PartialEq, Eq, Structural, Debug)]
pub enum ContextState {
    /// Unbound; the context may be handed to a thread or torn down.
    NotCurrent,
    /// Bound to the thread that acquired it; GPU calls are legal.
    Current,
}

/// A violated ownership contract. Each of these is fatal for the session:
/// the caller must abort rather than continue with an invalid context.
#[derive(Clone, Copy, PartialEq, Eq, Structural, Debug)]
pub enum ContextFault {
    /// `acquire` was called while the context was already current.
    AlreadyCurrent,
    /// `release` was called while the context was already released.
    AlreadyNotCurrent,
    /// A proc-address resolution was requested while the context was not
    /// current.
    ResolveWhileNotCurrent,
    /// A resize notification arrived while the context was not current,
    /// though surface (re)allocation demands a bound context.
    ResizeWhileNotCurrent,
}

/// The monitor itself. One exists per session; it is created released and
/// must be released again before the session tears the context down.
pub struct ContextMonitor {
    state: ContextState,
}

impl View for ContextMonitor {
    type V = ContextState;

    closed spec fn view(&self) -> ContextState {
        self.state
    }
}

impl ContextMonitor {
    /// A fresh monitor: the shared context starts unbound.
    pub fn new() -> (m: ContextMonitor)
        ensures
            m@ is NotCurrent,
    {
        ContextMonitor { state: ContextState::NotCurrent }
    }

    /// Whether the context is currently bound.
    pub fn is_current(&self) -> (b: bool)
        ensures
            b == (self@ is Current),
    {
        matches!(self.state, ContextState::Current)
    }

    /// Bind the context to the calling thread. Succeeds exactly when the
    /// context was unbound; a second acquire with no release in between is
    /// a fatal contract violation and leaves the monitor unchanged.
    pub fn acquire(&mut self) -> (r: Result<(), ContextFault>)
        ensures
            r is Ok <==> old(self)@ is NotCurrent,
            r is Ok ==> final(self)@ is Current,
            r is Err ==> *final(self) == *old(self) && r == Err::<(), ContextFault>(
                ContextFault::AlreadyCurrent,
            ),
    {
        match self.state {
            ContextState::NotCurrent => {
                self.state = ContextState::Current;
                Ok(())
            },
            ContextState::Current => Err(ContextFault::AlreadyCurrent),
        }
    }

    /// Unbind the context from the calling thread. Succeeds exactly when
    /// the context was bound; releasing out of turn is a fatal contract
    /// violation and leaves the monitor unchanged.
    pub fn release(&mut self) -> (r: Result<(), ContextFault>)
        ensures
            r is Ok <==> old(self)@ is Current,
            r is Ok ==> final(self)@ is NotCurrent,
            r is Err ==> *final(self) == *old(self) && r == Err::<(), ContextFault>(
                ContextFault::AlreadyNotCurrent,
            ),
    {
        match self.state {
            ContextState::Current => {
                self.state = ContextState::NotCurrent;
                Ok(())
            },
            ContextState::NotCurrent => Err(ContextFault::AlreadyNotCurrent),
        }
    }

    /// Gate for proc-address resolution: the lookup itself goes to the GPU
    /// glue holding the real context, but it is only legal while the
    /// context is current. Grants permission exactly in that state and
    /// never changes the monitor.
    pub fn resolve_proc_address(&self) -> (r: Result<(), ContextFault>)
        ensures
            r is Ok <==> self@ is Current,
            r is Err ==> r == Err::<(), ContextFault>(ContextFault::ResolveWhileNotCurrent),
    {
        match self.state {
            ContextState::Current => Ok(()),
            ContextState::NotCurrent => Err(ContextFault::ResolveWhileNotCurrent),
        }
    }
}

} // verus!
