//! The life of the backend process, and who may end it.
//!
//! A supervisor owns the handle of at most one backend process. It gives the
//! handle away once: to whoever asks first to terminate the backend, or to
//! whoever reports first that the backend exited on its own. Every later
//! request finds nothing and does nothing, so the backend is never killed
//! twice and no other process is ever hit. The caller keeps the supervisor
//! behind a lock where several threads may reach it.

use vstd::prelude::*;
use crate::error::LaunchError;

verus! {

/// The stages in the life of the backend process.
#[derive(Clone, Copy, Debug, PartialEq, Eq, Structural)]
pub enum Lifecycle {
    /// Nothing has been started yet.
    Unspawned,
    /// The process is being created.
    Spawning,
    /// The process runs and the supervisor holds its handle.
    Running,
    /// The handle was given out to kill the process and wait for its end.
    Terminating,
    /// The process was killed and its end was confirmed.
    Terminated,
    /// The process ended on its own.
    Exited,
}

impl Lifecycle {
    /// How far a stage is from the start.
    pub open spec fn rank(self) -> nat {
        match self {
            Lifecycle::Unspawned => 0,
            Lifecycle::Spawning => 1,
            Lifecycle::Running => 2,
            Lifecycle::Terminating => 3,
            Lifecycle::Terminated => 4,
            Lifecycle::Exited => 4,
        }
    }

    /// The steps that the life of a process can take.
    pub open spec fn may_become(self, next: Lifecycle) -> bool {
        match (self, next) {
            (Lifecycle::Unspawned, Lifecycle::Spawning) => true,
            (Lifecycle::Spawning, Lifecycle::Running) => true,
            (Lifecycle::Running, Lifecycle::Terminating) => true,
            (Lifecycle::Running, Lifecycle::Exited) => true,
            (Lifecycle::Terminating, Lifecycle::Terminated) => true,
            _ => false,
        }
    }

    /// Whether a supervisor in this stage stays as it is or moves to `next`.
    pub open spec fn stays_or_becomes(self, next: Lifecycle) -> bool {
        self == next || self.may_become(next)
    }
}

enum Slot<H> {
    Unspawned,
    Spawning,
    Running(H),
    Terminating,
    Terminated,
    Exited,
}

/// Owner of the backend's process handle, of type `H`.
pub struct Supervisor<H> {
    slot: Slot<H>,
}

/// The mathematical content of a [`Supervisor`].
pub struct SupervisorView<H> {
    /// The stage the backend is in.
    pub state: Lifecycle,
    /// The handle, while the supervisor holds it.
    pub handle: Option<H>,
}

impl<H> View for Supervisor<H> {
    type V = SupervisorView<H>;

    closed spec fn view(&self) -> SupervisorView<H> {
        match self.slot {
            Slot::Unspawned => SupervisorView { state: Lifecycle::Unspawned, handle: None },
            Slot::Spawning => SupervisorView { state: Lifecycle::Spawning, handle: None },
            Slot::Running(h) => SupervisorView { state: Lifecycle::Running, handle: Some(h) },
            Slot::Terminating => SupervisorView { state: Lifecycle::Terminating, handle: None },
            Slot::Terminated => SupervisorView { state: Lifecycle::Terminated, handle: None },
            Slot::Exited => SupervisorView { state: Lifecycle::Exited, handle: None },
        }
    }
}

impl<H> SupervisorView<H> {
    /// A supervisor in stage `state` that holds nothing.
    pub open spec fn empty(state: Lifecycle) -> SupervisorView<H> {
        SupervisorView { state, handle: None }
    }

    /// The supervisor after a request to start spawning, and whether the
    /// request was granted: only the first one is.
    pub open spec fn begin_spawn(self) -> (SupervisorView<H>, bool) {
        if self.state == Lifecycle::Unspawned {
            (Self::empty(Lifecycle::Spawning), true)
        } else {
            (self, false)
        }
    }

    /// The supervisor after it was offered the handle of the new process,
    /// and the handle where it was refused: it is taken only while spawning.
    pub open spec fn store(self, handle: H) -> (SupervisorView<H>, Option<H>) {
        if self.state == Lifecycle::Spawning {
            (SupervisorView { state: Lifecycle::Running, handle: Some(handle) }, None)
        } else {
            (self, Some(handle))
        }
    }

    /// The supervisor after a request to terminate the backend, and the
    /// handle of the process to kill: there is one only while it runs.
    pub open spec fn terminate(self) -> (SupervisorView<H>, Option<H>) {
        if self.state == Lifecycle::Running {
            (Self::empty(Lifecycle::Terminating), self.handle)
        } else {
            (self, None)
        }
    }

    /// The supervisor after the end of the killed process was confirmed.
    pub open spec fn confirm_terminated(self) -> SupervisorView<H> {
        if self.state == Lifecycle::Terminating {
            Self::empty(Lifecycle::Terminated)
        } else {
            self
        }
    }

    /// The supervisor after a report that the backend ended on its own,
    /// and the handle that it gives up.
    pub open spec fn record_exit(self) -> (SupervisorView<H>, Option<H>) {
        if self.state == Lifecycle::Running {
            (Self::empty(Lifecycle::Exited), self.handle)
        } else {
            (self, None)
        }
    }
}

impl<H> Supervisor<H> {
    /// A supervisor that has started nothing yet.
    pub fn new() -> (supervisor: Supervisor<H>)
        ensures
            supervisor@ == SupervisorView::<H>::empty(Lifecycle::Unspawned),
    {
        Supervisor { slot: Slot::Unspawned }
    }

    /// The stage the backend is in.
    pub fn state(&self) -> (state: Lifecycle)
        ensures
            state == self@.state,
            self@.handle is Some <==> state == Lifecycle::Running,
    {
        match &self.slot {
            Slot::Unspawned => Lifecycle::Unspawned,
            Slot::Spawning => Lifecycle::Spawning,
            Slot::Running(_) => Lifecycle::Running,
            Slot::Terminating => Lifecycle::Terminating,
            Slot::Terminated => Lifecycle::Terminated,
            Slot::Exited => Lifecycle::Exited,
        }
    }

    /// Asks to start spawning. Granted once, to a supervisor that has
    /// started nothing; any other is left as it is.
    pub fn begin_spawn(&mut self) -> (granted: bool)
        ensures
            (final(self)@, granted) == old(self)@.begin_spawn(),
            old(self)@.state.stays_or_becomes(final(self)@.state),
    {
        match &self.slot {
            Slot::Unspawned => {
                self.slot = Slot::Spawning;
                true
            },
            _ => false,
        }
    }

    /// Hands the supervisor the handle of the process that was created.
    /// While spawning, the supervisor keeps it and the backend counts as
    /// running; otherwise the handle comes back and nothing changes.
    pub fn store(&mut self, handle: H) -> (refused: Option<H>)
        ensures
            (final(self)@, refused) == old(self)@.store(handle),
            old(self)@.state.stays_or_becomes(final(self)@.state),
    {
        match &self.slot {
            Slot::Spawning => {
                self.slot = Slot::Running(handle);
                None
            },
            _ => Some(handle),
        }
    }

    /// Asks to terminate the backend. While it runs, the supervisor gives
    /// its handle out, for the caller to kill the process and wait for its
    /// end. In every other stage there is nothing to kill: the supervisor is
    /// left as it is and the caller has nothing to wait for.
    pub fn terminate(&mut self) -> (handle: Option<H>)
        ensures
            (final(self)@, handle) == old(self)@.terminate(),
            old(self)@.state.stays_or_becomes(final(self)@.state),
            final(self)@.handle is None,
    {
        match &self.slot {
            Slot::Running(_) => {
                let mut slot = Slot::Terminating;
                core::mem::swap(&mut self.slot, &mut slot);
                match slot {
                    Slot::Running(handle) => Some(handle),
                    _ => None,
                }
            },
            _ => None,
        }
    }

    /// Records that the killed process is gone. Only a supervisor that gave
    /// its handle out for termination changes.
    pub fn confirm_terminated(&mut self)
        ensures
            final(self)@ == old(self)@.confirm_terminated(),
            old(self)@.state.stays_or_becomes(final(self)@.state),
    {
        match &self.slot {
            Slot::Terminating => {
                self.slot = Slot::Terminated;
            },
            _ => {},
        }
    }

    /// Records that the backend ended on its own. While it was running, the
    /// supervisor gives its handle up, so that a later request to terminate
    /// finds nothing; otherwise nothing changes.
    pub fn record_exit(&mut self) -> (handle: Option<H>)
        ensures
            (final(self)@, handle) == old(self)@.record_exit(),
            old(self)@.state.stays_or_becomes(final(self)@.state),
            final(self)@.handle is None,
    {
        match &self.slot {
            Slot::Running(_) => {
                let mut slot = Slot::Exited;
                core::mem::swap(&mut self.slot, &mut slot);
                match slot {
                    Slot::Running(handle) => Some(handle),
                    _ => None,
                }
            },
            _ => None,
        }
    }
}

/// Turns the outcome of creating the backend process into the launcher's
/// terms: the handle of the new process, or the failure that ends the run,
/// with the cause that the operating system gave. After a failure there is
/// nothing to hand to the supervisor, which stays as it is.
pub fn spawn_outcome<H>(created: Result<H, String>) -> (outcome: Result<H, LaunchError>)
    ensures
        match created {
            Ok(handle) => outcome == Ok::<H, LaunchError>(handle),
            Err(cause) => outcome == Err::<H, LaunchError>(LaunchError::SpawnFailed(cause)),
        },
{
    match created {
        Ok(handle) => Ok(handle),
        Err(cause) => Err(LaunchError::SpawnFailed(cause)),
    }
}

/// A supervisor holds a handle exactly while the backend runs.
pub proof fn lemma_handle_only_while_running<H>(supervisor: Supervisor<H>)
    ensures
        supervisor@.handle is Some <==> supervisor@.state == Lifecycle::Running,
{
}

/// Every step in the life of a process leads further from the start: no
/// stage is ever entered again.
pub proof fn lemma_steps_advance(from: Lifecycle, to: Lifecycle)
    requires
        from.may_become(to),
    ensures
        from.rank() < to.rank(),
{
}

/// Whatever happens to a supervisor, it never returns to an earlier stage.
pub proof fn lemma_never_back(from: Lifecycle, to: Lifecycle)
    requires
        from.stays_or_becomes(to),
    ensures
        from.rank() <= to.rank(),
        !to.may_become(from),
{
}

/// A second request to terminate does nothing: it finds no handle, and
/// leaves the supervisor as the first request left it.
pub proof fn lemma_terminate_once<H>(supervisor: SupervisorView<H>)
    ensures
        supervisor.terminate().0.terminate() == (supervisor.terminate().0, None::<H>),
{
}

/// After the backend ended on its own, a request to terminate does
/// nothing.
pub proof fn lemma_terminate_after_exit<H>(supervisor: SupervisorView<H>)
    ensures
        supervisor.record_exit().0.terminate() == (supervisor.record_exit().0, None::<H>),
{
}

} // verus!
