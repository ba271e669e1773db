use vstd::prelude::*;
use std::collections::HashMap;
use crate::errors::TunnelError;
use crate::errors::TunnelState;
use crate::errors::state_of_presence;
use crate::registry::ConnectionRegistry;

verus! {

/// The bridge's central state: at most one tunnel session, and the
/// registry of live connections. `S` is the session object (transport
/// plus network-stack reference), `C` the per-connection object; both
/// are opaque to this layer, which only governs their lifecycle. The
/// surrounding runtime guards the session slot and the registry with
/// their own reader-writer locks and performs the asynchronous work;
/// this core carries the decisions and the bookkeeping.
pub struct TunnelCore<S, C> {
    session: Option<S>,
    registry: ConnectionRegistry<C>,
}

/// One session generation installed after a successful start: session
/// present, connections untouched.
pub closed spec fn install_outcome<S, C>(core: TunnelCore<S, C>, session: S) -> TunnelCore<S, C> {
    TunnelCore { session: Some(session), registry: core.registry }
}

/// What a whole start call leaves behind: if a session is already
/// installed the call changes nothing; otherwise a successful
/// establishment installs the new session and a failed one leaves the
/// core exactly as it was, so state reverts to Stopped.
pub closed spec fn start_outcome<S, C>(
    core: TunnelCore<S, C>,
    established: Option<S>,
) -> TunnelCore<S, C> {
    if core.session is Some {
        core
    } else {
        match established {
            Some(s) => install_outcome(core, s),
            None => core,
        }
    }
}

impl<S, C> TunnelCore<S, C> {
    /// The installed session, if any.
    pub closed spec fn spec_session(&self) -> Option<S> {
        self.session
    }

    /// The registry's contents.
    pub closed spec fn connections(&self) -> Map<i64, C> {
        self.registry.view()
    }

    /// The next connection handle to be allocated.
    pub closed spec fn spec_next_handle(&self) -> i64 {
        self.registry.spec_next()
    }

    pub closed spec fn wf(&self) -> bool {
        self.registry.wf()
    }

    /// The derived lifecycle state: purely a function of session
    /// presence, never stored separately.
    pub open spec fn spec_state(&self) -> TunnelState {
        state_of_presence(self.spec_session() is Some)
    }

    /// A fresh core: no session, no connections, first handle 1.
    pub fn new() -> (r: Self)
        ensures
            r.wf(),
            r.spec_session() is None,
            r.connections() == Map::<i64, C>::empty(),
            r.spec_next_handle() == 1,
    {
        TunnelCore { session: None, registry: ConnectionRegistry::new() }
    }

    /// State query: Ready exactly when a session is installed, Stopped
    /// otherwise.
    pub fn state(&self) -> (s: TunnelState)
        ensures
            s == self.spec_state(),
            s == TunnelState::Ready <==> self.spec_session() is Some,
            s == TunnelState::Stopped <==> self.spec_session() is None,
    {
        match self.session {
            Some(_) => TunnelState::Ready,
            None => TunnelState::Stopped,
        }
    }

    /// The start gate: reports whether a session already exists, in
    /// which case the caller must skip establishment entirely — start
    /// is idempotent and does not refresh a running session.
    pub fn start_already_running(&self) -> (already: bool)
        ensures
            already == (self.spec_session() is Some),
    {
        self.session.is_some()
    }

    /// Installs a freshly established session. Only legal when no
    /// session exists; a failed establishment never reaches this point,
    /// so a failed start leaves no half-installed session.
    pub fn install_session(&mut self, session: S)
        requires
            old(self).spec_session() is None,
        ensures
            *final(self) == install_outcome(*old(self), session),
            final(self).spec_session() == Some(session),
            final(self).spec_state() == TunnelState::Ready,
            final(self).connections() == old(self).connections(),
            final(self).spec_next_handle() == old(self).spec_next_handle(),
            final(self).wf() == old(self).wf(),
    {
        self.session = Some(session);
    }

    /// Gate for connection operations: the session that must carry
    /// them, or NotInitialized when none is installed.
    pub fn require_session(&self) -> (r: Result<&S, TunnelError>)
        ensures
            match r {
                Ok(s) => self.spec_session() == Some(*s),
                Err(e) => self.spec_session() is None && e is NotInitialized,
            },
    {
        match &self.session {
            Some(s) => Ok(s),
            None => Err(TunnelError::NotInitialized),
        }
    }

    /// Registers a connection that establishment just produced and
    /// returns its fresh handle. Called only after success, so a failed
    /// connect never leaks a handle.
    pub fn register_connection(&mut self, conn: C) -> (h: i64)
        requires
            old(self).wf(),
            old(self).spec_next_handle() < i64::MAX,
        ensures
            final(self).wf(),
            1 <= h,
            h == old(self).spec_next_handle(),
            !old(self).connections().contains_key(h),
            forall|g: i64| old(self).connections().contains_key(g) ==> g < h,
            final(self).connections() == old(self).connections().insert(h, conn),
            final(self).spec_next_handle() == h + 1,
            final(self).spec_session() == old(self).spec_session(),
    {
        self.registry.insert(conn)
    }

    /// Looks up a live connection, for read, write and flush.
    pub fn lookup_connection(&self, handle: i64) -> (r: Option<&C>)
        ensures
            match r {
                Some(c) => self.connections().contains_key(handle)
                    && *c == self.connections()[handle],
                None => !self.connections().contains_key(handle),
            },
    {
        self.registry.get(handle)
    }

    /// Number of live connections.
    pub fn len(&self) -> (n: usize)
        ensures
            n == self.connections().len(),
    {
        self.registry.len()
    }

    /// The handle the next successful connect will receive.
    pub fn next_handle(&self) -> (h: i64)
        ensures
            h == self.spec_next_handle(),
    {
        self.registry.next_handle()
    }

    /// Gate for read, write and flush: the connection the handle
    /// names, or InvalidHandle carrying the offending handle.
    pub fn require_connection(&self, handle: i64) -> (r: Result<&C, TunnelError>)
        ensures
            match r {
                Ok(c) => self.connections().contains_key(handle)
                    && *c == self.connections()[handle],
                Err(e) => !self.connections().contains_key(handle)
                    && (e matches TunnelError::InvalidHandle(h) && h == handle),
            },
    {
        match self.registry.get(handle) {
            Some(c) => Ok(c),
            None => Err(TunnelError::InvalidHandle(handle)),
        }
    }

    /// Removes a connection for close: returns it for out-of-lock
    /// shutdown, or absent for an unknown handle (close is idempotent).
    pub fn remove_connection(&mut self, handle: i64) -> (r: Option<C>)
        requires
            old(self).wf(),
        ensures
            final(self).wf(),
            final(self).connections() == old(self).connections().remove(handle),
            final(self).spec_next_handle() == old(self).spec_next_handle(),
            final(self).spec_session() == old(self).spec_session(),
            match r {
                Some(c) => old(self).connections().contains_key(handle) && c == old(
                    self,
                ).connections()[handle],
                None => !old(self).connections().contains_key(handle),
            },
    {
        self.registry.remove(handle)
    }

    /// Stop: drains every connection and takes the session, handing
    /// both to the caller for best-effort asynchronous shutdown.
    /// Afterwards the registry is empty and the state is Stopped; the
    /// handle counter is not reset, so handles stay globally unique.
    pub fn stop(&mut self) -> (taken: (HashMap<i64, C>, Option<S>))
        requires
            old(self).wf(),
        ensures
            final(self).wf(),
            final(self).spec_session() is None,
            final(self).spec_state() == TunnelState::Stopped,
            final(self).connections() == Map::<i64, C>::empty(),
            final(self).spec_next_handle() == old(self).spec_next_handle(),
            taken.0@ == old(self).connections(),
            taken.1 == old(self).spec_session(),
    {
        let drained = self.registry.drain();
        let session = self.session.take();
        (drained, session)
    }
}

/// A failed start never leaves a half-installed session: when
/// establishment produces nothing, the whole start leaves the core
/// exactly as it was, so a state query afterwards reports Stopped
/// again (or Ready, if an earlier session was already installed and
/// the start was skipped).
pub proof fn lemma_failed_start_changes_nothing<S, C>(core: TunnelCore<S, C>)
    ensures
        start_outcome(core, None) == core,
        start_outcome(core, None).spec_state() == core.spec_state(),
{
}

/// Start idempotence: once a start has succeeded, a second start —
/// whatever its establishment would have produced — changes nothing:
/// the first session stays installed, untouched, and the state stays
/// Ready.
pub proof fn lemma_start_idempotent<S, C>(
    core: TunnelCore<S, C>,
    first: Option<S>,
    second: Option<S>,
)
    requires
        start_outcome(core, first).spec_session() is Some,
    ensures
        start_outcome(start_outcome(core, first), second) == start_outcome(core, first),
        start_outcome(start_outcome(core, first), second).spec_session() == start_outcome(
            core,
            first,
        ).spec_session(),
{
}

} // verus!
