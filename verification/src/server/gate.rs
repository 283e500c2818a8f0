use vstd::prelude::*;

verus! {

/// The three positions of the cross-thread handshake that hands the
/// loop-owned session to another thread: nobody asking, a request posted,
/// or access granted to exactly one caller.
#[derive(Clone, Copy, Debug, PartialEq, Eq, Structural)]
pub enum GateState {
    /// No caller wants the session.
    Idle,
    /// A caller asked; the loop thread has not parked yet.
    RequestPending,
    /// One caller holds the session; the loop thread is parked.
    Granted,
}

/// Scoped witness of exclusive session access.  Only
/// [`CommandGate::try_grant`] mints one, and surrendering it through
/// [`CommandGate::release`] is the only way to let the loop thread resume.
pub struct GateHandle {
    _witness: Ghost<int>,
}

/// The cross-thread handshake guarding the session.  The loop thread is
/// the default owner and keeps dispatching; another thread posts a
/// request, the loop thread grants it between iterations and parks, and
/// the caller's release wakes it.  A plain lock would deadlock here,
/// because native callbacks re-enter session code while the loop thread
/// is conceptually inside the critical section already.
pub struct CommandGate {
    state: GateState,
    outstanding: Ghost<int>,
}

impl CommandGate {
    /// The handshake position.
    pub closed spec fn spec_state(&self) -> GateState {
        self.state
    }

    /// How many handles are out.
    pub closed spec fn spec_outstanding(&self) -> int {
        self.outstanding@
    }

    /// Validity: one handle is out in the granted position, none in any
    /// other.
    pub open spec fn wf(&self) -> bool {
        self.spec_outstanding() == if self.spec_state() is Granted {
            1int
        } else {
            0int
        }
    }

    /// A fresh gate: idle, no handle out.
    pub fn new() -> (r: CommandGate)
        ensures
            r.wf(),
            r.spec_state() is Idle,
    {
        CommandGate { state: GateState::Idle, outstanding: Ghost(0int) }
    }

    /// The current position, for the loop thread's boundary check.
    pub fn state(&self) -> (r: GateState)
        ensures
            r == self.spec_state(),
    {
        self.state
    }

    /// A caller posts its wish for the session.  Effective only while the
    /// gate is idle; a request during someone else's turn queues behind it
    /// and must be posted again after the release.
    pub fn request(&mut self)
        requires
            old(self).wf(),
        ensures
            final(self).wf(),
            final(self).spec_state() == if old(self).spec_state() is Idle {
                GateState::RequestPending
            } else {
                old(self).spec_state()
            },
            final(self).spec_outstanding() == old(self).spec_outstanding(),
    {
        if self.state == GateState::Idle {
            self.state = GateState::RequestPending;
        }
    }

    /// The loop thread's boundary check: where a request is pending, grant
    /// it and mint the one handle; anywhere else, nothing changes and no
    /// handle exists.  While a handle is out this always yields nothing,
    /// so no second handle can appear before a release.
    pub fn try_grant(&mut self) -> (r: Option<GateHandle>)
        requires
            old(self).wf(),
        ensures
            final(self).wf(),
            r is Some <==> old(self).spec_state() is RequestPending,
            r is Some ==> final(self).spec_state() is Granted && final(self).spec_outstanding()
                == 1,
            r is None ==> *final(self) == *old(self),
    {
        if self.state == GateState::RequestPending {
            self.state = GateState::Granted;
            self.outstanding = Ghost(1int);
            Option::Some(GateHandle { _witness: Ghost(0int) })
        } else {
            Option::None
        }
    }

    /// A caller gives its handle back; the handshake returns to idle
    /// and the loop thread may resume.
    pub fn release(&mut self, handle: GateHandle)
        requires
            old(self).wf(),
            old(self).spec_state() is Granted,
        ensures
            final(self).wf(),
            final(self).spec_state() is Idle,
            final(self).spec_outstanding() == 0,
    {
        let GateHandle { _witness } = handle;
        self.state = GateState::Idle;
        self.outstanding = Ghost(0int);
    }
}

/// Mutual-exclusion law: a valid gate never has more than one handle
/// out, whatever sequence of requests, grants and releases led to it.
pub proof fn lemma_gate_mutual_exclusion(g: CommandGate)
    requires
        g.wf(),
    ensures
        g.spec_outstanding() <= 1,
{
}

} // verus!
