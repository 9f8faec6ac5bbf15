use vstd::prelude::*;

use crate::outcome::StepOutcome;

verus! {

/// Where one protocol session stands in its submit/stream-back cycle.
#[derive(Clone, Copy, PartialEq, Eq, Structural, Debug)]
pub enum SessionPhase {
    /// No cycle in flight: the session is safe to use and to pool.
    Idle,
    /// A query was submitted and its result stream is not fully drained.
    /// Submitting again now, or handing the session to anyone else, would
    /// corrupt its server-side state.
    InFlight,
    /// A cycle ended badly or was abandoned mid-flight; the session must
    /// be reset, or discarded, before it may carry another query.
    NeedsReset,
}

/// The protocol-relevant state of one session. The unverified I/O layer
/// pairs one of these with each physical connection and consults it
/// before every wire call, so the cycle discipline proved here governs
/// the real connection.
pub struct Session {
    phase: SessionPhase,
}

impl Session {
    pub closed spec fn phase(self) -> SessionPhase {
        self.phase
    }

    /// A fresh session starts with no cycle in flight.
    pub fn new() -> (s: Session)
        ensures
            s.phase() is Idle,
    {
        Session { phase: SessionPhase::Idle }
    }

    /// Reads the phase.
    pub fn current_phase(&self) -> (p: SessionPhase)
        ensures
            p == self.phase(),
    {
        self.phase
    }

    /// Begins one submit/stream-back cycle. Only an idle session may
    /// submit: this is the hard protocol invariant of the wire protocol.
    pub fn begin_cycle(&mut self)
        requires
            old(self).phase() is Idle,
        ensures
            final(self).phase() is InFlight,
    {
        self.phase = SessionPhase::InFlight;
    }

    /// Ends the in-flight cycle with the outcome its final step reported:
    /// after a success the session is idle again; after any failure it
    /// needs a reset before reuse.
    pub fn end_cycle(&mut self, o: &StepOutcome)
        requires
            old(self).phase() is InFlight,
        ensures
            o is Success ==> final(self).phase() is Idle,
            !(o is Success) ==> final(self).phase() is NeedsReset,
    {
        match o {
            StepOutcome::Success => self.phase = SessionPhase::Idle,
            _ => self.phase = SessionPhase::NeedsReset,
        }
    }

    /// Abandons an in-flight cycle (the surrounding request was cancelled
    /// or timed out): the session is unsafe to reuse as it stands.
    pub fn abandon(&mut self)
        ensures
            final(self).phase() is NeedsReset,
    {
        self.phase = SessionPhase::NeedsReset;
    }

    /// Records a completed reset: the server-side state is clean again.
    pub fn reset_done(&mut self)
        ensures
            final(self).phase() is Idle,
    {
        self.phase = SessionPhase::Idle;
    }
}

/// The idle side of the session pool. Only sessions with no cycle in
/// flight are ever stored, so whatever is acquired from the pool is safe
/// to submit on.
pub struct SessionPool {
    idle: Vec<Session>,
}

impl SessionPool {
    /// The pooled sessions, oldest first.
    pub closed spec fn sessions(self) -> Seq<Session> {
        self.idle@
    }

    /// The pool invariant: every pooled session is idle.
    pub open spec fn wf(self) -> bool {
        forall|i: int| 0 <= i < self.sessions().len() ==> self.sessions()[i].phase() is Idle
    }

    /// An empty pool.
    pub fn new() -> (p: SessionPool)
        ensures
            p.wf(),
            p.sessions().len() == 0,
    {
        SessionPool { idle: Vec::new() }
    }

    /// How many sessions are free.
    pub fn available(&self) -> (n: usize)
        ensures
            n == self.sessions().len(),
    {
        self.idle.len()
    }

    /// Takes a session for one logical unit of work, or reports pool
    /// exhaustion with `None`. An acquired session is always idle.
    pub fn acquire(&mut self) -> (s: Option<Session>)
        requires
            old(self).wf(),
        ensures
            final(self).wf(),
            old(self).sessions().len() == 0 ==> s is None && final(self).sessions() == old(
                self,
            ).sessions(),
            old(self).sessions().len() > 0 ==> (s matches Some(x) && x.phase() is Idle
                && final(self).sessions() == old(self).sessions().drop_last()),
    {
        self.idle.pop()
    }

    /// Offers a session back to the pool. A session with an incomplete or
    /// failed cycle is refused — it must never be reused as it stands —
    /// and the pool is left untouched; the caller resets or discards it.
    pub fn release(&mut self, s: Session) -> (accepted: bool)
        requires
            old(self).wf(),
        ensures
            final(self).wf(),
            accepted == (s.phase() is Idle),
            accepted ==> final(self).sessions() == old(self).sessions().push(s),
            !accepted ==> final(self).sessions() == old(self).sessions(),
    {
        match s.phase {
            SessionPhase::Idle => {
                self.idle.push(s);
                true
            },
            _ => false,
        }
    }
}

/// Law: the pool never holds a session whose submit/stream-back cycle is
/// incomplete or failed — every pooled session of a well-formed pool is
/// idle, so no caller can ever acquire a corrupted one.
pub proof fn lemma_pooled_sessions_idle(p: SessionPool, i: int)
    requires
        p.wf(),
        0 <= i < p.sessions().len(),
    ensures
        p.sessions()[i].phase() is Idle,
{
}

} // verus!
