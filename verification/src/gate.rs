//! The credential prompt gate: the one-shot state machine that mediates a
//! secret capture for an escalation invocation. The secret's bytes live in
//! the unverified rim (which zeroes them after use); this state machine tracks
//! only the phases, and guarantees that a captured secret is released for relay at
//! most once per start attempt.
use vstd::prelude::*;

verus! {

/// The phase of the current start attempt.
pub enum GatePhase {
    /// No escalation prompt is pending.
    Idle,
    /// Escalation was detected; the prompt is up and the start awaits it.
    Prompting,
    /// The prompt was accepted; a secret is held, not yet relayed.
    Accepted,
    /// The prompt was dismissed; the pending spawn must be aborted.
    Cancelled,
    /// The secret was handed out for its single write to the child's input.
    Relayed,
}

/// The credential prompt gate.
pub struct CredentialGate {
    pub phase: GatePhase,
}

/// What releasing the secret does: it succeeds exactly once, from the
/// accepted phase, and moves the machine on so a second release finds nothing.
pub open spec fn consume_spec(g: CredentialGate) -> (CredentialGate, bool) {
    if g.phase is Accepted {
        (CredentialGate { phase: GatePhase::Relayed }, true)
    } else {
        (g, false)
    }
}

impl CredentialGate {
    /// A gate with no pending prompt.
    pub fn new() -> (r: CredentialGate)
        ensures
            r.phase is Idle,
    {
        CredentialGate { phase: GatePhase::Idle }
    }

    /// Escalation was detected: the prompt goes up.
    pub fn begin_prompt(&mut self)
        requires
            old(self).phase is Idle,
        ensures
            final(self).phase is Prompting,
    {
        self.phase = GatePhase::Prompting;
    }

    /// The prompt came down: accepted with a secret, or dismissed.
    pub fn resolve(&mut self, accepted: bool)
        requires
            old(self).phase is Prompting,
        ensures
            accepted ==> final(self).phase is Accepted,
            !accepted ==> final(self).phase is Cancelled,
    {
        self.phase = if accepted {
            GatePhase::Accepted
        } else {
            GatePhase::Cancelled
        };
    }

    /// Releases the secret for its single relay write. Reports whether a
    /// secret was there to release.
    pub fn consume_for_relay(&mut self) -> (ok: bool)
        ensures
            (*final(self), ok) == consume_spec(*old(self)),
    {
        if matches!(self.phase, GatePhase::Accepted) {
            self.phase = GatePhase::Relayed;
            true
        } else {
            false
        }
    }

    /// A new start attempt begins: whatever happened before is forgotten.
    pub fn reset(&mut self)
        ensures
            final(self).phase is Idle,
    {
        self.phase = GatePhase::Idle;
    }
}

/// The secret is relayed at most once per start attempt: of two consecutive
/// release attempts with no reset between them, at most the first succeeds.
pub proof fn lemma_relay_at_most_once(g: CredentialGate)
    ensures
        ({
            let (g1, ok1) = consume_spec(g);
            let (g2, ok2) = consume_spec(g1);
            !(ok1 && ok2)
        }),
{
}

} // verus!
