//! The listener's decision logic: accept outcomes come in, handlers go out.
//!
//! The listener binds one local port and accepts forever. Every successful
//! accept spawns one independent connection handler; every failed accept is
//! logged and walked past. No outcome is fatal: the listener has no terminal
//! state, and the surrounding accept loop asks it about every outcome in
//! turn.

use vstd::prelude::*;

verus! {

/// How many of the logged accept outcomes were successes — exactly the
/// handlers a listener must have spawned.
pub open spec fn count_successes(outcomes: Seq<bool>) -> int
    decreases outcomes.len(),
{
    if outcomes.len() == 0 {
        0
    } else {
        (if outcomes[0] {
            1int
        } else {
            0int
        }) + count_successes(outcomes.drop_first())
    }
}

/// Counting distributes over appending one outcome.
pub proof fn lemma_count_successes_push(outcomes: Seq<bool>, ok: bool)
    ensures
        count_successes(outcomes.push(ok)) == count_successes(outcomes) + (if ok {
            1int
        } else {
            0int
        }),
    decreases outcomes.len(),
{
    if outcomes.len() == 0 {
        assert(outcomes.push(ok)[0] == ok);
        assert(outcomes.push(ok).drop_first() =~= Seq::<bool>::empty());
        assert(count_successes(Seq::<bool>::empty()) == 0);
    } else {
        assert(outcomes.push(ok).drop_first() =~= outcomes.drop_first().push(ok));
        lemma_count_successes_push(outcomes.drop_first(), ok);
    }
}

/// Accept failures are never fatal: dropping a failing accept into an outcome
/// sequence at any point leaves the number of connections served unchanged —
/// every success after the failure is still served.
pub proof fn lemma_failure_serves_none(outcomes: Seq<bool>, at: int)
    requires
        0 <= at <= outcomes.len(),
    ensures
        count_successes(outcomes.insert(at, false)) == count_successes(outcomes),
    decreases outcomes.len(),
{
    if at == 0 {
        assert(outcomes.insert(0, false)[0] == false);
        assert(outcomes.insert(0, false).drop_first() =~= outcomes);
    } else {
        assert(outcomes.insert(at, false)[0] == outcomes[0]);
        assert(outcomes.insert(at, false).drop_first() =~= outcomes.drop_first().insert(
            at - 1,
            false,
        ));
        lemma_failure_serves_none(outcomes.drop_first(), at - 1);
    }
}

/// The accepting side of one listening socket. It never stops accepting: an
/// accept error is observed and survived, never propagated.
pub struct Listener {
    /// Connections handed to a spawned handler so far.
    pub served: u64,
    /// Every accept outcome seen, in order: `true` for an accepted socket,
    /// `false` for an accept error.
    pub outcomes: Ghost<Seq<bool>>,
}

impl Listener {
    /// The listener serves exactly its successful accepts, however many
    /// failures fall between them.
    pub open spec fn wf(self) -> bool {
        self.served as int == count_successes(self.outcomes@)
    }

    /// A listener that has just bound its port and seen nothing yet.
    pub fn new() -> (l: Listener)
        ensures
            l.wf(),
            l.served == 0,
            l.outcomes@ == Seq::<bool>::empty(),
    {
        Listener { served: 0, outcomes: Ghost(Seq::empty()) }
    }

    /// One accept attempt has resolved. A success must be served by spawning
    /// one independent handler (the result says so); a failure is logged and
    /// the loop goes straight back to accepting — an accept error is never
    /// fatal to the listener.
    pub fn accept_outcome(&mut self, accepted: bool) -> (spawn_handler: bool)
        requires
            old(self).wf(),
            old(self).served < u64::MAX,
        ensures
            final(self).wf(),
            spawn_handler == accepted,
            final(self).outcomes@ == old(self).outcomes@.push(accepted),
            final(self).served == old(self).served + (if accepted {
                1u64
            } else {
                0u64
            }),
    {
        proof {
            lemma_count_successes_push(self.outcomes@, accepted);
            self.outcomes@ = self.outcomes@.push(accepted);
        }
        if accepted {
            self.served = self.served + 1;
        }
        accepted
    }
}

} // verus!
