use vstd::prelude::*;

use crate::tools::{OutcomeV, ToolInvocation, ToolOutcome};

verus! {

/// How many tool calls of one round may run at once.
pub const MAX_IN_FLIGHT: usize = 3;

/// The number of calls among the first `n` that were started and have no
/// outcome yet.
pub open spec fn running_in(outcomes: Seq<Option<OutcomeV>>, n: int) -> nat
    decreases n,
{
    if n <= 0 {
        0
    } else {
        running_in(outcomes, n - 1) + if outcomes[n - 1] is None {
            1nat
        } else {
            0nat
        }
    }
}

/// The state of a round: the calls, the cap on calls in flight, how many
/// calls were started (always the first ones), how many of those are still
/// running, and the outcome of each call that ended.
pub struct RoundV {
    pub invocations: Seq<ToolInvocation>,
    pub limit: nat,
    pub started: nat,
    pub running: nat,
    pub outcomes: Seq<Option<OutcomeV>>,
}

/// One round of tool calls: every call that the model asked for in one reply.
/// Calls are started in order while fewer than the cap are running; each
/// outcome is kept at the position of its call, whatever order they end in.
pub struct ToolRound {
    invocations: Vec<ToolInvocation>,
    limit: usize,
    started: usize,
    running: usize,
    outcomes: Vec<Option<ToolOutcome>>,
}

pub open spec fn outcome_opt(o: Option<ToolOutcome>) -> Option<OutcomeV> {
    match o {
        Some(x) => Some(x@),
        None => None,
    }
}

impl View for ToolRound {
    type V = RoundV;

    closed spec fn view(&self) -> RoundV {
        RoundV {
            invocations: self.invocations@,
            limit: self.limit as nat,
            started: self.started as nat,
            running: self.running as nat,
            outcomes: self.outcomes@.map_values(|o: Option<ToolOutcome>| outcome_opt(o)),
        }
    }
}

/// A round's state is consistent: one slot per call, the calls not yet
/// started have no outcome, `running` counts the started calls without an
/// outcome, and it never exceeds the cap.
pub open spec fn round_wf(r: RoundV) -> bool {
    &&& r.limit >= 1
    &&& r.outcomes.len() == r.invocations.len()
    &&& r.started <= r.invocations.len()
    &&& forall|i: int| r.started <= i < r.outcomes.len() ==> r.outcomes[i] is None
    &&& r.running == running_in(r.outcomes, r.started as int)
    &&& r.running <= r.limit
}

/// A round over `invocations` in which nothing has started.
pub open spec fn fresh_round(invocations: Seq<ToolInvocation>, limit: nat) -> RoundV {
    RoundV {
        invocations,
        limit,
        started: 0,
        running: 0,
        outcomes: Seq::new(invocations.len(), |i: int| None::<OutcomeV>),
    }
}

/// A round after an attempt to start a call: the next call starts where one
/// is waiting and fewer than the cap are running; otherwise nothing changes.
pub open spec fn started_round(r: RoundV) -> RoundV {
    if r.started < r.invocations.len() && r.running < r.limit {
        RoundV { started: r.started + 1, running: r.running + 1, ..r }
    } else {
        r
    }
}

/// A round after the call at `index` reported `o`: recorded where that call
/// is running; otherwise nothing changes.
pub open spec fn finished_round(r: RoundV, index: int, o: OutcomeV) -> RoundV {
    if 0 <= index < r.started && r.outcomes[index] is None {
        RoundV { outcomes: r.outcomes.update(index, Some(o)), running: (r.running - 1) as nat, ..r }
    } else {
        r
    }
}

/// Every call of the round has ended.
pub open spec fn round_complete(r: RoundV) -> bool {
    &&& r.started == r.invocations.len()
    &&& r.running == 0
}

proof fn lemma_running_update(o: Seq<Option<OutcomeV>>, n: int, i: int, x: OutcomeV)
    requires
        0 <= i < n <= o.len(),
        o[i] is None,
    ensures
        running_in(o.update(i, Some(x)), n) + 1 == running_in(o, n),
    decreases n,
{
    if n - 1 != i {
        lemma_running_update(o, n - 1, i, x);
    } else {
        lemma_running_same(o, o.update(i, Some(x)), n - 1);
    }
}

proof fn lemma_running_same(a: Seq<Option<OutcomeV>>, b: Seq<Option<OutcomeV>>, n: int)
    requires
        0 <= n <= a.len(),
        n <= b.len(),
        forall|k: int| 0 <= k < n ==> a[k] == b[k],
    ensures
        running_in(a, n) == running_in(b, n),
    decreases n,
{
    if n > 0 {
        lemma_running_same(a, b, n - 1);
    }
}

proof fn lemma_complete_has_all(o: Seq<Option<OutcomeV>>, n: int)
    requires
        0 <= n <= o.len(),
        running_in(o, n) == 0,
    ensures
        forall|k: int| 0 <= k < n ==> o[k] is Some,
    decreases n,
{
    if n > 0 {
        lemma_complete_has_all(o, n - 1);
    }
}

impl ToolRound {
    pub closed spec fn wf(&self) -> bool {
        &&& round_wf(self@)
        &&& self.outcomes@.len() == self.invocations@.len()
    }

    /// A round over `invocations` in which nothing has started, with at most
    /// `limit` calls in flight.
    pub fn new(invocations: Vec<ToolInvocation>, limit: usize) -> (r: ToolRound)
        requires
            limit >= 1,
        ensures
            r.wf(),
            r@ == fresh_round(invocations@, limit as nat),
    {
        let n = invocations.len();
        let mut outcomes: Vec<Option<ToolOutcome>> = Vec::new();
        let mut i: usize = 0;
        while i < n
            invariant
                i <= n,
                outcomes@.len() == i,
                forall|k: int| 0 <= k < i ==> outcomes@[k] is None,
            decreases n - i,
        {
            outcomes.push(None);
            i += 1;
        }
        let r = ToolRound { invocations, limit, started: 0, running: 0, outcomes };
        proof {
            assert(r@.outcomes =~= Seq::new(n as nat, |i: int| None::<OutcomeV>));
        }
        r
    }

    /// The calls of the round, in the order the model gave them.
    pub fn invocations(&self) -> (r: &Vec<ToolInvocation>)
        ensures
            r@ == self@.invocations,
    {
        &self.invocations
    }

    /// How many calls are running now.
    pub fn in_flight(&self) -> (r: usize)
        ensures
            r == self@.running,
    {
        self.running
    }

    /// Whether every call has ended.
    pub fn is_complete(&self) -> (r: bool)
        requires
            self.wf(),
        ensures
            r == round_complete(self@),
    {
        self.started == self.invocations.len() && self.running == 0
    }

    /// Starts the next call, if one is waiting and a slot is free: returns
    /// its position. Otherwise changes nothing and returns `None`.
    pub fn start_next(&mut self) -> (r: Option<usize>)
        requires
            old(self).wf(),
        ensures
            final(self).wf(),
            final(self)@ == started_round(old(self)@),
            match r {
                Some(i) => {
                    &&& i as nat == old(self)@.started
                    &&& old(self)@.started < old(self)@.invocations.len()
                    &&& old(self)@.running < old(self)@.limit
                },
                None => !(old(self)@.started < old(self)@.invocations.len() && old(self)@.running
                    < old(self)@.limit),
            },
    {
        if self.started < self.invocations.len() && self.running < self.limit {
            let i = self.started;
            proof {
                let o = self@.outcomes;
                assert(running_in(o, i + 1) == running_in(o, i as int) + 1);
            }
            self.started = i + 1;
            self.running = self.running + 1;
            Some(i)
        } else {
            None
        }
    }

    /// Records the outcome of the running call at `index`. A position that
    /// was not started, or whose call already ended, changes nothing and
    /// gives `false`.
    pub fn finish(&mut self, index: usize, outcome: ToolOutcome) -> (r: bool)
        requires
            old(self).wf(),
        ensures
            final(self).wf(),
            r == (index < old(self)@.started && old(self)@.outcomes[index as int] is None),
            final(self)@ == finished_round(old(self)@, index as int, outcome@),
    {
        if index < self.started && self.outcomes[index].is_none() {
            proof {
                lemma_running_update(self@.outcomes, self.started as int, index as int, outcome@);
                assert(self@.outcomes.update(index as int, Some(outcome@)) =~= self.outcomes@.update(
                    index as int,
                    Some(outcome),
                ).map_values(|o: Option<ToolOutcome>| outcome_opt(o)));
            }
            self.outcomes.set(index, Some(outcome));
            self.running = self.running - 1;
            true
        } else {
            false
        }
    }

    /// The outcome of the call at `index` of a complete round.
    pub fn outcome(&self, index: usize) -> (r: &ToolOutcome)
        requires
            self.wf(),
            round_complete(self@),
            index < self@.invocations.len(),
        ensures
            self@.outcomes[index as int] == Some(r@),
    {
        proof {
            lemma_complete_has_all(self@.outcomes, self@.started as int);
            assert(self@.outcomes[index as int] is Some);
            assert(self@.outcomes[index as int] == outcome_opt(self.outcomes@[index as int]));
        }
        self.outcomes[index].as_ref().unwrap()
    }

    /// Gives up the calls of the round.
    pub fn into_invocations(self) -> (r: Vec<ToolInvocation>)
        ensures
            r@ == self@.invocations,
    {
        self.invocations
    }
}

/// The cap on calls in flight holds in every state of a round.
pub proof fn lemma_in_flight_bounded(r: ToolRound)
    requires
        r.wf(),
    ensures
        r@.running <= r@.limit,
        r@.running <= r@.started,
{
    lemma_running_le(r@.outcomes, r@.started as int);
}

proof fn lemma_running_le(o: Seq<Option<OutcomeV>>, n: int)
    requires
        0 <= n <= o.len(),
    ensures
        running_in(o, n) <= n,
    decreases n,
{
    if n > 0 {
        lemma_running_le(o, n - 1);
    }
}

} // verus!
