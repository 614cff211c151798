use vstd::prelude::*;

verus! {

/// A bounded, fixed-delay retry policy: at most `max_attempts` calls, with
/// `delay_ms` milliseconds between a failed call and the next one.
#[derive(Debug, Clone, Copy, PartialEq, Eq, Structural)]
pub struct RetryPolicy {
    pub max_attempts: u32,
    pub delay_ms: u64,
}

/// What to do after a call.
#[derive(Debug, Clone, Copy, PartialEq, Eq, Structural)]
pub enum RetryStep {
    /// The call succeeded: return its result.
    Succeeded,
    /// The call failed and attempts remain: wait, then call again.
    RetryAfter { delay_ms: u64 },
    /// The call failed and it was the last attempt: return its failure.
    GiveUp,
}

impl RetryPolicy {
    /// A policy allows at least one call.
    pub open spec fn wf(&self) -> bool {
        self.max_attempts >= 1
    }

    /// A policy of `max_attempts` calls `delay_ms` apart; none if it would
    /// allow no call at all.
    pub fn new(max_attempts: u32, delay_ms: u64) -> (r: Option<RetryPolicy>)
        ensures
            r is Some <==> max_attempts >= 1,
            r matches Some(p) ==> p.wf() && p.max_attempts == max_attempts && p.delay_ms == delay_ms,
    {
        if max_attempts >= 1 {
            Some(RetryPolicy { max_attempts, delay_ms })
        } else {
            None
        }
    }

    /// Obtaining the live broadcast URL: three attempts, 200 ms apart.
    pub fn spectate() -> (r: RetryPolicy)
        ensures
            r.wf(),
            r.max_attempts == 3,
            r.delay_ms == 200,
    {
        RetryPolicy { max_attempts: 3, delay_ms: 200 }
    }

    /// Waiting until the broadcast is reachable: sixty attempts, 500 ms apart.
    pub fn availability() -> (r: RetryPolicy)
        ensures
            r.wf(),
            r.max_attempts == 60,
            r.delay_ms == 500,
    {
        RetryPolicy { max_attempts: 60, delay_ms: 500 }
    }
}

/// The decision after call number `attempt` (counted from one) succeeded or not.
pub open spec fn step_spec(p: RetryPolicy, attempt: nat, succeeded: bool) -> RetryStep {
    if succeeded {
        RetryStep::Succeeded
    } else if attempt < p.max_attempts {
        RetryStep::RetryAfter { delay_ms: p.delay_ms }
    } else {
        RetryStep::GiveUp
    }
}

/// Decides what follows call number `attempt` (counted from one).
pub fn next_step(policy: &RetryPolicy, attempt: u32, succeeded: bool) -> (r: RetryStep)
    requires
        1 <= attempt <= policy.max_attempts,
    ensures
        r == step_spec(*policy, attempt as nat, succeeded),
{
    if succeeded {
        RetryStep::Succeeded
    } else if attempt < policy.max_attempts {
        RetryStep::RetryAfter { delay_ms: policy.delay_ms }
    } else {
        RetryStep::GiveUp
    }
}

/// How a sequence of retried calls ends: the number of calls made, the total
/// time waited between them, and whether the last one succeeded.
pub struct RetryOutcome {
    pub calls: nat,
    pub waited_ms: nat,
    pub succeeded: bool,
}

/// Runs the policy from call number `made + 1` on, where call `i + 1` succeeds
/// exactly when `outcomes[i]` holds.
pub open spec fn run_spec(p: RetryPolicy, outcomes: Seq<bool>, made: nat) -> RetryOutcome
    decreases outcomes.len() - made,
{
    if made >= outcomes.len() {
        RetryOutcome { calls: made, waited_ms: 0, succeeded: false }
    } else {
        match step_spec(p, (made + 1) as nat, outcomes[made as int]) {
            RetryStep::Succeeded => RetryOutcome { calls: (made + 1) as nat, waited_ms: 0, succeeded: true },
            RetryStep::GiveUp => RetryOutcome { calls: (made + 1) as nat, waited_ms: 0, succeeded: false },
            RetryStep::RetryAfter { delay_ms } => {
                let rest = run_spec(p, outcomes, (made + 1) as nat);
                RetryOutcome {
                    calls: rest.calls,
                    waited_ms: (rest.waited_ms + delay_ms) as nat,
                    succeeded: rest.succeeded,
                }
            },
        }
    }
}

proof fn lemma_run_succeeds_from(p: RetryPolicy, outcomes: Seq<bool>, k: nat, made: nat)
    requires
        1 <= k <= p.max_attempts,
        k <= outcomes.len(),
        made < k,
        forall|i: int| 0 <= i < k - 1 ==> !outcomes[i],
        outcomes[k - 1],
    ensures
        run_spec(p, outcomes, made).calls == k,
        run_spec(p, outcomes, made).succeeded,
        run_spec(p, outcomes, made).waited_ms == (k - 1 - made) * p.delay_ms,
    decreases k - made,
{
    if made + 1 < k {
        lemma_run_succeeds_from(p, outcomes, k, (made + 1) as nat);
        assert((k - 1 - made) * p.delay_ms == (k - 1 - (made + 1)) * p.delay_ms + p.delay_ms)
            by (nonlinear_arith);
    } else {
        assert((k - 1 - made) * p.delay_ms == 0) by (nonlinear_arith)
            requires
                k - 1 - made == 0,
        ;
    }
}

proof fn lemma_run_fails_from(p: RetryPolicy, outcomes: Seq<bool>, made: nat)
    requires
        p.wf(),
        p.max_attempts <= outcomes.len(),
        made < p.max_attempts,
        forall|i: int| 0 <= i < p.max_attempts ==> !outcomes[i],
    ensures
        run_spec(p, outcomes, made).calls == p.max_attempts,
        !run_spec(p, outcomes, made).succeeded,
        run_spec(p, outcomes, made).waited_ms == (p.max_attempts - 1 - made) * p.delay_ms,
    decreases p.max_attempts - made,
{
    if made + 1 < p.max_attempts {
        lemma_run_fails_from(p, outcomes, (made + 1) as nat);
        assert((p.max_attempts - 1 - made) * p.delay_ms == (p.max_attempts - 1 - (made + 1))
            * p.delay_ms + p.delay_ms) by (nonlinear_arith);
    } else {
        assert((p.max_attempts - 1 - made) * p.delay_ms == 0) by (nonlinear_arith)
            requires
                p.max_attempts - 1 - made == 0,
        ;
    }
}

/// An operation that fails its first `k - 1` calls and succeeds on call
/// `k <= max_attempts` ends in success after exactly `k` calls, having waited
/// `(k - 1) * delay`.
pub proof fn lemma_retry_succeeds_on_call_k(p: RetryPolicy, outcomes: Seq<bool>, k: nat)
    requires
        1 <= k <= p.max_attempts,
        k <= outcomes.len(),
        forall|i: int| 0 <= i < k - 1 ==> !outcomes[i],
        outcomes[k - 1],
    ensures
        run_spec(p, outcomes, 0).calls == k,
        run_spec(p, outcomes, 0).succeeded,
        run_spec(p, outcomes, 0).waited_ms == (k - 1) * p.delay_ms,
{
    lemma_run_succeeds_from(p, outcomes, k, 0);
}

/// An operation that fails every call is called exactly `max_attempts` times,
/// and the run ends on the failure of that last call.
pub proof fn lemma_retry_gives_up(p: RetryPolicy, outcomes: Seq<bool>)
    requires
        p.wf(),
        p.max_attempts <= outcomes.len(),
        forall|i: int| 0 <= i < p.max_attempts ==> !outcomes[i],
    ensures
        run_spec(p, outcomes, 0).calls == p.max_attempts,
        !run_spec(p, outcomes, 0).succeeded,
        run_spec(p, outcomes, 0).waited_ms == (p.max_attempts - 1) * p.delay_ms,
{
    lemma_run_fails_from(p, outcomes, 0);
}

} // verus!
