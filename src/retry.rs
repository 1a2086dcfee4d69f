use vstd::prelude::*;

verus! {

/// How often, and after which first pause, a failed operation is tried again.
#[derive(Clone, Copy, Debug, PartialEq, Eq, Structural)]
pub struct RetryPolicy {
    /// Retries after the first attempt; at most `max_retries + 1` attempts in all.
    pub max_retries: u32,
    /// The pause before the first retry, in milliseconds.
    pub initial_delay_ms: u64,
}

/// Where a run of attempts stands: how many retries it has made, and the pause
/// that comes before the next one.
#[derive(Clone, Copy, Debug, PartialEq, Eq, Structural)]
pub struct RetryState {
    pub retries: u32,
    pub delay_ms: u64,
}

/// What to do after a failed attempt.
#[derive(Clone, Copy, Debug, PartialEq, Eq, Structural)]
pub enum RetryDecision {
    /// Pause for `delay_ms`, then try again.
    Retry { delay_ms: u64 },
    /// Stop, and report the last failure as coming after `retries` retries.
    GiveUp { retries: u32 },
}

/// Twice `d`, held at the largest value a pause can have.
pub open spec fn doubled(d: u64) -> u64 {
    if d > u64::MAX / 2 {
        u64::MAX
    } else {
        (2 * d) as u64
    }
}

/// The pause before retry number `k + 1`, counting from zero.
pub open spec fn delay_after(d0: u64, k: nat) -> u64
    decreases k,
{
    if k == 0 {
        d0
    } else {
        doubled(delay_after(d0, (k - 1) as nat))
    }
}

/// One failure handled: give up once every retry is spent, else wait the current
/// pause and double it.
pub open spec fn step(s: RetryState, p: RetryPolicy) -> (RetryDecision, RetryState) {
    if s.retries >= p.max_retries {
        (RetryDecision::GiveUp { retries: p.max_retries }, s)
    } else {
        (
            RetryDecision::Retry { delay_ms: s.delay_ms },
            RetryState { retries: (s.retries + 1) as u32, delay_ms: doubled(s.delay_ms) },
        )
    }
}

/// How a run of attempts ended.
pub enum RunEnd {
    Succeeded,
    GaveUp(u32),
    /// The outcomes given ran out first.
    Unfinished,
}

/// A run from state `s` where attempt `k` succeeds exactly when `outcomes[k]`: the
/// number of attempts made, the pauses taken between them, and how it ended.
pub open spec fn run(p: RetryPolicy, s: RetryState, outcomes: Seq<bool>) -> (nat, Seq<u64>, RunEnd)
    decreases outcomes.len(),
{
    if outcomes.len() == 0 {
        (0, Seq::empty(), RunEnd::Unfinished)
    } else if outcomes[0] {
        (1, Seq::empty(), RunEnd::Succeeded)
    } else {
        match step(s, p).0 {
            RetryDecision::GiveUp { retries } => (1, Seq::empty(), RunEnd::GaveUp(retries)),
            RetryDecision::Retry { delay_ms } => {
                let rest = run(p, step(s, p).1, outcomes.drop_first());
                (rest.0 + 1, seq![delay_ms] + rest.1, rest.2)
            },
        }
    }
}

impl RetryState {
    /// A state reached from the start of a run under `p`.
    pub open spec fn wf(self, p: RetryPolicy) -> bool {
        &&& self.retries <= p.max_retries
        &&& self.delay_ms == delay_after(p.initial_delay_ms, self.retries as nat)
    }

    /// The state before the first attempt.
    pub fn start(p: &RetryPolicy) -> (s: RetryState)
        ensures
            s.retries == 0,
            s.delay_ms == p.initial_delay_ms,
            s.wf(*p),
    {
        RetryState { retries: 0, delay_ms: p.initial_delay_ms }
    }

    /// Handles one failed attempt.
    pub fn on_failure(&mut self, p: &RetryPolicy) -> (d: RetryDecision)
        requires
            old(self).wf(*p),
        ensures
            (d, *final(self)) == step(*old(self), *p),
            final(self).wf(*p),
    {
        if self.retries >= p.max_retries {
            RetryDecision::GiveUp { retries: p.max_retries }
        } else {
            let d = self.delay_ms;
            self.retries = self.retries + 1;
            self.delay_ms = if self.delay_ms > u64::MAX / 2 {
                u64::MAX
            } else {
                self.delay_ms * 2
            };
            RetryDecision::Retry { delay_ms: d }
        }
    }
}

pub open spec fn pow2(k: nat) -> nat
    decreases k,
{
    if k == 0 {
        1
    } else {
        2 * pow2((k - 1) as nat)
    }
}

proof fn lemma_delay_exact(d0: u64, k: nat)
    requires
        d0 * pow2(k) <= u64::MAX,
    ensures
        delay_after(d0, k) == d0 * pow2(k),
    decreases k,
{
    if k > 0 {
        let km = (k - 1) as nat;
        let p = pow2(km);
        assert(d0 * pow2(k) == 2 * (d0 * p)) by (nonlinear_arith)
            requires
                pow2(k) == 2 * p,
        ;
        assert(d0 * p <= u64::MAX / 2);
        lemma_delay_exact(d0, km);
        assert(delay_after(d0, k) == doubled(delay_after(d0, km)));
    } else {
        assert(pow2(0) == 1);
        assert(d0 * 1 == d0);
    }
}

proof fn lemma_fail_then_succeed(p: RetryPolicy, s: RetryState, outcomes: Seq<bool>, m: nat)
    requires
        s.wf(p),
        s.retries + m <= p.max_retries,
        m < outcomes.len(),
        forall|k: int| 0 <= k < m ==> !outcomes[k],
        outcomes[m as int],
    ensures
        run(p, s, outcomes).0 == m + 1,
        run(p, s, outcomes).2 is Succeeded,
        run(p, s, outcomes).1 =~= Seq::new(m, |k: int| delay_after(p.initial_delay_ms, (s.retries + k) as nat)),
    decreases m,
{
    if m > 0 {
        let s2 = step(s, p).1;
        let rest = outcomes.drop_first();
        assert forall|k: int| 0 <= k < m - 1 implies !rest[k] by {
            assert(rest[k] == outcomes[k + 1]);
        }
        lemma_fail_then_succeed(p, s2, rest, (m - 1) as nat);
        assert(s.delay_ms == delay_after(p.initial_delay_ms, (s.retries + 0) as nat));
        assert forall|k: int| 1 <= k < m implies #[trigger] delay_after(p.initial_delay_ms, (s.retries + k) as nat)
            == delay_after(p.initial_delay_ms, (s2.retries + (k - 1)) as nat) by {}
    }
}

proof fn lemma_always_fail(p: RetryPolicy, s: RetryState, outcomes: Seq<bool>)
    requires
        s.wf(p),
        p.max_retries - s.retries < outcomes.len(),
        forall|k: int| 0 <= k <= p.max_retries - s.retries ==> !outcomes[k],
    ensures
        run(p, s, outcomes).0 == p.max_retries - s.retries + 1,
        run(p, s, outcomes).2 == RunEnd::GaveUp(p.max_retries),
        run(p, s, outcomes).1.len() == p.max_retries - s.retries,
    decreases p.max_retries - s.retries,
{
    if s.retries < p.max_retries {
        let rest = outcomes.drop_first();
        assert forall|k: int| 0 <= k <= p.max_retries - (s.retries + 1) implies !rest[k] by {
            assert(rest[k] == outcomes[k + 1]);
        }
        lemma_always_fail(p, step(s, p).1, rest);
    }
}

/// An operation that fails `m` times, fewer than the retries allowed, and then
/// succeeds, is attempted exactly `m + 1` times and its success is returned; the
/// pauses between attempts start at the initial pause and each one doubles the
/// last, so they strictly increase while they fit in a `u64`.
pub proof fn lemma_retry_recovers(p: RetryPolicy, m: nat)
    requires
        m < p.max_retries,
    ensures
        ({
            let outcomes = Seq::new(m + 1, |k: int| k == m);
            let r = run(p, RetryState { retries: 0, delay_ms: p.initial_delay_ms }, outcomes);
            &&& r.0 == m + 1
            &&& r.2 is Succeeded
            &&& r.1.len() == m
            &&& forall|k: int| 0 <= k < m ==> r.1[k] == delay_after(p.initial_delay_ms, k as nat)
            &&& (p.initial_delay_ms > 0 && p.initial_delay_ms * pow2(m) <= u64::MAX) ==> {
                &&& forall|k: int| 0 <= k < m ==> r.1[k] == p.initial_delay_ms * pow2(k as nat)
                &&& forall|k: int| 0 <= k < m - 1 ==> #[trigger] r.1[k + 1] == 2 * r.1[k] && r.1[k] < r.1[k + 1]
            }
        }),
{
    let outcomes = Seq::new(m + 1, |k: int| k == m);
    let s = RetryState { retries: 0, delay_ms: p.initial_delay_ms };
    lemma_fail_then_succeed(p, s, outcomes, m);
    let r = run(p, s, outcomes);
    assert forall|k: int| 0 <= k < m implies r.1[k] == delay_after(p.initial_delay_ms, k as nat) by {
        assert((s.retries + k) as nat == k as nat);
    }
    if p.initial_delay_ms > 0 && p.initial_delay_ms * pow2(m) <= u64::MAX {
        assert forall|k: int| 0 <= k <= m implies #[trigger] delay_after(p.initial_delay_ms, k as nat)
            == p.initial_delay_ms * pow2(k as nat) by {
            lemma_pow2_mono(k as nat, m);
            let d0 = p.initial_delay_ms as nat;
            let a = pow2(k as nat);
            let b = pow2(m);
            assert(d0 * a <= d0 * b) by (nonlinear_arith)
                requires
                    a <= b,
            ;
            lemma_delay_exact(p.initial_delay_ms, k as nat);
        }
        assert forall|k: int| 0 <= k < m - 1 implies #[trigger] r.1[k + 1] == 2 * r.1[k] && r.1[k] < r.1[k + 1] by {
            let d0 = p.initial_delay_ms as nat;
            let a = pow2(k as nat);
            assert(pow2((k + 1) as nat) == 2 * a);
            lemma_pow2_pos(k as nat);
            assert(d0 * (2 * a) == 2 * (d0 * a) && d0 * a > 0) by (nonlinear_arith)
                requires
                    d0 > 0,
                    a > 0,
            ;
            assert(r.1[k] == delay_after(p.initial_delay_ms, k as nat));
            assert(r.1[k + 1] == delay_after(p.initial_delay_ms, (k + 1) as nat));
        }
    }
}

proof fn lemma_pow2_pos(k: nat)
    ensures
        pow2(k) > 0,
    decreases k,
{
    if k > 0 {
        lemma_pow2_pos((k - 1) as nat);
    }
}

proof fn lemma_pow2_mono(a: nat, b: nat)
    requires
        a <= b,
    ensures
        pow2(a) <= pow2(b),
    decreases b,
{
    if a < b {
        lemma_pow2_mono(a, (b - 1) as nat);
        lemma_pow2_pos((b - 1) as nat);
    }
}

/// An operation that always fails, under a policy of `r` retries, is attempted
/// exactly `r + 1` times and the run ends in a failure that reports `r` retries.
pub proof fn lemma_retry_exhausts(p: RetryPolicy)
    ensures
        ({
            let outcomes = Seq::new((p.max_retries + 1) as nat, |k: int| false);
            let r = run(p, RetryState { retries: 0, delay_ms: p.initial_delay_ms }, outcomes);
            &&& r.0 == p.max_retries + 1
            &&& r.2 == RunEnd::GaveUp(p.max_retries)
            &&& r.1.len() == p.max_retries
        }),
{
    let outcomes = Seq::new((p.max_retries + 1) as nat, |k: int| false);
    lemma_always_fail(p, RetryState { retries: 0, delay_ms: p.initial_delay_ms }, outcomes);
}

} // verus!
