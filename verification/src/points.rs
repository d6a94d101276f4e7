use vstd::prelude::*;
use crate::config::PointsConfig;

verus! {

/// The raw engagement counters of one monitoring session, as last scraped
/// from the worker.
#[derive(Clone, Copy, Debug, PartialEq, Eq, Structural)]
pub struct RawMetrics {
    /// Cumulative tip revenue, in currency units; only ever added to.
    pub superchat_amount: i64,
    /// Concurrent viewers; overwritten on each poll.
    pub concurrent_viewers: i64,
    /// Likes; overwritten on each poll.
    pub like_count: i64,
    /// Subscriber count at session start; immutable until a reset.
    pub initial_subscribers: i64,
    /// Subscriber count as of the latest poll.
    pub current_subscribers: i64,
}

impl Default for RawMetrics {
    fn default() -> (r: Self)
        ensures
            r == RawMetrics::zero(),
    {
        RawMetrics {
            superchat_amount: 0,
            concurrent_viewers: 0,
            like_count: 0,
            initial_subscribers: 0,
            current_subscribers: 0,
        }
    }
}

impl RawMetrics {
    pub open spec fn zero() -> RawMetrics {
        RawMetrics {
            superchat_amount: 0,
            concurrent_viewers: 0,
            like_count: 0,
            initial_subscribers: 0,
            current_subscribers: 0,
        }
    }
}

/// The derived point breakdown: one component per signal, a manual
/// component, and the grand total, which is always the sum of the displayed
/// components.
#[derive(Clone, Copy, Debug, PartialEq, Eq, Structural)]
pub struct PointState {
    pub total: i64,
    pub superchat: i64,
    pub concurrent: i64,
    pub likes: i64,
    pub subscribers: i64,
    pub manual: i64,
    pub visitor: i64,
}

impl Default for PointState {
    fn default() -> (r: Self)
        ensures
            r == PointState::zero(),
    {
        PointState {
            total: 0,
            superchat: 0,
            concurrent: 0,
            likes: 0,
            subscribers: 0,
            manual: 0,
            visitor: 0,
        }
    }
}

/// Division truncating toward zero, the policy for every derived component.
pub open spec fn trunc_div(a: int, b: int) -> int
    recommends
        b >= 1,
{
    if a >= 0 {
        a / b
    } else {
        -((-a) / b)
    }
}

/// Points earned from cumulative tips.
pub open spec fn superchat_points(m: RawMetrics, c: PointsConfig) -> int {
    trunc_div(m.superchat_amount as int, c.superchat_rate as int)
}

/// Points earned from the current viewer count.
pub open spec fn concurrent_points(m: RawMetrics, c: PointsConfig) -> int {
    trunc_div(m.concurrent_viewers as int, c.concurrent_rate as int)
}

/// Points earned from likes.
pub open spec fn like_points(m: RawMetrics, c: PointsConfig) -> int {
    trunc_div(m.like_count as int, c.like_rate as int)
}

/// Points earned from subscribers gained since session start.
pub open spec fn subscriber_points(m: RawMetrics, c: PointsConfig) -> int {
    trunc_div(m.current_subscribers - m.initial_subscribers, c.subscriber_rate as int)
}

/// The total before any manual adjustment.
pub open spec fn base_total(m: RawMetrics, c: PointsConfig) -> int {
    superchat_points(m, c) + concurrent_points(m, c) + like_points(m, c) + subscriber_points(m, c)
}

/// The machine bounds under which the breakdown can be computed in 64-bit
/// arithmetic: the subscriber delta and every partial sum of components fit.
pub open spec fn metrics_fit(m: RawMetrics, c: PointsConfig) -> bool {
    &&& i64::MIN <= m.current_subscribers - m.initial_subscribers <= i64::MAX
    &&& i64::MIN <= superchat_points(m, c) + concurrent_points(m, c) <= i64::MAX
    &&& i64::MIN <= superchat_points(m, c) + concurrent_points(m, c) + like_points(m, c)
        <= i64::MAX
    &&& i64::MIN <= base_total(m, c) <= i64::MAX
}

/// Truncating division stays within the dividend's magnitude.
pub proof fn lemma_trunc_div_bounds(a: int, b: int)
    requires
        b >= 1,
    ensures
        a >= 0 ==> 0 <= trunc_div(a, b) <= a,
        a < 0 ==> a <= trunc_div(a, b) <= 0,
{
    if a >= 0 {
        vstd::arithmetic::div_mod::lemma_div_nonincreasing(a, b);
        vstd::arithmetic::div_mod::lemma_div_pos_is_pos(a, b);
    } else {
        vstd::arithmetic::div_mod::lemma_div_nonincreasing(-a, b);
        vstd::arithmetic::div_mod::lemma_div_pos_is_pos(-a, b);
    }
}

/// Division truncating toward zero, as executable 64-bit arithmetic.
pub(crate) fn div_trunc(a: i64, b: i64) -> (q: i64)
    requires
        b >= 1,
    ensures
        q == trunc_div(a as int, b as int),
{
    proof {
        lemma_trunc_div_bounds(a as int, b as int);
    }
    if a >= 0 {
        a / b
    } else {
        let na: i128 = -(a as i128);
        let qm: i128 = na / (b as i128);
        (-qm) as i64
    }
}

impl PointState {
    pub open spec fn zero() -> PointState {
        PointState {
            total: 0,
            superchat: 0,
            concurrent: 0,
            likes: 0,
            subscribers: 0,
            manual: 0,
            visitor: 0,
        }
    }

    /// The breakdown derived from `m` under rates `c`, with no manual
    /// component.
    pub open spec fn spec_from_metrics(m: RawMetrics, c: PointsConfig) -> PointState {
        PointState {
            total: base_total(m, c) as i64,
            superchat: superchat_points(m, c) as i64,
            concurrent: concurrent_points(m, c) as i64,
            likes: like_points(m, c) as i64,
            subscribers: subscriber_points(m, c) as i64,
            manual: 0,
            visitor: 0,
        }
    }

    /// Recomputes the full breakdown from the raw counters: each component
    /// is its signal divided by its rate, truncating toward zero, and the
    /// total is the sum of the components.
    pub fn calculate_from_metrics(metrics: &RawMetrics, config: &PointsConfig) -> (r: Self)
        requires
            config.valid(),
            metrics_fit(*metrics, *config),
        ensures
            r == PointState::spec_from_metrics(*metrics, *config),
            r.superchat == superchat_points(*metrics, *config),
            r.concurrent == concurrent_points(*metrics, *config),
            r.likes == like_points(*metrics, *config),
            r.subscribers == subscriber_points(*metrics, *config),
            r.manual == 0,
            r.visitor == 0,
            r.total == base_total(*metrics, *config),
    {
        proof {
            lemma_trunc_div_bounds(metrics.superchat_amount as int, config.superchat_rate as int);
            lemma_trunc_div_bounds(metrics.concurrent_viewers as int, config.concurrent_rate as int);
            lemma_trunc_div_bounds(metrics.like_count as int, config.like_rate as int);
            lemma_trunc_div_bounds(
                metrics.current_subscribers - metrics.initial_subscribers,
                config.subscriber_rate as int,
            );
        }
        let superchat = div_trunc(metrics.superchat_amount, config.superchat_rate);
        let concurrent = div_trunc(metrics.concurrent_viewers, config.concurrent_rate);
        let likes = div_trunc(metrics.like_count, config.like_rate);
        let new_subscribers = metrics.current_subscribers - metrics.initial_subscribers;
        let subscribers = div_trunc(new_subscribers, config.subscriber_rate);

        PointState {
            total: superchat + concurrent + likes + subscribers,
            superchat,
            concurrent,
            likes,
            subscribers,
            manual: 0,
            visitor: 0,
        }
    }

    /// `self` after a manual adjustment of `amount`: only the manual
    /// component and the total move, both by `amount`.
    pub open spec fn spec_add_manual(self, amount: int) -> PointState {
        PointState {
            total: (self.total + amount) as i64,
            manual: (self.manual + amount) as i64,
            superchat: self.superchat,
            concurrent: self.concurrent,
            likes: self.likes,
            subscribers: self.subscribers,
            visitor: self.visitor,
        }
    }

    /// Adds manual points: additive on the manual component and on the
    /// total, leaving every derived component unchanged.
    pub fn add_manual(&mut self, amount: i64)
        requires
            i64::MIN <= old(self).manual + amount <= i64::MAX,
            i64::MIN <= old(self).total + amount <= i64::MAX,
        ensures
            *final(self) == old(self).spec_add_manual(amount as int),
            final(self).manual == old(self).manual + amount,
            final(self).total == old(self).total + amount,
    {
        self.manual = self.manual + amount;
        self.total = self.total + amount;
    }
}

/// Law: manual additions are additive.  Adding `a` and then `b` yields the
/// same breakdown as adding `a + b` at once.
pub proof fn lemma_add_manual_additive(p: PointState, a: int, b: int)
    requires
        i64::MIN <= p.manual + a <= i64::MAX,
        i64::MIN <= p.total + a <= i64::MAX,
        i64::MIN <= p.manual + a + b <= i64::MAX,
        i64::MIN <= p.total + a + b <= i64::MAX,
    ensures
        p.spec_add_manual(a).spec_add_manual(b) == p.spec_add_manual(a + b),
{
}

} // verus!
