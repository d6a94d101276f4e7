use vstd::prelude::*;
use crate::config::PointsConfig;
use crate::points::PointState;
use crate::points::RawMetrics;
use crate::points::base_total;
use crate::points::superchat_points;
use crate::points::concurrent_points;
use crate::points::like_points;
use crate::points::subscriber_points;
use crate::points::metrics_fit;
use crate::points::trunc_div;
use crate::fanout::PointsPayload;

verus! {

/// `m` after a tip of `amount` arrived: the cumulative tip revenue grows,
/// nothing else moves.
pub open spec fn after_tip(m: RawMetrics, amount: int) -> RawMetrics {
    RawMetrics {
        superchat_amount: (m.superchat_amount + amount) as i64,
        concurrent_viewers: m.concurrent_viewers,
        like_count: m.like_count,
        initial_subscribers: m.initial_subscribers,
        current_subscribers: m.current_subscribers,
    }
}

/// `m` after a poll reported fresh viewer, like and subscriber counts:
/// the three polled fields are overwritten, the cumulative tip revenue and
/// the session baseline stay.
pub open spec fn after_poll(m: RawMetrics, viewers: i64, likes: i64, subscribers: i64) -> RawMetrics {
    RawMetrics {
        superchat_amount: m.superchat_amount,
        concurrent_viewers: viewers,
        like_count: likes,
        initial_subscribers: m.initial_subscribers,
        current_subscribers: subscribers,
    }
}

/// `m` after a reset: all additive and polled fields are zeroed; with
/// `keep_initial` the session baseline survives and the current count is
/// set back to it, otherwise both are zeroed.
pub open spec fn after_reset(m: RawMetrics, keep_initial: bool) -> RawMetrics {
    RawMetrics {
        superchat_amount: 0,
        concurrent_viewers: 0,
        like_count: 0,
        initial_subscribers: if keep_initial {
            m.initial_subscribers
        } else {
            0
        },
        current_subscribers: if keep_initial {
            m.initial_subscribers
        } else {
            0
        },
    }
}

/// The counters at the start of a session: no revenue, the first
/// scrape's viewer and like counts, and the subscriber baseline with the
/// current count equal to it.
pub open spec fn session_start_metrics(viewers: i64, likes: i64, initial_subscribers: i64) -> RawMetrics {
    RawMetrics {
        superchat_amount: 0,
        concurrent_viewers: viewers,
        like_count: likes,
        initial_subscribers: initial_subscribers,
        current_subscribers: initial_subscribers,
    }
}

/// The bounds under which a store with counters `m`, rates `c` and manual
/// component `manual` can recompute its breakdown in 64-bit arithmetic.
pub open spec fn store_fits(m: RawMetrics, c: PointsConfig, manual: int) -> bool {
    &&& metrics_fit(m, c)
    &&& i64::MIN <= base_total(m, c) + manual <= i64::MAX
}

/// Whether a tip of `amount` can be applied to `s` in 64-bit arithmetic.
pub open spec fn tip_fits(s: MetricsStore, amount: i64) -> bool {
    &&& i64::MIN <= s.metrics().superchat_amount + amount <= i64::MAX
    &&& store_fits(after_tip(s.metrics(), amount as int), s.config(), s.points().manual as int)
}

/// Decides `store_fits` by computing each component and testing every
/// partial sum with checked arithmetic.
fn fits_check(m: RawMetrics, c: PointsConfig, manual: i64) -> (r: bool)
    requires
        c.valid(),
    ensures
        r == store_fits(m, c, manual as int),
{
    proof {
        crate::points::lemma_trunc_div_bounds(m.superchat_amount as int, c.superchat_rate as int);
        crate::points::lemma_trunc_div_bounds(m.concurrent_viewers as int, c.concurrent_rate as int);
        crate::points::lemma_trunc_div_bounds(m.like_count as int, c.like_rate as int);
    }
    if m.current_subscribers.checked_sub(m.initial_subscribers).is_none() {
        return false;
    }
    let delta = m.current_subscribers - m.initial_subscribers;
    proof {
        crate::points::lemma_trunc_div_bounds(delta as int, c.subscriber_rate as int);
    }
    let sp = crate::points::div_trunc(m.superchat_amount, c.superchat_rate);
    let cp = crate::points::div_trunc(m.concurrent_viewers, c.concurrent_rate);
    let lp = crate::points::div_trunc(m.like_count, c.like_rate);
    let sub = crate::points::div_trunc(delta, c.subscriber_rate);
    let s1 = match sp.checked_add(cp) {
        Some(x) => x,
        None => {
            return false;
        },
    };
    let s2 = match s1.checked_add(lp) {
        Some(x) => x,
        None => {
            return false;
        },
    };
    let s3 = match s2.checked_add(sub) {
        Some(x) => x,
        None => {
            return false;
        },
    };
    s3.checked_add(manual).is_some()
}

/// The metrics store: the raw counters and the derived breakdown, held
/// as one unit.  Every mutation recomputes the breakdown in the same
/// step, so a reader never sees counters and breakdown from different
/// mutation generations.
pub struct MetricsStore {
    config: PointsConfig,
    metrics: RawMetrics,
    points: PointState,
}

impl MetricsStore {
    pub closed spec fn config(self) -> PointsConfig {
        self.config
    }

    pub closed spec fn metrics(self) -> RawMetrics {
        self.metrics
    }

    pub closed spec fn points(self) -> PointState {
        self.points
    }

    /// The store's invariant: the rates are valid and the breakdown is
    /// exactly the one derived from the counters, with the manual
    /// component added into the total.
    pub open spec fn wf(self) -> bool {
        &&& self.config().valid()
        &&& self.points().superchat == superchat_points(self.metrics(), self.config())
        &&& self.points().concurrent == concurrent_points(self.metrics(), self.config())
        &&& self.points().likes == like_points(self.metrics(), self.config())
        &&& self.points().subscribers == subscriber_points(self.metrics(), self.config())
        &&& self.points().visitor == 0
        &&& self.points().total == base_total(self.metrics(), self.config()) + self.points().manual
    }

    pub fn new(config: PointsConfig) -> (r: MetricsStore)
        requires
            config.valid(),
        ensures
            r.wf(),
            r.config() == config,
            r.metrics() == RawMetrics::zero(),
            r.points() == PointState::zero(),
    {
        proof {
            lemma_zero_components(RawMetrics::zero(), config);
        }
        MetricsStore {
            config,
            metrics: RawMetrics::default(),
            points: PointState::default(),
        }
    }

    /// Recomputes the breakdown from the counters, carrying the manual
    /// component over.
    fn recompute(&mut self)
        requires
            old(self).config().valid(),
            store_fits(old(self).metrics(), old(self).config(), old(self).points().manual as int),
        ensures
            final(self).config() == old(self).config(),
            final(self).metrics() == old(self).metrics(),
            final(self).points().manual == old(self).points().manual,
            final(self).wf(),
    {
        let manual = self.points.manual;
        let mut p = PointState::calculate_from_metrics(&self.metrics, &self.config);
        p.add_manual(manual);
        self.points = p;
    }

    /// Adds a tip to the cumulative revenue and recomputes.
    pub fn apply_tip(&mut self, amount: i64)
        requires
            old(self).wf(),
            i64::MIN <= old(self).metrics().superchat_amount + amount <= i64::MAX,
            store_fits(
                after_tip(old(self).metrics(), amount as int),
                old(self).config(),
                old(self).points().manual as int,
            ),
        ensures
            final(self).wf(),
            final(self).config() == old(self).config(),
            final(self).metrics() == after_tip(old(self).metrics(), amount as int),
            final(self).points().manual == old(self).points().manual,
    {
        self.metrics.superchat_amount = self.metrics.superchat_amount + amount;
        self.recompute();
    }

    /// Overwrites the three polled counters with a fresh scrape and
    /// recomputes.  Last write wins; the session baseline is untouched.
    pub fn apply_poll(&mut self, viewers: i64, likes: i64, subscribers: i64)
        requires
            old(self).wf(),
            store_fits(
                after_poll(old(self).metrics(), viewers, likes, subscribers),
                old(self).config(),
                old(self).points().manual as int,
            ),
        ensures
            final(self).wf(),
            final(self).config() == old(self).config(),
            final(self).metrics() == after_poll(old(self).metrics(), viewers, likes, subscribers),
            final(self).points().manual == old(self).points().manual,
    {
        self.metrics.concurrent_viewers = viewers;
        self.metrics.like_count = likes;
        self.metrics.current_subscribers = subscribers;
        self.recompute();
    }

    /// Starts a session's counters: no revenue yet, the first scrape's
    /// viewer and like counts, and the subscriber baseline set once, with
    /// the current count equal to it.  The manual component survives.
    pub fn begin_session(&mut self, viewers: i64, likes: i64, initial_subscribers: i64)
        requires
            old(self).wf(),
            store_fits(
                session_start_metrics(viewers, likes, initial_subscribers),
                old(self).config(),
                old(self).points().manual as int,
            ),
        ensures
            final(self).wf(),
            final(self).config() == old(self).config(),
            final(self).metrics() == session_start_metrics(viewers, likes, initial_subscribers),
            final(self).metrics().superchat_amount == 0,
            final(self).metrics().concurrent_viewers == viewers,
            final(self).metrics().like_count == likes,
            final(self).metrics().initial_subscribers == initial_subscribers,
            final(self).metrics().current_subscribers == initial_subscribers,
            final(self).points().manual == old(self).points().manual,
    {
        self.metrics.superchat_amount = 0;
        self.metrics.concurrent_viewers = viewers;
        self.metrics.like_count = likes;
        self.metrics.initial_subscribers = initial_subscribers;
        self.metrics.current_subscribers = initial_subscribers;
        proof {
            assert(self.metrics == session_start_metrics(viewers, likes, initial_subscribers));
        }
        self.recompute();
    }

    /// Adds manual points: additive on the manual component and the
    /// total, leaving the counters and every derived component alone.
    pub fn add_manual(&mut self, amount: i64)
        requires
            old(self).wf(),
            i64::MIN <= old(self).points().manual + amount <= i64::MAX,
            i64::MIN <= old(self).points().total + amount <= i64::MAX,
        ensures
            final(self).wf(),
            final(self).config() == old(self).config(),
            final(self).metrics() == old(self).metrics(),
            final(self).points() == old(self).points().spec_add_manual(amount as int),
            final(self).points().manual == old(self).points().manual + amount,
            final(self).points().total == old(self).points().total + amount,
    {
        self.points.add_manual(amount);
    }

    /// Resets the session: zeroes all additive and polled counters and
    /// clears the manual component.  With `keep_initial_subscribers` the
    /// session baseline survives and the current count returns to it, so
    /// the subscriber component becomes zero without losing the baseline.
    pub fn reset(&mut self, keep_initial_subscribers: bool)
        requires
            old(self).wf(),
        ensures
            final(self).wf(),
            final(self).config() == old(self).config(),
            final(self).metrics() == after_reset(old(self).metrics(), keep_initial_subscribers),
            final(self).points() == PointState::zero(),
    {
        proof {
            lemma_zero_components(
                after_reset(old(self).metrics(), keep_initial_subscribers),
                old(self).config(),
            );
        }
        let keep = keep_initial_subscribers;
        let baseline = if keep {
            self.metrics.initial_subscribers
        } else {
            0
        };
        self.metrics.superchat_amount = 0;
        self.metrics.concurrent_viewers = 0;
        self.metrics.like_count = 0;
        self.metrics.initial_subscribers = baseline;
        self.metrics.current_subscribers = baseline;
        self.points = PointState::default();
    }

    /// The rates this store was built with, as a value.
    pub fn config_val(&self) -> (r: PointsConfig)
        ensures
            r == self.config(),
    {
        self.config
    }

    /// Whether a tip of `amount` can be applied without leaving 64-bit
    /// arithmetic.
    pub fn can_apply_tip(&self, amount: i64) -> (r: bool)
        requires
            self.wf(),
        ensures
            r == tip_fits(*self, amount),
    {
        match self.metrics.superchat_amount.checked_add(amount) {
            Some(total) => {
                let mut m = self.metrics;
                m.superchat_amount = total;
                fits_check(m, self.config, self.points.manual)
            },
            None => false,
        }
    }

    /// Whether a poll result can be applied without leaving 64-bit
    /// arithmetic.
    pub fn can_apply_poll(&self, viewers: i64, likes: i64, subscribers: i64) -> (r: bool)
        requires
            self.wf(),
        ensures
            r == store_fits(
                after_poll(self.metrics(), viewers, likes, subscribers),
                self.config(),
                self.points().manual as int,
            ),
    {
        let mut m = self.metrics;
        m.concurrent_viewers = viewers;
        m.like_count = likes;
        m.current_subscribers = subscribers;
        fits_check(m, self.config, self.points.manual)
    }

    /// Whether a session can begin with these counters without leaving
    /// 64-bit arithmetic.
    pub fn can_begin_session(&self, viewers: i64, likes: i64, initial_subscribers: i64) -> (r:
        bool)
        requires
            self.wf(),
        ensures
            r == store_fits(
                session_start_metrics(viewers, likes, initial_subscribers),
                self.config(),
                self.points().manual as int,
            ),
    {
        let m = RawMetrics {
            superchat_amount: 0,
            concurrent_viewers: viewers,
            like_count: likes,
            initial_subscribers,
            current_subscribers: initial_subscribers,
        };
        fits_check(m, self.config, self.points.manual)
    }

    /// The current manual component, as a value.
    pub fn manual_points(&self) -> (r: i64)
        ensures
            r == self.points().manual,
    {
        self.points.manual
    }

    /// The current total, as a value.
    pub fn total_points(&self) -> (r: i64)
        ensures
            r == self.points().total,
    {
        self.points.total
    }

    /// The paired counters and breakdown of one mutation generation.
    pub fn snapshot(&self) -> (r: PointsPayload)
        ensures
            r.points == self.points(),
            r.metrics == self.metrics(),
    {
        PointsPayload { points: self.points, metrics: self.metrics }
    }
}

/// Counters that are all zero, or whose subscriber delta is zero, derive
/// zero from every signal.
proof fn lemma_zero_components(m: RawMetrics, c: PointsConfig)
    requires
        c.valid(),
        m.superchat_amount == 0,
        m.concurrent_viewers == 0,
        m.like_count == 0,
        m.current_subscribers == m.initial_subscribers,
    ensures
        superchat_points(m, c) == 0,
        concurrent_points(m, c) == 0,
        like_points(m, c) == 0,
        subscriber_points(m, c) == 0,
        base_total(m, c) == 0,
{
    vstd::arithmetic::div_mod::lemma_basic_div(0, c.superchat_rate as int);
    vstd::arithmetic::div_mod::lemma_basic_div(0, c.concurrent_rate as int);
    vstd::arithmetic::div_mod::lemma_basic_div(0, c.like_rate as int);
    vstd::arithmetic::div_mod::lemma_basic_div(0, c.subscriber_rate as int);
}

/// Law: in every well-formed store the displayed total is exactly the sum
/// of the displayed components — tip, viewer, like and subscriber points
/// (each its signal divided by its rate, truncating) plus the manual
/// component.
pub proof fn lemma_total_is_sum_of_components(s: MetricsStore)
    requires
        s.wf(),
    ensures
        s.points().total == trunc_div(
            s.metrics().superchat_amount as int,
            s.config().superchat_rate as int,
        ) + trunc_div(s.metrics().concurrent_viewers as int, s.config().concurrent_rate as int)
            + trunc_div(s.metrics().like_count as int, s.config().like_rate as int) + trunc_div(
            s.metrics().current_subscribers - s.metrics().initial_subscribers,
            s.config().subscriber_rate as int,
        ) + s.points().manual,
{
}

/// Law: a reset that keeps the baseline, followed by a poll reporting a
/// subscriber count equal to that baseline, yields a subscriber-derived
/// component of zero.
pub proof fn lemma_reset_keep_then_poll_zero_subscribers(
    s: MetricsStore,
    viewers: i64,
    likes: i64,
)
    requires
        s.wf(),
    ensures
        subscriber_points(
            after_poll(
                after_reset(s.metrics(), true),
                viewers,
                likes,
                s.metrics().initial_subscribers,
            ),
            s.config(),
        ) == 0,
{
    let m2 = after_poll(
        after_reset(s.metrics(), true),
        viewers,
        likes,
        s.metrics().initial_subscribers,
    );
    vstd::arithmetic::div_mod::lemma_basic_div(0, s.config().subscriber_rate as int);
    assert(m2.current_subscribers - m2.initial_subscribers == 0);
}

} // verus!
