//! Metric registry and emission surface: a counter for orders sent and a
//! labelled latency histogram, with label-safe recording.
//!
//! Durations are integer microseconds. The histogram's fixed bucket bounds are
//! 1e-5 to 1e-1 seconds, kept here as microsecond thresholds; a bucket holds
//! the observations at or under its bound, so the counts are cumulative.

use vstd::prelude::*;
use vstd::string::*;

verus! {

/// Upper bound, in microseconds, of each finite histogram bucket. The bucket
/// schedule is fixed: 1e-5, 1e-4, 1e-3, 1e-2, 1e-1 seconds.
pub open spec fn thr(i: int) -> u64 {
    if i == 0 {
        10
    } else if i == 1 {
        100
    } else if i == 2 {
        1000
    } else if i == 3 {
        10000
    } else {
        100000
    }
}

fn thr_at(i: usize) -> (t: u64)
    requires
        i < 5,
    ensures
        t == thr(i as int),
{
    if i == 0 {
        10
    } else if i == 1 {
        100
    } else if i == 2 {
        1000
    } else if i == 3 {
        10000
    } else {
        100000
    }
}

/// A label character: ASCII alphanumeric, underscore or dot.
pub open spec fn valid_op_char(c: char) -> bool {
    let u = c as u32;
    (48 <= u && u <= 57) || (65 <= u && u <= 90) || (97 <= u && u <= 122) || u == 95 || u == 46
}

/// The label grammar for operation names: one or more characters, each
/// alphanumeric, underscore or dot. Values failing this — the empty value
/// among them — are dropped, never stored, so no forged line can reach the
/// exposition text.
pub open spec fn valid_operation(s: Seq<char>) -> bool {
    &&& s.len() >= 1
    &&& forall|i: int| 0 <= i < s.len() ==> valid_op_char(#[trigger] s[i])
}

fn is_valid_op_char(c: char) -> (r: bool)
    ensures
        r == valid_op_char(c),
{
    let u = c as u32;
    (48 <= u && u <= 57) || (65 <= u && u <= 90) || (97 <= u && u <= 122) || u == 95 || u == 46
}

/// Whether an operation name is within the label grammar; what falls outside
/// it, `record_latency` drops. Callers that owe a diagnostic for a dropped
/// value test here first.
pub fn is_valid_operation(operation: &str) -> (r: bool)
    ensures
        r == valid_operation(operation@),
{
    let len = operation.unicode_len();
    if len == 0 {
        return false;
    }
    let mut i: usize = 0;
    while i < len
        invariant
            len == operation@.len(),
            0 <= i <= len,
            forall|j: int| 0 <= j < i ==> valid_op_char(#[trigger] operation@[j]),
        decreases len - i,
    {
        if !is_valid_op_char(operation.get_char(i)) {
            return false;
        }
        i = i + 1;
    }
    true
}

/// Increment that stops at the top of the counter's range instead of failing:
/// instrumentation never fails its caller.
pub open spec fn sat_inc(x: u64) -> u64 {
    if x == u64::MAX {
        u64::MAX
    } else {
        (x + 1) as u64
    }
}

/// Latency distribution for one operation label.
pub struct OpHistogram {
    /// The operation label; always a valid label.
    pub name: String,
    /// Cumulative counts: `under[i]` observations were at or under `thr(i)`.
    pub under: Vec<u64>,
    /// Total observations; the count of the `+Inf` bucket.
    pub count: u64,
    /// Total of the observed durations, in microseconds.
    pub sum_us: u128,
}

impl OpHistogram {
    pub open spec fn wf(self) -> bool {
        &&& valid_operation(self.name@)
        &&& self.under@.len() == 5
        &&& (forall|i: int| 0 <= i < 4 ==> #[trigger] self.under@[i] <= self.under@[i + 1])
        &&& self.under@[4] <= self.count
        &&& self.sum_us as int <= self.count as int * (u64::MAX as int)
    }
}

/// One observation of `d` microseconds taken on a histogram: every bucket
/// whose bound is at or above `d` moves up by one, as do the count and the
/// sum. A histogram whose count has reached the top of its range is left as
/// it is, so that recording never fails its caller.
pub open spec fn observe_rel(pre: OpHistogram, post: OpHistogram, d: u64) -> bool {
    &&& post.name@ == pre.name@
    &&& post.under@.len() == pre.under@.len()
    &&& if pre.count == u64::MAX {
        post == pre
    } else {
        &&& post.count == pre.count + 1
        &&& post.sum_us == pre.sum_us + d
        &&& (forall|i: int|
            0 <= i < post.under@.len() ==> #[trigger] post.under@[i] == pre.under@[i] + (
            if d <= thr(i) {
                1int
            } else {
                0int
            }))
    }
}

/// A histogram holding exactly one observation of `d` microseconds under the
/// label `name`.
pub open spec fn fresh_hist(h: OpHistogram, name: Seq<char>, d: u64) -> bool {
    &&& h.name@ == name
    &&& h.under@.len() == 5
    &&& h.count == 1
    &&& h.sum_us == d
    &&& (forall|i: int|
        0 <= i < 5 ==> #[trigger] h.under@[i] == (
        if d <= thr(i) {
            1int
        } else {
            0int
        }))
}

/// Some stored histogram carries this label.
pub open spec fn has_op(ops: Seq<OpHistogram>, name: Seq<char>) -> bool {
    exists|i: int| 0 <= i < ops.len() && (#[trigger] ops[i]).name@ == name
}

proof fn lemma_under_le_count(h: OpHistogram, i: int)
    requires
        h.wf(),
        0 <= i < 5,
    ensures
        h.under@[i] <= h.count,
{
    assert(h.under@[0] <= h.under@[1]);
    assert(h.under@[1] <= h.under@[2]);
    assert(h.under@[2] <= h.under@[3]);
    assert(h.under@[3] <= h.under@[4]);
}

impl OpHistogram {
    /// A fresh histogram for a label, with one observation already taken.
    fn new_with(name: String, d: u64) -> (h: OpHistogram)
        requires
            valid_operation(name@),
        ensures
            h.wf(),
            fresh_hist(h, name@, d),
    {
        let mut under: Vec<u64> = Vec::new();
        let mut i: usize = 0;
        while i < 5
            invariant
                0 <= i <= 5,
                under@.len() == i,
                forall|k: int| 0 <= k < i ==> #[trigger] under@[k] == 0,
            decreases 5 - i,
        {
            under.push(0);
            i = i + 1;
        }
        let mut h = OpHistogram { name, under, count: 0, sum_us: 0 };
        h.observe(d);
        h
    }

    /// Take one observation of `d` microseconds.
    fn observe(&mut self, d: u64)
        requires
            old(self).wf(),
        ensures
            final(self).wf(),
            observe_rel(*old(self), *final(self), d),
    {
        if self.count == u64::MAX {
            return ;
        }
        let mut i: usize = 0;
        while i < 5
            invariant
                old(self).wf(),
                0 <= i <= 5,
                self.name == old(self).name,
                self.count == old(self).count,
                self.sum_us == old(self).sum_us,
                self.count < u64::MAX,
                self.under@.len() == 5,
                forall|k: int| i <= k < 5 ==> #[trigger] self.under@[k] == old(self).under@[k],
                forall|k: int|
                    0 <= k < i ==> #[trigger] self.under@[k] == old(self).under@[k] + (
                    if d <= thr(k) {
                        1int
                    } else {
                        0int
                    }),
            decreases 5 - i,
        {
            if d <= thr_at(i) {
                proof {
                    lemma_under_le_count(*old(self), i as int);
                }
                let c = self.under[i];
                self.under.set(i, c + 1);
            }
            i = i + 1;
        }
        proof {
            let c0 = old(self).count as int;
            assert(old(self).sum_us as int <= c0 * (u64::MAX as int));
            assert(c0 * (u64::MAX as int) <= (u64::MAX as int - 1) * (u64::MAX as int))
                by (nonlinear_arith)
                requires
                    c0 <= u64::MAX as int - 1,
            ;
        }
        self.count = self.count + 1;
        self.sum_us = self.sum_us + (d as u128);
        proof {
            assert forall|i: int| 0 <= i < 4 implies #[trigger] self.under@[i] <= self.under@[i
                + 1] by {
                assert(thr(i) <= thr(i + 1));
                assert(old(self).under@[i] <= old(self).under@[i + 1]);
            }
            assert(self.sum_us as int <= self.count as int * (u64::MAX as int)) by (nonlinear_arith)
                requires
                    self.sum_us as int <= (self.count as int - 1) * (u64::MAX as int) + (
                    u64::MAX as int),
                    self.count >= 1,
            ;
        }
    }
}

/// The process-wide metric registry: the `orders_total` counter and the
/// `latency_seconds` histogram family, one histogram per operation label, in
/// the order the labels were first seen.
pub struct MetricsRegistry {
    /// Whether the one-shot initializer has run.
    pub initialized: bool,
    /// Times the `orders_total` counter was incremented.
    pub orders_total: u64,
    /// The labelled histograms, in first-seen order.
    pub ops: Vec<OpHistogram>,
}

/// The registry after its one-shot initializer: the same metrics, with the
/// initialized flag set.
pub open spec fn init_t(s: MetricsRegistry) -> MetricsRegistry {
    MetricsRegistry { initialized: true, ..s }
}

impl MetricsRegistry {
    pub open spec fn wf(self) -> bool {
        &&& (forall|i: int| 0 <= i < self.ops@.len() ==> (#[trigger] self.ops@[i]).wf())
        &&& (forall|i: int, j: int|
            0 <= i < j < self.ops@.len() ==> self.ops@[i].name@ != self.ops@[j].name@)
        &&& (!self.initialized ==> self.orders_total == 0 && self.ops@.len() == 0)
    }

    /// A fresh registry: nothing registered, nothing observed.
    pub fn new() -> (r: MetricsRegistry)
        ensures
            r.wf(),
            !r.initialized,
            r.orders_total == 0,
            r.ops@.len() == 0,
    {
        MetricsRegistry { initialized: false, orders_total: 0, ops: Vec::new() }
    }

    /// One-shot initialization of the metric families. Idempotent: the
    /// metrics are untouched, only the flag moves, so later calls change
    /// nothing.
    pub fn ensure_initialized(&mut self)
        requires
            old(self).wf(),
        ensures
            final(self).wf(),
            *final(self) == init_t(*old(self)),
    {
        self.initialized = true;
    }

    /// Index of the histogram carrying this label, if one does.
    fn find_op(&self, operation: &str) -> (r: Option<usize>)
        ensures
            match r {
                Some(j) => j < self.ops@.len() && self.ops@[j as int].name@ == operation@,
                None => !has_op(self.ops@, operation@),
            },
    {
        let mut i: usize = 0;
        let n = self.ops.len();
        while i < n
            invariant
                n == self.ops@.len(),
                0 <= i <= n,
                forall|k: int| 0 <= k < i ==> (#[trigger] self.ops@[k]).name@ != operation@,
            decreases n - i,
        {
            if crate::text::str_eq(self.ops[i].name.as_str(), operation) {
                return Some(i);
            }
            i = i + 1;
        }
        None
    }

    /// Emit a metric by name. The name "orders_total" increments the order
    /// counter; any other name is silently ignored, so producers stay
    /// tolerant of metric-schema evolution. The value is accepted but
    /// ignored; the shape is reserved for future gauges.
    pub fn emit_metric(&mut self, name: &str, _value: u64)
        requires
            old(self).wf(),
        ensures
            final(self).wf(),
            final(self).initialized,
            final(self).ops@ == old(self).ops@,
            name@ == "orders_total"@ ==> final(self).orders_total == sat_inc(
                old(self).orders_total,
            ),
            name@ != "orders_total"@ ==> *final(self) == init_t(*old(self)),
    {
        self.ensure_initialized();
        if crate::text::str_eq(name, "orders_total") {
            if self.orders_total < u64::MAX {
                self.orders_total = self.orders_total + 1;
            }
        }
    }

    /// Record operation latency, in microseconds, under the operation label.
    /// A label outside the grammar is dropped without recording, so no forged
    /// metric line can be injected; a valid label observes the duration on
    /// its histogram, creating it on first sight.
    pub fn record_latency(&mut self, operation: &str, duration_us: u64)
        requires
            old(self).wf(),
        ensures
            final(self).wf(),
            final(self).initialized,
            final(self).orders_total == old(self).orders_total,
            valid_operation(operation@) ==> has_op(final(self).ops@, operation@),
            !valid_operation(operation@) ==> *final(self) == init_t(*old(self)),
            valid_operation(operation@) && !has_op(old(self).ops@, operation@) ==> {
                &&& final(self).ops@.len() == old(self).ops@.len() + 1
                &&& final(self).ops@.subrange(0, old(self).ops@.len() as int) == old(self).ops@
                &&& fresh_hist(
                    final(self).ops@[old(self).ops@.len() as int],
                    operation@,
                    duration_us,
                )
            },
            valid_operation(operation@) && has_op(old(self).ops@, operation@) ==> (exists|j: int|
                {
                    &&& 0 <= j < old(self).ops@.len()
                    &&& (#[trigger] old(self).ops@[j]).name@ == operation@
                    &&& final(self).ops@ == old(self).ops@.update(j, final(self).ops@[j])
                    &&& observe_rel(old(self).ops@[j], final(self).ops@[j], duration_us)
                }),
    {
        if !is_valid_operation(operation) {
            self.ensure_initialized();
            return ;
        }
        self.ensure_initialized();
        match self.find_op(operation) {
            Some(j) => {
                let mut h = self.ops.remove(j);
                h.observe(duration_us);
                self.ops.insert(j, h);
                proof {
                    assert(old(self).ops@[j as int].name@ == operation@);
                    assert(self.ops@ =~= old(self).ops@.update(j as int, self.ops@[j as int]));
                    assert((self.ops@[j as int]).name@ == operation@);
                }
            },
            None => {
                let h = OpHistogram::new_with(operation.to_owned(), duration_us);
                self.ops.push(h);
                proof {
                    assert(self.ops@.subrange(0, old(self).ops@.len() as int) =~= old(self).ops@);
                    assert((self.ops@[old(self).ops@.len() as int]).name@ == operation@);
                }
            },
        }
    }

    /// Gather all registered families and encode them in the text exposition
    /// format. Never fails observably.
    pub fn snapshot(&self) -> (r: String)
        requires
            self.wf(),
        ensures
            r@ == crate::expose::render(*self),
    {
        crate::expose::render_text(self)
    }

    /// Get the metrics snapshot: delegates to the registry's encoder.
    pub fn get_metrics(&mut self) -> (r: String)
        requires
            old(self).wf(),
        ensures
            final(self).wf(),
            *final(self) == init_t(*old(self)),
            r@ == crate::expose::render(*final(self)),
            r@ == crate::expose::render(*old(self)),
    {
        self.ensure_initialized();
        self.snapshot()
    }
}

/// The one-shot initializer called any number of times has the effect of one
/// call: initializing an initialized registry moves nothing.
pub proof fn lemma_initialize_once_is_enough(s: MetricsRegistry)
    ensures
        init_t(init_t(s)) == init_t(s),
{
}

/// The order counter never goes down: an increment, saturating or not, leaves
/// it at or above where it stood.
pub proof fn lemma_counter_monotone(x: u64)
    ensures
        sat_inc(x) >= x,
{
}

/// No operation value outside the label grammar is ever stored: every stored
/// label is valid, and an invalid one leaves the registry untouched (see
/// `record_latency`), so it cannot reach the exposition text.
pub proof fn lemma_no_invalid_label_stored(s: MetricsRegistry, j: int)
    requires
        s.wf(),
        0 <= j < s.ops@.len(),
    ensures
        valid_operation(s.ops@[j].name@),
{
}

/// A latency of zero microseconds records into the lowest bucket: its
/// cumulative count moves up by one, and with it — the buckets being
/// cumulative — every larger bucket and the count, while the sum stays where
/// it was.
pub proof fn lemma_zero_latency_in_lowest_bucket(pre: OpHistogram, post: OpHistogram)
    requires
        pre.wf(),
        pre.count < u64::MAX,
        observe_rel(pre, post, 0),
    ensures
        post.under@[0] == pre.under@[0] + 1,
        forall|i: int| 0 <= i < 5 ==> #[trigger] post.under@[i] == pre.under@[i] + 1,
        post.count == pre.count + 1,
        post.sum_us == pre.sum_us,
{
}

/// A latency above 100 milliseconds records into `+Inf` only: the count moves
/// up by one, the sum by the duration, and every finite bucket stays as it
/// was.
pub proof fn lemma_long_latency_in_inf_only(pre: OpHistogram, post: OpHistogram, d: u64)
    requires
        pre.wf(),
        pre.count < u64::MAX,
        d > 100000,
        observe_rel(pre, post, d),
    ensures
        post.under@ == pre.under@,
        post.count == pre.count + 1,
        post.sum_us == pre.sum_us + d,
{
    assert(post.under@ =~= pre.under@);
}

} // verus!
