//! The text exposition format: the line-oriented serialization of the
//! registry that standard scrapers consume, `# HELP` / `# TYPE` blocks
//! followed by one sample per line. Families stand in name order, so the
//! latency histogram family comes before the order counter. The whole
//! rendering is specified character for character by `render`.

use crate::telemetry::{MetricsRegistry, OpHistogram};
use crate::text::{
    contains_seq, dec_of, lemma_contains_concat_left, lemma_contains_concat_right,
    lemma_contains_exact, lemma_dec_of_nonempty, u128_to_string, u64_to_string,
};
use vstd::prelude::*;
use vstd::string::*;

verus! {

/// The label pair naming an operation, as it stands inside a sample line.
pub open spec fn label_text(name: Seq<char>) -> Seq<char> {
    "operation=\""@ + name + "\""@
}

/// The upper-bound label value of each finite bucket, in seconds.
pub open spec fn bucket_le(i: int) -> Seq<char> {
    if i == 0 {
        "1e-05"@
    } else if i == 1 {
        "0.0001"@
    } else if i == 2 {
        "0.001"@
    } else if i == 3 {
        "0.01"@
    } else {
        "0.1"@
    }
}

/// Six decimal digits: the microsecond fraction of a duration in seconds.
pub open spec fn frac6(f: nat) -> Seq<char> {
    let d = dec_of(f + 1000000);
    d.subrange(1, d.len() as int)
}

/// A microsecond total written as seconds, with the full six-digit fraction.
pub open spec fn sum_seconds_text(sum_us: nat) -> Seq<char> {
    dec_of(sum_us / 1000000) + "."@ + frac6(sum_us % 1000000)
}

/// One cumulative bucket sample line.
pub open spec fn bucket_line(name: Seq<char>, le: Seq<char>, n: nat) -> Seq<char> {
    "latency_seconds_bucket{"@ + label_text(name) + ",le=\""@ + le + "\"} "@ + dec_of(n) + "\n"@
}

/// The sum sample line of one labelled histogram.
pub open spec fn sum_line(name: Seq<char>, sum_us: nat) -> Seq<char> {
    "latency_seconds_sum{"@ + label_text(name) + "} "@ + sum_seconds_text(sum_us) + "\n"@
}

/// The count sample line of one labelled histogram.
pub open spec fn count_line(name: Seq<char>, n: nat) -> Seq<char> {
    "latency_seconds_count{"@ + label_text(name) + "} "@ + dec_of(n) + "\n"@
}

/// The first `i` finite bucket lines of one labelled histogram.
pub open spec fn finite_bucket_lines(h: OpHistogram, i: int) -> Seq<char>
    decreases i,
{
    if i <= 0 {
        Seq::empty()
    } else {
        finite_bucket_lines(h, i - 1) + bucket_line(h.name@, bucket_le(i - 1), h.under@[i
            - 1] as nat)
    }
}

/// All sample lines of one labelled histogram: the finite buckets, the
/// `+Inf` bucket, the sum and the count.
pub open spec fn op_block(h: OpHistogram) -> Seq<char> {
    finite_bucket_lines(h, 5) + bucket_line(h.name@, "+Inf"@, h.count as nat) + sum_line(
        h.name@,
        h.sum_us as nat,
    ) + count_line(h.name@, h.count as nat)
}

/// The sample blocks of the first `i` labelled histograms, in stored order.
pub open spec fn ops_blocks(ops: Seq<OpHistogram>, i: int) -> Seq<char>
    decreases i,
{
    if i <= 0 {
        Seq::empty()
    } else {
        ops_blocks(ops, i - 1) + op_block(ops[i - 1])
    }
}

/// The comment block heading the histogram family.
pub open spec fn hist_header() -> Seq<char> {
    "# HELP latency_seconds Operation latency\n# TYPE latency_seconds histogram\n"@
}

/// The counter family: its comment block and its single sample line.
pub open spec fn counter_block(n: nat) -> Seq<char> {
    "# HELP orders_total Total orders sent\n# TYPE orders_total counter\norders_total "@ + dec_of(
        n,
    ) + "\n"@
}

/// The whole snapshot. A family with no samples is left out, so the histogram
/// family appears once some operation has been recorded; the counter always
/// has its one sample.
pub open spec fn render(s: MetricsRegistry) -> Seq<char> {
    (if s.ops@.len() > 0 {
        hist_header() + ops_blocks(s.ops@, s.ops@.len() as int)
    } else {
        Seq::<char>::empty()
    }) + counter_block(s.orders_total as nat)
}

fn push_dec_u64(out: &mut String, n: u64)
    ensures
        final(out)@ == old(out)@ + dec_of(n as nat),
{
    let s = u64_to_string(n);
    out.append(s.as_str());
}

fn push_frac6(out: &mut String, f: u64)
    requires
        f < 1000000,
    ensures
        final(out)@ == old(out)@ + frac6(f as nat),
{
    let s = u64_to_string(f + 1000000);
    proof {
        lemma_dec_of_nonempty((f + 1000000) as nat);
    }
    let l = s.as_str().unicode_len();
    let digits = s.as_str().substring_char(1, l);
    out.append(digits);
}

fn push_sum_seconds(out: &mut String, sum_us: u128)
    ensures
        final(out)@ == old(out)@ + sum_seconds_text(sum_us as nat),
{
    let secs = u128_to_string(sum_us / 1000000);
    out.append(secs.as_str());
    out.append(".");
    push_frac6(out, (sum_us % 1000000) as u64);
    proof {
        assert(out@ =~= old(out)@ + sum_seconds_text(sum_us as nat));
    }
}

fn push_label(out: &mut String, name: &str)
    ensures
        final(out)@ == old(out)@ + label_text(name@),
{
    out.append("operation=\"");
    out.append(name);
    out.append("\"");
    proof {
        assert(out@ =~= old(out)@ + label_text(name@));
    }
}

fn le_str(i: usize) -> (r: &'static str)
    requires
        i < 5,
    ensures
        r@ == bucket_le(i as int),
{
    if i == 0 {
        "1e-05"
    } else if i == 1 {
        "0.0001"
    } else if i == 2 {
        "0.001"
    } else if i == 3 {
        "0.01"
    } else {
        "0.1"
    }
}

fn push_bucket_line(out: &mut String, name: &str, le: &str, n: u64)
    ensures
        final(out)@ == old(out)@ + bucket_line(name@, le@, n as nat),
{
    out.append("latency_seconds_bucket{");
    push_label(out, name);
    out.append(",le=\"");
    out.append(le);
    out.append("\"} ");
    push_dec_u64(out, n);
    out.append("\n");
    proof {
        assert(out@ =~= old(out)@ + bucket_line(name@, le@, n as nat));
    }
}

fn push_op_block(out: &mut String, h: &OpHistogram)
    requires
        h.wf(),
    ensures
        final(out)@ == old(out)@ + op_block(*h),
{
    let mut i: usize = 0;
    while i < 5
        invariant
            h.wf(),
            0 <= i <= 5,
            out@ == old(out)@ + finite_bucket_lines(*h, i as int),
        decreases 5 - i,
    {
        push_bucket_line(out, h.name.as_str(), le_str(i), h.under[i]);
        i = i + 1;
    }
    push_bucket_line(out, h.name.as_str(), "+Inf", h.count);
    out.append("latency_seconds_sum{");
    push_label(out, h.name.as_str());
    out.append("} ");
    push_sum_seconds(out, h.sum_us);
    out.append("\n");
    out.append("latency_seconds_count{");
    push_label(out, h.name.as_str());
    out.append("} ");
    push_dec_u64(out, h.count);
    out.append("\n");
    proof {
        assert(out@ =~= old(out)@ + op_block(*h));
    }
}

/// Encode the registry in the text exposition format.
pub fn render_text(reg: &MetricsRegistry) -> (r: String)
    requires
        reg.wf(),
    ensures
        r@ == render(*reg),
{
    let mut out = String::new();
    let n = reg.ops.len();
    if n > 0 {
        out.append("# HELP latency_seconds Operation latency\n# TYPE latency_seconds histogram\n");
        let mut i: usize = 0;
        while i < n
            invariant
                reg.wf(),
                n == reg.ops@.len(),
                0 <= i <= n,
                out@ == hist_header() + ops_blocks(reg.ops@, i as int),
            decreases n - i,
        {
            push_op_block(&mut out, &reg.ops[i]);
            i = i + 1;
        }
    }
    out.append("# HELP orders_total Total orders sent\n# TYPE orders_total counter\norders_total ");
    push_dec_u64(&mut out, reg.orders_total);
    out.append("\n");
    proof {
        assert(out@ =~= render(*reg));
    }
    out
}

/// The snapshot reads nothing of the registry but the counter and the stored
/// histograms: two registries that agree on those render the same text.
pub proof fn lemma_render_reads_metrics_only(s1: MetricsRegistry, s2: MetricsRegistry)
    requires
        s1.orders_total == s2.orders_total,
        s1.ops@ == s2.ops@,
    ensures
        render(s1) == render(s2),
{
}

proof fn lemma_op_block_names_operation(h: OpHistogram)
    requires
        h.wf(),
    ensures
        contains_seq(op_block(h), label_text(h.name@)),
{
    let needle = label_text(h.name@);
    let bl0 = bucket_line(h.name@, bucket_le(0), h.under@[0] as nat);
    assert(bl0 =~= "latency_seconds_bucket{"@ + needle + (",le=\""@ + bucket_le(0) + "\"} "@
        + dec_of(h.under@[0] as nat) + "\n"@));
    lemma_contains_exact(
        "latency_seconds_bucket{"@,
        needle,
        ",le=\""@ + bucket_le(0) + "\"} "@ + dec_of(h.under@[0] as nat) + "\n"@,
    );
    assert(contains_seq(bl0, needle));
    assert(finite_bucket_lines(h, 1) == finite_bucket_lines(h, 0) + bl0);
    lemma_contains_concat_right(finite_bucket_lines(h, 0), bl0, needle);
    lemma_contains_concat_left(
        finite_bucket_lines(h, 1),
        bucket_line(h.name@, bucket_le(1), h.under@[1] as nat),
        needle,
    );
    lemma_contains_concat_left(
        finite_bucket_lines(h, 2),
        bucket_line(h.name@, bucket_le(2), h.under@[2] as nat),
        needle,
    );
    lemma_contains_concat_left(
        finite_bucket_lines(h, 3),
        bucket_line(h.name@, bucket_le(3), h.under@[3] as nat),
        needle,
    );
    lemma_contains_concat_left(
        finite_bucket_lines(h, 4),
        bucket_line(h.name@, bucket_le(4), h.under@[4] as nat),
        needle,
    );
    lemma_contains_concat_left(
        finite_bucket_lines(h, 5),
        bucket_line(h.name@, "+Inf"@, h.count as nat),
        needle,
    );
    lemma_contains_concat_left(
        finite_bucket_lines(h, 5) + bucket_line(h.name@, "+Inf"@, h.count as nat),
        sum_line(h.name@, h.sum_us as nat),
        needle,
    );
    lemma_contains_concat_left(
        finite_bucket_lines(h, 5) + bucket_line(h.name@, "+Inf"@, h.count as nat) + sum_line(
            h.name@,
            h.sum_us as nat,
        ),
        count_line(h.name@, h.count as nat),
        needle,
    );
}

proof fn lemma_ops_blocks_contains(ops: Seq<OpHistogram>, j: int, i: int)
    requires
        0 <= j < i <= ops.len(),
        ops[j].wf(),
    ensures
        contains_seq(ops_blocks(ops, i), label_text(ops[j].name@)),
    decreases i,
{
    let needle = label_text(ops[j].name@);
    if i == j + 1 {
        lemma_op_block_names_operation(ops[j]);
        lemma_contains_concat_right(ops_blocks(ops, j), op_block(ops[j]), needle);
    } else {
        lemma_ops_blocks_contains(ops, j, i - 1);
        lemma_contains_concat_left(ops_blocks(ops, i - 1), op_block(ops[i - 1]), needle);
    }
}

/// An operation that some stored histogram carries stands in the snapshot
/// text as the label pair `operation="<name>"`. After `record_latency` of a
/// valid operation the registry carries it, so the snapshot names it.
pub proof fn lemma_exposed_if_stored(s: MetricsRegistry, name: Seq<char>)
    requires
        s.wf(),
        crate::telemetry::has_op(s.ops@, name),
    ensures
        contains_seq(render(s), label_text(name)),
{
    let j = choose|j: int| 0 <= j < s.ops@.len() && (#[trigger] s.ops@[j]).name@ == name;
    lemma_render_names_operation(s, j);
}

/// Every operation stored in the registry stands in the snapshot text as the
/// label pair `operation="<name>"`.
pub proof fn lemma_render_names_operation(s: MetricsRegistry, j: int)
    requires
        s.wf(),
        0 <= j < s.ops@.len(),
    ensures
        contains_seq(render(s), label_text(s.ops@[j].name@)),
{
    let needle = label_text(s.ops@[j].name@);
    lemma_ops_blocks_contains(s.ops@, j, s.ops@.len() as int);
    lemma_contains_concat_right(hist_header(), ops_blocks(s.ops@, s.ops@.len() as int), needle);
    lemma_contains_concat_left(
        hist_header() + ops_blocks(s.ops@, s.ops@.len() as int),
        counter_block(s.orders_total as nat),
        needle,
    );
}

} // verus!
