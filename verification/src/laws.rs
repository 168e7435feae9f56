//! Laws relating sequences of events to the state they produce.
//!
//! Per cell, every applied operation lands in some total order; these laws
//! say that the order does not matter for the totals: a batch of counter
//! events adds exactly its sum, a batch of relative gauge events adds
//! exactly its algebraic sum on top of the last absolute set, and an event
//! for one cell leaves every other cell untouched.

use vstd::prelude::*;
use vstd::seq_lib::{commutative_foldl, lemma_fold_left_permutation};

use crate::fixed::Fixed;
use crate::ids::MetricId;
use crate::stats::{apply_op, GaugeOp, Stats};

verus! {

/// The state after a batch of counter events for `id`, applied in order.
pub open spec fn after_increments(s: Stats, id: MetricId, deltas: Seq<u64>) -> Stats
    decreases deltas.len(),
{
    if deltas.len() == 0 {
        s
    } else {
        after_increments(s.with_counter_incremented(id, deltas[0]), id, deltas.drop_first())
    }
}

/// The sum of a batch of counter deltas.
pub open spec fn delta_total(deltas: Seq<u64>) -> int
    decreases deltas.len(),
{
    if deltas.len() == 0 {
        0
    } else {
        deltas[0] + delta_total(deltas.drop_first())
    }
}

proof fn lemma_delta_total_nonneg(deltas: Seq<u64>)
    ensures
        delta_total(deltas) >= 0,
    decreases deltas.len(),
{
    if deltas.len() > 0 {
        lemma_delta_total_nonneg(deltas.drop_first());
    }
}

/// Law: one counter event touches exactly one cell. The cell named by `id`
/// takes `v` more, wrapping around modulo 2^64; every other counter and
/// every gauge keeps its value.
#[verifier::rlimit(100)]
#[verifier::spinoff_prover]
pub proof fn lemma_increment_frame(s: Stats, id: MetricId, v: u64)
    requires
        id.is_counter(),
    ensures
        s.with_counter_incremented(id, v).counter_value(id) == s.counter_value(
            id,
        ).wrapping_add(v),
        forall|other: MetricId|
            other != id ==> s.with_counter_incremented(id, v).counter_value(other)
                == s.counter_value(other),
        forall|g: MetricId|
            s.with_counter_incremented(id, v).gauge_value(g) == s.gauge_value(g),
{
}

/// Law: no lost updates. A batch of counter events for one known cell,
/// applied in any order, leaves the cell at its old value plus the sum of
/// all deltas, as long as that sum stays in range; every other cell keeps
/// its value.
#[verifier::rlimit(100)]
#[verifier::spinoff_prover]
pub proof fn lemma_increments_accumulate(s: Stats, id: MetricId, deltas: Seq<u64>)
    requires
        id.is_counter(),
        s.counter_value(id) + delta_total(deltas) <= u64::MAX,
    ensures
        after_increments(s, id, deltas).counter_value(id) == s.counter_value(id) + delta_total(
            deltas,
        ),
        forall|other: MetricId|
            other != id ==> after_increments(s, id, deltas).counter_value(other)
                == s.counter_value(other),
        forall|g: MetricId| after_increments(s, id, deltas).gauge_value(g) == s.gauge_value(g),
    decreases deltas.len(),
{
    if deltas.len() > 0 {
        lemma_delta_total_nonneg(deltas.drop_first());
        lemma_increment_frame(s, id, deltas[0]);
        lemma_increments_accumulate(s.with_counter_incremented(id, deltas[0]), id,
            deltas.drop_first());
    }
}

proof fn lemma_delta_total_units(n: nat)
    ensures
        delta_total(Seq::new(n, |i: int| 1u64)) == n,
    decreases n,
{
    if n > 0 {
        assert(Seq::new(n, |i: int| 1u64).drop_first() =~= Seq::new(
            (n - 1) as nat,
            |i: int| 1u64,
        ));
        lemma_delta_total_units((n - 1) as nat);
    }
}

/// Law: a batch of `n` one-unit counter events for one known cell leaves
/// the cell at exactly `n` more than before, as long as the total stays in
/// range.
pub proof fn lemma_unit_increments_count(s: Stats, id: MetricId, n: nat)
    requires
        id.is_counter(),
        s.counter_value(id) + n <= u64::MAX,
    ensures
        after_increments(s, id, Seq::new(n, |i: int| 1u64)).counter_value(id) == s.counter_value(
            id,
        ) + n,
{
    lemma_delta_total_units(n);
    lemma_increments_accumulate(s, id, Seq::new(n, |i: int| 1u64));
}

proof fn lemma_delta_total_push(deltas: Seq<u64>, x: u64)
    ensures
        delta_total(deltas.push(x)) == delta_total(deltas) + x,
    decreases deltas.len(),
{
    if deltas.len() == 0 {
        assert(deltas.push(x)[0] == x);
        assert(deltas.push(x).drop_first() =~= Seq::<u64>::empty());
        assert(delta_total(Seq::<u64>::empty()) == 0);
    } else {
        assert(deltas.push(x)[0] == deltas[0]);
        assert(deltas.push(x).drop_first() =~= deltas.drop_first().push(x));
        lemma_delta_total_push(deltas.drop_first(), x);
    }
}

proof fn lemma_delta_total_is_fold(deltas: Seq<u64>)
    ensures
        delta_total(deltas) == deltas.fold_left(0int, |acc: int, d: u64| acc + d),
    decreases deltas.len(),
{
    if deltas.len() > 0 {
        lemma_delta_total_is_fold(deltas.drop_last());
        lemma_delta_total_push(deltas.drop_last(), deltas.last());
        assert(deltas.drop_last().push(deltas.last()) =~= deltas);
    }
}

/// Law: the sum of a batch does not depend on the order of its deltas.
pub proof fn lemma_delta_total_permutation(a: Seq<u64>, b: Seq<u64>)
    requires
        a.to_multiset() == b.to_multiset(),
    ensures
        delta_total(a) == delta_total(b),
{
    let f = |acc: int, d: u64| acc + d;
    assert(commutative_foldl(f)) by {
        assert(forall|x: u64, y: u64, v: int| #[trigger] f(f(v, x), y) == f(f(v, y), x));
    }
    lemma_fold_left_permutation(a, b, f, 0int);
    lemma_delta_total_is_fold(a);
    lemma_delta_total_is_fold(b);
}

/// Law: no lost updates, whatever the interleaving. Two batches of counter
/// events that hold the same deltas, in any two orders, leave the cell at
/// the same value.
pub proof fn lemma_increments_in_any_order(s: Stats, id: MetricId, a: Seq<u64>, b: Seq<u64>)
    requires
        id.is_counter(),
        a.to_multiset() == b.to_multiset(),
        s.counter_value(id) + delta_total(a) <= u64::MAX,
    ensures
        after_increments(s, id, a).counter_value(id) == after_increments(s, id, b).counter_value(
            id,
        ),
{
    lemma_delta_total_permutation(a, b);
    lemma_increments_accumulate(s, id, a);
    lemma_increments_accumulate(s, id, b);
}

/// The quantity a gauge holds after a batch of events, applied in order.
pub open spec fn after_ops(v: Fixed, ops: Seq<GaugeOp>) -> Fixed
    decreases ops.len(),
{
    if ops.len() == 0 {
        v
    } else {
        after_ops(apply_op(v, ops[0]), ops.drop_first())
    }
}

/// Whether no event in the batch is an absolute set.
pub open spec fn all_relative(ops: Seq<GaugeOp>) -> bool {
    forall|k: int| 0 <= k < ops.len() ==> !(#[trigger] ops[k] is Absolute)
}

/// The signed contribution of one gauge event, in fixed-point units.
pub open spec fn op_delta(op: GaugeOp) -> int {
    match op {
        GaugeOp::Increment(d) => d.units as int,
        GaugeOp::Decrement(d) => -(d.units as int),
        GaugeOp::Absolute(_) => 0,
    }
}

/// The algebraic sum of the relative deltas of a batch, in units.
pub open spec fn delta_sum(ops: Seq<GaugeOp>) -> int
    decreases ops.len(),
{
    if ops.len() == 0 {
        0
    } else {
        op_delta(ops[0]) + delta_sum(ops.drop_first())
    }
}

/// Law: relative gauge events converge to the algebraic sum. A batch of
/// increases and decreases leaves the gauge at its old quantity plus the
/// signed sum of all deltas, as long as every running total stays in range.
pub proof fn lemma_relative_ops_accumulate(v: Fixed, ops: Seq<GaugeOp>)
    requires
        all_relative(ops),
        forall|k: int|
            0 <= k <= ops.len() ==> i64::MIN <= v.units + delta_sum(#[trigger] ops.take(k))
                <= i64::MAX,
    ensures
        after_ops(v, ops).units == v.units + delta_sum(ops),
    decreases ops.len(),
{
    if ops.len() > 0 {
        let tail = ops.drop_first();
        let v1 = apply_op(v, ops[0]);
        assert(ops.take(1).drop_first() =~= Seq::<GaugeOp>::empty());
        assert(ops.take(1)[0] == ops[0]);
        assert(delta_sum(Seq::<GaugeOp>::empty()) == 0);
        assert(delta_sum(ops.take(1)) == op_delta(ops[0]));
        assert(v1.units == v.units + op_delta(ops[0]));
        assert forall|k: int| 0 <= k <= tail.len() implies i64::MIN <= v1.units + delta_sum(
            #[trigger] tail.take(k),
        ) <= i64::MAX by {
            assert(ops.take(k + 1).drop_first() =~= tail.take(k));
            assert(delta_sum(ops.take(k + 1)) == op_delta(ops[0]) + delta_sum(tail.take(k)));
        }
        assert(all_relative(tail));
        lemma_relative_ops_accumulate(v1, tail);
        assert(ops.take(ops.len() as int) =~= ops);
    }
}

/// Law: an absolute set discards the history before it. After a set, the
/// gauge evolves exactly as if it had started at the set value.
pub proof fn lemma_absolute_resets(v: Fixed, a: Fixed, ops: Seq<GaugeOp>)
    ensures
        after_ops(v, seq![GaugeOp::Absolute(a)] + ops) == after_ops(a, ops),
{
    let s = seq![GaugeOp::Absolute(a)] + ops;
    assert(s[0] == GaugeOp::Absolute(a));
    assert(s.drop_first() =~= ops);
}

/// Law: a gauge converges to the last absolute set plus the algebraic sum
/// of the deltas applied after it. Whatever the gauge held before, a set
/// followed by a batch of increases and decreases leaves it at the set
/// value plus the signed sum of all deltas, as long as every running total
/// stays in range.
pub proof fn lemma_set_then_relative_ops(v: Fixed, a: Fixed, ops: Seq<GaugeOp>)
    requires
        all_relative(ops),
        forall|k: int|
            0 <= k <= ops.len() ==> i64::MIN <= a.units + delta_sum(#[trigger] ops.take(k))
                <= i64::MAX,
    ensures
        after_ops(v, seq![GaugeOp::Absolute(a)] + ops).units == a.units + delta_sum(ops),
{
    lemma_absolute_resets(v, a, ops);
    lemma_relative_ops_accumulate(a, ops);
}

proof fn lemma_delta_sum_push(ops: Seq<GaugeOp>, x: GaugeOp)
    ensures
        delta_sum(ops.push(x)) == delta_sum(ops) + op_delta(x),
    decreases ops.len(),
{
    if ops.len() == 0 {
        assert(ops.push(x)[0] == x);
        assert(ops.push(x).drop_first() =~= Seq::<GaugeOp>::empty());
        assert(delta_sum(Seq::<GaugeOp>::empty()) == 0);
    } else {
        assert(ops.push(x)[0] == ops[0]);
        assert(ops.push(x).drop_first() =~= ops.drop_first().push(x));
        lemma_delta_sum_push(ops.drop_first(), x);
    }
}

proof fn lemma_delta_sum_is_fold(ops: Seq<GaugeOp>)
    ensures
        delta_sum(ops) == ops.fold_left(0int, |acc: int, op: GaugeOp| acc + op_delta(op)),
    decreases ops.len(),
{
    if ops.len() > 0 {
        lemma_delta_sum_is_fold(ops.drop_last());
        lemma_delta_sum_push(ops.drop_last(), ops.last());
        assert(ops.drop_last().push(ops.last()) =~= ops);
    }
}

/// Law: the algebraic sum of a batch does not depend on the order of its
/// events.
pub proof fn lemma_delta_sum_permutation(a: Seq<GaugeOp>, b: Seq<GaugeOp>)
    requires
        a.to_multiset() == b.to_multiset(),
    ensures
        delta_sum(a) == delta_sum(b),
{
    let f = |acc: int, op: GaugeOp| acc + op_delta(op);
    assert(commutative_foldl(f)) by {
        assert(forall|x: GaugeOp, y: GaugeOp, v: int|
            #[trigger] f(f(v, x), y) == f(f(v, y), x));
    }
    lemma_fold_left_permutation(a, b, f, 0int);
    lemma_delta_sum_is_fold(a);
    lemma_delta_sum_is_fold(b);
}

/// Law: relative gauge events converge, whatever the interleaving. Two
/// batches of increases and decreases that hold the same events, in any two
/// orders, leave the gauge at the same quantity.
pub proof fn lemma_relative_ops_in_any_order(v: Fixed, a: Seq<GaugeOp>, b: Seq<GaugeOp>)
    requires
        all_relative(a),
        all_relative(b),
        a.to_multiset() == b.to_multiset(),
        forall|k: int|
            0 <= k <= a.len() ==> i64::MIN <= v.units + delta_sum(#[trigger] a.take(k))
                <= i64::MAX,
        forall|k: int|
            0 <= k <= b.len() ==> i64::MIN <= v.units + delta_sum(#[trigger] b.take(k))
                <= i64::MAX,
    ensures
        after_ops(v, a) == after_ops(v, b),
{
    lemma_delta_sum_permutation(a, b);
    lemma_relative_ops_accumulate(v, a);
    lemma_relative_ops_accumulate(v, b);
}

/// Law: one gauge event touches exactly one cell. The cell named by `id`
/// moves as `op` says; every other gauge and every counter keeps its value.
#[verifier::rlimit(100)]
#[verifier::spinoff_prover]
pub proof fn lemma_gauge_frame(s: Stats, id: MetricId, op: GaugeOp)
    requires
        id.is_gauge(),
    ensures
        s.with_gauge_applied(id, op).gauge_value(id) == apply_op(s.gauge_value(id), op),
        forall|other: MetricId|
            other != id ==> s.with_gauge_applied(id, op).gauge_value(other) == s.gauge_value(
                other,
            ),
        forall|c: MetricId| s.with_gauge_applied(id, op).counter_value(c) == s.counter_value(c),
{
}

/// The state after a batch of gauge events for `id`, applied in order.
pub open spec fn after_gauge_events(s: Stats, id: MetricId, ops: Seq<GaugeOp>) -> Stats
    decreases ops.len(),
{
    if ops.len() == 0 {
        s
    } else {
        after_gauge_events(s.with_gauge_applied(id, ops[0]), id, ops.drop_first())
    }
}

/// Law: a batch of gauge events for one known cell moves that cell exactly
/// as the batch says and leaves every other cell untouched.
pub proof fn lemma_gauge_events_localize(s: Stats, id: MetricId, ops: Seq<GaugeOp>)
    requires
        id.is_gauge(),
    ensures
        after_gauge_events(s, id, ops).gauge_value(id) == after_ops(s.gauge_value(id), ops),
        forall|other: MetricId|
            other != id ==> after_gauge_events(s, id, ops).gauge_value(other) == s.gauge_value(
                other,
            ),
        forall|c: MetricId|
            after_gauge_events(s, id, ops).counter_value(c) == s.counter_value(c),
    decreases ops.len(),
{
    if ops.len() > 0 {
        lemma_gauge_frame(s, id, ops[0]);
        lemma_gauge_events_localize(s.with_gauge_applied(id, ops[0]), id, ops.drop_first());
    }
}

} // verus!
