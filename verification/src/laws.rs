use vstd::prelude::*;
use vstd::seq_lib::lemma_fold_left_permutation;
use crate::model::Event;
use crate::model::ProgressView;
use crate::model::capped_sum;
use crate::model::interleaves;
use crate::model::plus;
use crate::model::sum;
use crate::model::sum_of_all;
use crate::model::writes;

verus! {

/// Two additions capped one after the other give the capped sum of all three.
proof fn lemma_capped_sum_twice(size: u64, m: nat, n: nat)
    ensures
        capped_sum(capped_sum(size, m), n) == capped_sum(size, m + n),
{
}

/// The writes of a sequence without its last entry are the writes of the
/// sequence without the last write.
proof fn lemma_writes_drop_last(sizes: Seq<nat>)
    requires
        sizes.len() > 0,
    ensures
        writes(sizes).drop_last() == writes(sizes.drop_last()),
        writes(sizes).last() == Event::Write(sizes.last()),
{
    assert(writes(sizes).drop_last() =~= writes(sizes.drop_last()));
}

/// Tasks that have made no write have written nothing.
proof fn lemma_sum_of_idle_tasks(tasks: Seq<Seq<nat>>)
    requires
        forall|i: int| 0 <= i < tasks.len() ==> (#[trigger] tasks[i]).len() == 0,
    ensures
        sum_of_all(tasks) == 0,
    decreases tasks.len(),
{
    if tasks.len() > 0 {
        lemma_sum_of_idle_tasks(tasks.drop_last());
        assert(tasks.last() == tasks[tasks.len() - 1]);
    }
}

/// Replacing the writes of one task changes the sum of all by the
/// difference of the two sums.
proof fn lemma_sum_of_all_update(tasks: Seq<Seq<nat>>, i: int, writes: Seq<nat>)
    requires
        0 <= i < tasks.len(),
    ensures
        sum_of_all(tasks.update(i, writes)) + sum(tasks[i]) == sum_of_all(tasks) + sum(writes),
    decreases tasks.len(),
{
    let updated = tasks.update(i, writes);
    if i == tasks.len() - 1 {
        assert(updated.drop_last() =~= tasks.drop_last());
    } else {
        lemma_sum_of_all_update(tasks.drop_last(), i, writes);
        assert(updated.drop_last() =~= tasks.drop_last().update(i, writes));
    }
}

/// No operation lowers the size, withdraws a cancellation or changes the
/// label.
pub proof fn law_step_only_moves_forward(s: ProgressView, event: Event)
    ensures
        s.size <= s.step(event).size,
        s.canceled ==> s.step(event).canceled,
        s.step(event).name == s.name,
{
}

/// The label that a stream was wrapped under stays, whatever is done.
pub proof fn law_label_never_changes(s: ProgressView, trace: Seq<Event>)
    ensures
        s.run(trace).name == s.name,
    decreases trace.len(),
{
    if trace.len() > 0 {
        law_label_never_changes(s, trace.drop_last());
    }
}

/// The size never decreases: after any further operations it is at least
/// what it was after the operations before them. So of two snapshots, the
/// later never shows the smaller size.
pub proof fn law_size_never_decreases(s: ProgressView, before: Seq<Event>, after: Seq<Event>)
    ensures
        s.run(before).size <= s.run(before + after).size,
    decreases after.len(),
{
    if after.len() == 0 {
        assert(before + after =~= before);
    } else {
        law_size_never_decreases(s, before, after.drop_last());
        assert((before + after).drop_last() =~= before + after.drop_last());
        assert((before + after).last() == after.last());
    }
}

/// After any operations the size is what it was, plus the bytes of the
/// writes that were admitted, held at the largest `u64`.
pub proof fn law_size_counts_admitted_writes(s: ProgressView, trace: Seq<Event>)
    ensures
        s.run(trace).size == capped_sum(s.size, s.gained(trace)),
    decreases trace.len(),
{
    if trace.len() > 0 {
        let before = s.run(trace.drop_last());
        law_size_counts_admitted_writes(s, trace.drop_last());
        lemma_capped_sum_twice(s.size, s.gained(trace.drop_last()), before.gain(trace.last()));
    }
}

/// After a sequence of successful writes on a stream that is not canceled,
/// the size is what it was plus the sum of their byte counts, held at the
/// largest `u64`; and the stream is still not canceled.
pub proof fn law_size_is_sum_of_writes(s: ProgressView, sizes: Seq<nat>)
    requires
        !s.canceled,
    ensures
        s.run(writes(sizes)).size == capped_sum(s.size, sum(sizes)),
        s.size + sum(sizes) <= u64::MAX ==> s.run(writes(sizes)).size == s.size + sum(sizes),
        !s.run(writes(sizes)).canceled,
    decreases sizes.len(),
{
    if sizes.len() > 0 {
        law_size_is_sum_of_writes(s, sizes.drop_last());
        lemma_writes_drop_last(sizes);
        lemma_capped_sum_twice(s.size, sum(sizes.drop_last()), sizes.last());
    }
}

/// Cancellation is terminal: whatever is done after it, the stream stays
/// canceled, admits no write, and its size stays what it was.
pub proof fn law_cancel_is_terminal(s: ProgressView, trace: Seq<Event>)
    ensures
        s.cancel().run(trace).canceled,
        !s.cancel().run(trace).admits_write(),
        s.cancel().run(trace).size == s.size,
        s.cancel().gained(trace) == 0,
    decreases trace.len(),
{
    if trace.len() > 0 {
        law_cancel_is_terminal(s, trace.drop_last());
    }
}

/// Requesting cancellation twice is the same as requesting it once,
/// whatever is done afterwards.
pub proof fn law_cancel_is_idempotent(s: ProgressView, trace: Seq<Event>)
    ensures
        s.cancel().cancel() == s.cancel(),
        s.cancel().cancel().run(trace) == s.cancel().run(trace),
        s.run(seq![Event::Cancel, Event::Cancel]) == s.run(seq![Event::Cancel]),
{
    let once = seq![Event::Cancel];
    let twice = seq![Event::Cancel, Event::Cancel];
    reveal_with_fuel(ProgressView::run, 2);
    assert(once.drop_last() =~= Seq::<Event>::empty());
    assert(twice.drop_last() =~= once);
}

/// No update is lost: however the successful writes of several tasks are
/// interleaved, they leave the size at what it was plus the sum of all their
/// byte counts, held at the largest `u64`.
pub proof fn law_no_update_is_lost(s: ProgressView, served: Seq<nat>, tasks: Seq<Seq<nat>>)
    requires
        !s.canceled,
        interleaves(served, tasks),
    ensures
        sum(served) == sum_of_all(tasks),
        s.run(writes(served)).size == capped_sum(s.size, sum_of_all(tasks)),
    decreases served.len(),
{
    if served.len() == 0 {
        lemma_sum_of_idle_tasks(tasks);
    } else {
        let i = choose|i: int|
            0 <= i < tasks.len() && (#[trigger] tasks[i]).len() > 0 && tasks[i].last()
                == served.last() && interleaves(
                served.drop_last(),
                tasks.update(i, tasks[i].drop_last()),
            );
        law_no_update_is_lost(s, served.drop_last(), tasks.update(i, tasks[i].drop_last()));
        lemma_sum_of_all_update(tasks, i, tasks[i].drop_last());
    }
    law_size_is_sum_of_writes(s, served);
}

/// The order in which writes are served does not matter: two sequences of
/// successful writes that hold the same byte counts, each as often as the
/// other, leave the same size.
pub proof fn law_write_order_is_irrelevant(s: ProgressView, a: Seq<nat>, b: Seq<nat>)
    requires
        !s.canceled,
        a.to_multiset() == b.to_multiset(),
    ensures
        sum(a) == sum(b),
        s.run(writes(a)).size == s.run(writes(b)).size,
{
    assert forall|x: nat, y: nat, v: nat| #[trigger] plus()(plus()(v, x), y) == plus()(plus()(v, y), x) by {}
    lemma_fold_left_permutation(a, b, plus(), 0nat);
    law_size_is_sum_of_writes(s, a);
    law_size_is_sum_of_writes(s, b);
}

} // verus!
