use vstd::prelude::*;
use crate::item::ItemView;

verus! {

/// The counters of one stream, as a mathematical value.
pub struct ProgressView {
    /// The label chosen when the stream was wrapped.
    pub name: Seq<char>,
    /// The expected final size; advisory only.
    pub total: u64,
    /// The bytes that writes have delivered so far.
    pub size: u64,
    /// Whether cancellation has been requested.
    pub canceled: bool,
}

/// One operation on a stream, as far as its counters can tell.
pub enum Event {
    /// The expected size is set.
    SetTotal(u64),
    /// Cancellation is requested.
    Cancel,
    /// A write is attempted. The number is how many bytes the wrapped
    /// resource accepts if the write reaches it: 0 where it is not ready or
    /// fails.
    Write(nat),
    /// A read, flush, shutdown, seek or snapshot.
    Other,
}

/// The sum `size + n`, held at the largest `u64` where it would pass it.
pub open spec fn capped_sum(size: u64, n: nat) -> u64 {
    if size + n <= u64::MAX {
        (size + n) as u64
    } else {
        u64::MAX
    }
}

impl ProgressView {
    /// The counters of a stream that has just been wrapped.
    pub open spec fn fresh(name: Seq<char>) -> ProgressView {
        ProgressView { name, total: 0, size: 0, canceled: false }
    }

    /// The counters after the expected size is set to `n`.
    pub open spec fn set_total(self, n: u64) -> ProgressView {
        ProgressView { total: n, ..self }
    }

    /// The counters after cancellation is requested.
    pub open spec fn cancel(self) -> ProgressView {
        ProgressView { canceled: true, ..self }
    }

    /// The counters after the wrapped resource has accepted `n` more bytes.
    pub open spec fn record(self, n: nat) -> ProgressView {
        ProgressView { size: capped_sum(self.size, n), ..self }
    }

    /// Whether a write is handed on to the wrapped resource.
    pub open spec fn admits_write(self) -> bool {
        !self.canceled
    }

    /// The bytes that `event` adds to `size`, before capping.
    pub open spec fn gain(self, event: Event) -> nat {
        match event {
            Event::Write(n) => if self.admits_write() { n } else { 0 },
            _ => 0,
        }
    }

    /// The counters after one operation.
    pub open spec fn step(self, event: Event) -> ProgressView {
        match event {
            Event::SetTotal(n) => self.set_total(n),
            Event::Cancel => self.cancel(),
            Event::Write(_) => self.record(self.gain(event)),
            Event::Other => self,
        }
    }

    /// The counters after the operations of `trace`, first to last.
    pub open spec fn run(self, trace: Seq<Event>) -> ProgressView
        decreases trace.len(),
    {
        if trace.len() == 0 {
            self
        } else {
            self.run(trace.drop_last()).step(trace.last())
        }
    }

    /// The bytes that the operations of `trace` add to `size`, before capping.
    pub open spec fn gained(self, trace: Seq<Event>) -> nat
        decreases trace.len(),
    {
        if trace.len() == 0 {
            0
        } else {
            self.gained(trace.drop_last()) + self.run(trace.drop_last()).gain(trace.last())
        }
    }

    /// The copy of the counters that a snapshot hands out: under `id` where
    /// one is given, under the stream's own label otherwise.
    pub open spec fn snapshot(self, id: Option<Seq<char>>) -> ItemView {
        ItemView {
            id: match id {
                Some(id) => id,
                None => self.name,
            },
            name: self.name,
            total: self.total,
            size: self.size,
            canceled: self.canceled,
        }
    }
}

/// The trace of one write per entry of `sizes`, each accepted in full by the
/// wrapped resource.
pub open spec fn writes(sizes: Seq<nat>) -> Seq<Event> {
    Seq::new(sizes.len(), |i: int| Event::Write(sizes[i]))
}

/// Addition, as the step of a fold.
pub open spec fn plus() -> spec_fn(nat, nat) -> nat {
    |acc: nat, n: nat| acc + n
}

/// The sum of `sizes`.
pub open spec fn sum(sizes: Seq<nat>) -> nat {
    sizes.fold_left(0nat, plus())
}

/// The sum of the byte counts of all `tasks`, each a sequence of writes.
pub open spec fn sum_of_all(tasks: Seq<Seq<nat>>) -> nat
    decreases tasks.len(),
{
    if tasks.len() == 0 {
        0
    } else {
        sum_of_all(tasks.drop_last()) + sum(tasks.last())
    }
}

/// Whether `served` holds the writes of all `tasks` and no others, those of
/// each task in the order in which the task made them.
pub open spec fn interleaves(served: Seq<nat>, tasks: Seq<Seq<nat>>) -> bool
    decreases served.len(),
{
    if served.len() == 0 {
        forall|i: int| 0 <= i < tasks.len() ==> (#[trigger] tasks[i]).len() == 0
    } else {
        exists|i: int|
            0 <= i < tasks.len() && (#[trigger] tasks[i]).len() > 0 && tasks[i].last()
                == served.last() && interleaves(
                served.drop_last(),
                tasks.update(i, tasks[i].drop_last()),
            )
    }
}

} // verus!
