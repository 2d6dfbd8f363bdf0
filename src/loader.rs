//! The bookkeeping of the bulk loader. Each worker inserts a fixed number of
//! synthetic records one after another; the outcome of every insert is
//! counted and none of them stops the worker. The tallies of all workers are
//! summed once every worker has finished.
use vstd::prelude::*;
use crate::gateway::StoreError;

verus! {

/// Workers that a load runs unless told otherwise.
pub const DEFAULT_WORKERS: u64 = 100;

/// Records that each worker inserts unless told otherwise.
pub const DEFAULT_ITEMS_PER_WORKER: u64 = 1000;

/// Counts of insert outcomes, as mathematical integers.
pub struct Counts {
    pub attempted: nat,
    pub inserted: nat,
    pub conflicts: nat,
    pub unavailable: nat,
    pub other: nat,
}

/// Counts of insert outcomes.
#[derive(Clone, Copy, Debug, PartialEq, Eq, Structural)]
pub struct LoadTally {
    pub attempted: u64,
    pub inserted: u64,
    pub conflicts: u64,
    pub unavailable: u64,
    pub other: u64,
}

impl View for LoadTally {
    type V = Counts;

    open spec fn view(&self) -> Counts {
        Counts {
            attempted: self.attempted as nat,
            inserted: self.inserted as nat,
            conflicts: self.conflicts as nat,
            unavailable: self.unavailable as nat,
            other: self.other as nat,
        }
    }
}

pub open spec fn no_counts() -> Counts {
    Counts { attempted: 0, inserted: 0, conflicts: 0, unavailable: 0, other: 0 }
}

/// Every attempt ended in exactly one of the outcomes counted.
pub open spec fn counts_wf(c: Counts) -> bool {
    c.attempted == c.inserted + c.conflicts + c.unavailable + c.other
}

/// `c` with one more attempt, which ended in `outcome`.
pub open spec fn count_one(c: Counts, outcome: Result<(), StoreError>) -> Counts {
    match outcome {
        Ok(()) => Counts { attempted: c.attempted + 1, inserted: c.inserted + 1, ..c },
        Err(StoreError::Conflict) => Counts { attempted: c.attempted + 1, conflicts: c.conflicts + 1, ..c },
        Err(StoreError::Unavailable) => Counts {
            attempted: c.attempted + 1,
            unavailable: c.unavailable + 1,
            ..c
        },
        Err(StoreError::Other) => Counts { attempted: c.attempted + 1, other: c.other + 1, ..c },
    }
}

/// The counts of a sequence of outcomes.
pub open spec fn counts_of(s: Seq<Result<(), StoreError>>) -> Counts
    decreases s.len(),
{
    if s.len() == 0 {
        no_counts()
    } else {
        count_one(counts_of(s.drop_last()), s.last())
    }
}

/// Field by field sum of two counts.
pub open spec fn add_counts(a: Counts, b: Counts) -> Counts {
    Counts {
        attempted: a.attempted + b.attempted,
        inserted: a.inserted + b.inserted,
        conflicts: a.conflicts + b.conflicts,
        unavailable: a.unavailable + b.unavailable,
        other: a.other + b.other,
    }
}

/// The sum of the counts of several tallies.
pub open spec fn total_of(ts: Seq<LoadTally>) -> Counts
    decreases ts.len(),
{
    if ts.len() == 0 {
        no_counts()
    } else {
        add_counts(total_of(ts.drop_last()), ts.last()@)
    }
}

impl LoadTally {
    /// A tally of no attempts.
    pub fn new() -> (r: LoadTally)
        ensures
            r@ == no_counts(),
    {
        LoadTally { attempted: 0, inserted: 0, conflicts: 0, unavailable: 0, other: 0 }
    }

    /// Counts one more attempt, which ended in `outcome`.
    pub fn record(&mut self, outcome: Result<(), StoreError>)
        requires
            counts_wf(old(self)@),
            old(self).attempted < u64::MAX,
        ensures
            counts_wf(final(self)@),
            final(self)@ == count_one(old(self)@, outcome),
    {
        self.attempted = self.attempted + 1;
        match outcome {
            Ok(()) => self.inserted = self.inserted + 1,
            Err(StoreError::Conflict) => self.conflicts = self.conflicts + 1,
            Err(StoreError::Unavailable) => self.unavailable = self.unavailable + 1,
            Err(StoreError::Other) => self.other = self.other + 1,
        }
    }

    /// The attempts that did not insert their record.
    pub fn failed(&self) -> (r: u64)
        requires
            counts_wf(self@),
        ensures
            r == self.attempted - self.inserted,
    {
        self.attempted - self.inserted
    }

    /// Adds the counts of `other` to these.
    pub fn merge(&mut self, other: &LoadTally)
        requires
            counts_wf(old(self)@),
            counts_wf(other@),
            old(self).attempted + other.attempted <= u64::MAX,
        ensures
            counts_wf(final(self)@),
            final(self)@ == add_counts(old(self)@, other@),
    {
        self.attempted = self.attempted + other.attempted;
        self.inserted = self.inserted + other.inserted;
        self.conflicts = self.conflicts + other.conflicts;
        self.unavailable = self.unavailable + other.unavailable;
        self.other = self.other + other.other;
    }
}

/// The sum of the tallies of all workers; `None` where the number of
/// attempts does not fit in a `u64`.
pub fn summarize(tallies: &Vec<LoadTally>) -> (r: Option<LoadTally>)
    requires
        forall|i: int| 0 <= i < tallies@.len() ==> counts_wf(#[trigger] tallies@[i]@),
    ensures
        r is Some <==> total_of(tallies@).attempted <= u64::MAX,
        r is Some ==> r->0@ == total_of(tallies@) && counts_wf(r->0@),
{
    let mut total = LoadTally::new();
    let mut i: usize = 0;
    while i < tallies.len()
        invariant
            0 <= i <= tallies@.len(),
            forall|j: int| 0 <= j < tallies@.len() ==> counts_wf(#[trigger] tallies@[j]@),
            counts_wf(total@),
            total@ == total_of(tallies@.take(i as int)),
        decreases tallies@.len() - i,
    {
        assert(tallies@.take(i as int + 1).drop_last() == tallies@.take(i as int));
        if total.attempted > u64::MAX - tallies[i].attempted {
            proof {
                lemma_total_grows(tallies@, i as int + 1);
            }
            return None;
        }
        total.merge(&tallies[i]);
        i = i + 1;
    }
    assert(tallies@.take(i as int) == tallies@);
    Some(total)
}

/// The attempts summed over a prefix never exceed those of the whole.
proof fn lemma_total_grows(ts: Seq<LoadTally>, n: int)
    requires
        0 <= n <= ts.len(),
    ensures
        total_of(ts.take(n)).attempted <= total_of(ts).attempted,
    decreases ts.len() - n,
{
    if n < ts.len() {
        lemma_total_grows(ts, n + 1);
        assert(ts.take(n + 1).drop_last() == ts.take(n));
    } else {
        assert(ts.take(n) == ts);
    }
}

/// Every outcome of a sequence of inserts is counted, failures included:
/// the attempts are the length of the sequence, each ended in exactly one
/// counted outcome, and the records inserted are the successful outcomes.
pub proof fn law_every_outcome_counted(s: Seq<Result<(), StoreError>>)
    ensures
        counts_of(s).attempted == s.len(),
        counts_wf(counts_of(s)),
        counts_of(s).inserted == s.filter(|o: Result<(), StoreError>| o is Ok).len(),
    decreases s.len(),
{
    if s.len() > 0 {
        law_every_outcome_counted(s.drop_last());
        let p = |o: Result<(), StoreError>| o is Ok;
        assert(s == s.drop_last() + seq![s.last()]);
        Seq::filter_distributes_over_add(s.drop_last(), seq![s.last()], p);
        reveal_with_fuel(Seq::filter, 2);
    }
}

/// One worker of a load: it inserts `items` records in turn and counts how
/// each insert ended.
#[derive(Debug)]
pub struct Worker {
    pub items: u64,
    pub done: u64,
    pub tally: LoadTally,
}

impl Worker {
    /// The worker's tally counts exactly the inserts it has made, and it makes
    /// no more than it was given.
    pub open spec fn wf(&self) -> bool {
        &&& counts_wf(self.tally@)
        &&& self.tally.attempted == self.done
        &&& self.done <= self.items
    }

    /// A worker that is to insert `items` records.
    pub fn new(items: u64) -> (r: Worker)
        ensures
            r.wf(),
            r.items == items,
            r.done == 0,
            r.tally@ == no_counts(),
    {
        Worker { items, done: 0, tally: LoadTally::new() }
    }

    /// Whether the worker has made all its inserts.
    pub fn finished(&self) -> (r: bool)
        ensures
            r == (self.done >= self.items),
    {
        self.done >= self.items
    }

    /// Counts how the current insert ended and moves on to the next, whatever
    /// the outcome.
    pub fn record(&mut self, outcome: Result<(), StoreError>)
        requires
            old(self).wf(),
            old(self).done < old(self).items,
        ensures
            final(self).wf(),
            final(self).items == old(self).items,
            final(self).done == old(self).done + 1,
            final(self).tally@ == count_one(old(self).tally@, outcome),
    {
        self.tally.record(outcome);
        self.done = self.done + 1;
    }
}

/// The number of inserts a load of `workers` workers of `items` records each
/// attempts; `None` where it does not fit in a `u64`.
pub fn total_attempts(workers: u64, items: u64) -> (r: Option<u64>)
    ensures
        workers * items <= u64::MAX ==> r == Some((workers * items) as u64),
        workers * items > u64::MAX ==> r is None,
{
    workers.checked_mul(items)
}

} // verus!
