use vstd::prelude::*;
use crate::check::CheckOutcome;

verus! {

/// Whether an outcome counts as working.
pub open spec fn is_working(o: CheckOutcome) -> bool {
    o is Working
}

/// How many of `outcomes` satisfy `f`.
pub open spec fn count_where(outcomes: Seq<CheckOutcome>, f: spec_fn(CheckOutcome) -> bool) -> nat
    decreases outcomes.len(),
{
    if outcomes.len() == 0 {
        0
    } else {
        count_where(outcomes.drop_last(), f) + if f(outcomes.last()) { 1nat } else { 0nat }
    }
}

/// The number of working outcomes among `outcomes`.
pub open spec fn working_count(outcomes: Seq<CheckOutcome>) -> nat {
    count_where(outcomes, |o: CheckOutcome| is_working(o))
}

/// The number of outcomes among `outcomes` that are not working.
pub open spec fn failed_count(outcomes: Seq<CheckOutcome>) -> nat {
    count_where(outcomes, |o: CheckOutcome| !is_working(o))
}

/// The counts of a run: every finished check is recorded once, whatever its outcome.
pub struct Tally {
    completed: usize,
    working: usize,
    outcomes: Ghost<Seq<CheckOutcome>>,
}

/// The totals printed at the end of a run.
#[derive(Clone, Copy, Debug, PartialEq, Eq, Structural)]
pub struct RunSummary {
    pub total: usize,
    pub working: usize,
    pub not_working: usize,
}

impl Tally {
    /// The outcomes recorded so far, in the order they were recorded.
    pub closed spec fn history(&self) -> Seq<CheckOutcome> {
        self.outcomes@
    }

    /// The completion count.
    pub closed spec fn completed_count(&self) -> nat {
        self.completed as nat
    }

    /// The counters agree with the recorded outcomes.
    pub closed spec fn wf(&self) -> bool {
        &&& self.completed == self.outcomes@.len()
        &&& self.working == working_count(self.outcomes@)
    }

    /// A tally with nothing recorded.
    pub fn new() -> (r: Tally)
        ensures
            r.wf(),
            r.history() == Seq::<CheckOutcome>::empty(),
    {
        Tally { completed: 0, working: 0, outcomes: Ghost(Seq::empty()) }
    }

    /// Records one finished check: the completion count goes up by exactly one.
    pub fn record(&mut self, outcome: CheckOutcome)
        requires
            old(self).wf(),
            old(self).history().len() < usize::MAX,
        ensures
            final(self).wf(),
            final(self).history() == old(self).history().push(outcome),
    {
        proof {
            lemma_working_le_len(self.outcomes@);
        }
        let ghost before = self.outcomes@;
        self.outcomes = Ghost(self.outcomes@.push(outcome));
        assert(self.outcomes@.drop_last() == before);
        self.completed = self.completed + 1;
        if let CheckOutcome::Working { .. } = outcome {
            self.working = self.working + 1;
        }
    }

    /// How many checks have been recorded.
    pub fn completed(&self) -> (r: usize)
        requires
            self.wf(),
        ensures
            r == self.history().len(),
            r == self.completed_count(),
    {
        self.completed
    }

    /// How many recorded checks were working.
    pub fn working(&self) -> (r: usize)
        requires
            self.wf(),
        ensures
            r == working_count(self.history()),
    {
        self.working
    }

    /// The totals of the run so far: every recorded check, the working ones, and the rest.
    pub fn summary(&self) -> (r: RunSummary)
        requires
            self.wf(),
        ensures
            r.total == self.history().len(),
            r.working == working_count(self.history()),
            r.not_working == failed_count(self.history()),
    {
        proof {
            lemma_counts_add_up(self.outcomes@);
        }
        RunSummary {
            total: self.completed,
            working: self.working,
            not_working: self.completed - self.working,
        }
    }
}

/// The working outcomes are never more than all outcomes.
pub proof fn lemma_working_le_len(outcomes: Seq<CheckOutcome>)
    ensures
        working_count(outcomes) <= outcomes.len(),
    decreases outcomes.len(),
{
    if outcomes.len() > 0 {
        lemma_working_le_len(outcomes.drop_last());
    }
}

/// Every outcome is counted exactly once: as working or as not working.
pub proof fn lemma_counts_add_up(outcomes: Seq<CheckOutcome>)
    ensures
        working_count(outcomes) + failed_count(outcomes) == outcomes.len(),
    decreases outcomes.len(),
{
    if outcomes.len() > 0 {
        lemma_counts_add_up(outcomes.drop_last());
    }
}

/// Records the outcomes of a whole run, one per entry.
pub fn tally_all(outcomes: &Vec<CheckOutcome>) -> (r: Tally)
    ensures
        r.wf(),
        r.history() == outcomes@,
{
    let mut t = Tally::new();
    let mut i: usize = 0;
    while i < outcomes.len()
        invariant
            i <= outcomes@.len(),
            t.wf(),
            t.history() == outcomes@.take(i as int),
        decreases outcomes@.len() - i,
    {
        t.record(outcomes[i]);
        assert(outcomes@.take(i + 1) == outcomes@.take(i as int).push(outcomes@[i as int]));
        i = i + 1;
    }
    assert(outcomes@.take(outcomes@.len() as int) == outcomes@);
    t
}

/// For a run over any list of entries that records one outcome per entry, whatever each
/// outcome is, the completion count ends equal to the number of entries, and the working and
/// not-working totals of its summary add up to it.
pub proof fn lemma_every_entry_counted(entries: Seq<Seq<char>>, t: Tally)
    requires
        t.wf(),
        t.history().len() == entries.len(),
    ensures
        t.completed_count() == entries.len(),
        working_count(t.history()) + failed_count(t.history()) == entries.len(),
{
    lemma_counts_add_up(t.history());
}

/// Taking one outcome out of a list lowers a count by one where the outcome was counted.
proof fn lemma_count_remove(s: Seq<CheckOutcome>, k: int, f: spec_fn(CheckOutcome) -> bool)
    requires
        0 <= k < s.len(),
    ensures
        count_where(s, f) == count_where(s.remove(k), f) + if f(s[k]) { 1nat } else { 0nat },
    decreases s.len(),
{
    if k == s.len() - 1 {
        assert(s.remove(k) =~= s.drop_last());
    } else {
        lemma_count_remove(s.drop_last(), k, f);
        assert(s.remove(k).drop_last() =~= s.drop_last().remove(k));
        assert(s.remove(k).last() == s.last());
    }
}

/// The counts of a run do not depend on the order in which its checks finish: two lists that
/// hold the same outcomes, in any order, have the same working and not-working counts.
pub proof fn lemma_counts_ignore_order(a: Seq<CheckOutcome>, b: Seq<CheckOutcome>)
    requires
        a.to_multiset() == b.to_multiset(),
    ensures
        working_count(a) == working_count(b),
        failed_count(a) == failed_count(b),
    decreases a.len(),
{
    broadcast use vstd::seq_lib::group_to_multiset_ensures;
    if a.len() == 0 {
        assert(a.to_multiset().len() == 0);
        assert(b.to_multiset().len() == b.len());
    } else {
        let x = a.last();
        assert(a.drop_last().push(x) =~= a);
        assert(a.to_multiset().count(x) > 0);
        assert(b.contains(x));
        let k = choose|k: int| 0 <= k < b.len() && b[k] == x;
        assert(b.remove(k).to_multiset() =~= b.to_multiset().remove(x));
        assert(a.drop_last().to_multiset() =~= a.to_multiset().remove(x));
        lemma_counts_ignore_order(a.drop_last(), b.remove(k));
        lemma_count_remove(b, k, |o: CheckOutcome| is_working(o));
        lemma_count_remove(b, k, |o: CheckOutcome| !is_working(o));
    }
}

} // verus!
