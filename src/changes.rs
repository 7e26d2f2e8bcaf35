use vstd::prelude::*;

use crate::table::Table;
use crate::variable::Variable;

verus! {

/// The value last published for the variable with id `k`. Values are kept as 64-bit patterns,
/// compared bit for bit; the pattern 0 stands for zero, which is the value of every variable
/// until a change is published.
pub open spec fn published_value(published: Map<usize, u64>, k: usize) -> u64 {
    if published.contains_key(k) {
        published[k]
    } else {
        0
    }
}

/// Publishing the current values `current` against the values `published`, in order: each
/// entry whose value differs from the value published for its variable so far is reported,
/// and becomes the published value. The result is the new published values and the report.
pub open spec fn publish_spec(published: Map<usize, u64>, current: Seq<(Variable, u64)>) -> (
    Map<usize, u64>,
    Seq<(Variable, u64)>,
)
    decreases current.len(),
{
    if current.len() == 0 {
        (published, Seq::empty())
    } else {
        let (before, report) = publish_spec(published, current.drop_last());
        let e = current.last();
        if published_value(before, e.0@) != e.1 {
            (before.insert(e.0@, e.1), report.push(e))
        } else {
            (before, report)
        }
    }
}

/// No variable occurs twice in `current`.
pub open spec fn distinct_variables(current: Seq<(Variable, u64)>) -> bool {
    forall|i: int, j: int|
        0 <= i < j < current.len() ==> #[trigger] current[i].0 != #[trigger] current[j].0
}

/// Every entry of `current` holds the value published for its variable.
pub open spec fn agrees_with(published: Map<usize, u64>, current: Seq<(Variable, u64)>) -> bool {
    forall|i: int|
        0 <= i < current.len() ==> published_value(published, #[trigger] current[i].0@)
            == current[i].1
}

/// The values published to the caller, and the changes since the last drain.
///
/// The solver hands the current value of each variable to `publish`, which reports those that
/// moved since they were last published.
pub struct ChangeLog {
    published: Table<u64>,
}

impl ChangeLog {
    /// The published values, by variable id.
    pub closed spec fn view(&self) -> Map<usize, u64> {
        self.published.view()
    }

    pub closed spec fn wf(&self) -> bool {
        self.published.wf()
    }

    /// A log in which no change has been published: every variable stands at zero.
    pub fn new() -> (r: ChangeLog)
        ensures
            r.wf(),
            r.view() == Map::<usize, u64>::empty(),
    {
        ChangeLog { published: Table::new() }
    }

    /// The value last published for `v`.
    pub fn value_of(&self, v: Variable) -> (r: u64)
        requires
            self.wf(),
        ensures
            r == published_value(self.view(), v@),
    {
        match self.published.get(v.id()) {
            Some(bits) => bits,
            None => 0,
        }
    }

    /// Publishes the current values `current` and returns the changes, as `publish_spec` says:
    /// each variable whose value differs from the one last published, with its new value.
    pub fn publish(&mut self, current: &Vec<(Variable, u64)>) -> (r: Vec<(Variable, u64)>)
        requires
            old(self).wf(),
        ensures
            final(self).wf(),
            (final(self).view(), r@) == publish_spec(old(self).view(), current@),
    {
        let mut report: Vec<(Variable, u64)> = Vec::new();
        let mut i: usize = 0;
        while i < current.len()
            invariant
                self.wf(),
                i <= current@.len(),
                (self.view(), report@) == publish_spec(old(self).view(), current@.take(i as int)),
            decreases current@.len() - i,
        {
            let (v, bits) = current[i];
            proof {
                assert(current@.take(i + 1).drop_last() =~= current@.take(i as int));
            }
            if self.value_of(v) != bits {
                self.published.set(v.id(), bits);
                report.push((v, bits));
            }
            i = i + 1;
        }
        proof {
            assert(current@.take(current@.len() as int) =~= current@);
        }
        report
    }
}

/// Publishing values that agree with what was published changes nothing and reports nothing.
pub proof fn lemma_publish_agreeing(published: Map<usize, u64>, current: Seq<(Variable, u64)>)
    requires
        agrees_with(published, current),
    ensures
        publish_spec(published, current) == (published, Seq::<(Variable, u64)>::empty()),
    decreases current.len(),
{
    if current.len() > 0 {
        let rest = current.drop_last();
        assert forall|i: int| 0 <= i < rest.len() implies published_value(
            published,
            #[trigger] rest[i].0@,
        ) == rest[i].1 by {
            assert(rest[i] == current[i]);
        }
        lemma_publish_agreeing(published, rest);
        assert(published_value(published, current[current.len() - 1].0@) == current.last().1);
    }
}

/// After publishing values with distinct variables, the published values agree with them.
pub proof fn lemma_publish_records(published: Map<usize, u64>, current: Seq<(Variable, u64)>)
    requires
        distinct_variables(current),
    ensures
        agrees_with(publish_spec(published, current).0, current),
    decreases current.len(),
{
    if current.len() > 0 {
        let rest = current.drop_last();
        let e = current.last();
        let before = publish_spec(published, rest).0;
        assert(distinct_variables(rest)) by {
            assert forall|i: int, j: int| 0 <= i < j < rest.len() implies #[trigger] rest[i].0
                != #[trigger] rest[j].0 by {
                assert(current[i].0 != current[j].0);
            }
        }
        lemma_publish_records(published, rest);
        let after = publish_spec(published, current).0;
        assert forall|i: int| 0 <= i < current.len() implies published_value(
            after,
            #[trigger] current[i].0@,
        ) == current[i].1 by {
            if i < current.len() - 1 {
                assert(rest[i] == current[i]);
                assert(current[i].0 != current[current.len() - 1].0);
                assert(published_value(before, rest[i].0@) == rest[i].1);
            }
        }
    }
}

/// Draining twice with no change in between: the second drain reports nothing, and leaves
/// the published values as the first left them.
pub proof fn lemma_drain_idempotent(published: Map<usize, u64>, current: Seq<(Variable, u64)>)
    requires
        distinct_variables(current),
    ensures
        publish_spec(publish_spec(published, current).0, current).1.len() == 0,
        publish_spec(publish_spec(published, current).0, current).0 == publish_spec(
            published,
            current,
        ).0,
{
    lemma_publish_records(published, current);
    lemma_publish_agreeing(publish_spec(published, current).0, current);
}

/// Where no value other than zero was ever published and every variable stands at zero, a
/// drain reports nothing.
pub proof fn lemma_zero_values_report_nothing(
    published: Map<usize, u64>,
    current: Seq<(Variable, u64)>,
)
    requires
        forall|k: usize| #[trigger] published.contains_key(k) ==> published[k] == 0,
        forall|i: int| 0 <= i < current.len() ==> #[trigger] current[i].1 == 0,
    ensures
        publish_spec(published, current).1.len() == 0,
{
    assert forall|i: int| 0 <= i < current.len() implies published_value(
        published,
        #[trigger] current[i].0@,
    ) == current[i].1 by {
        assert(current[i].1 == 0);
    }
    lemma_publish_agreeing(published, current);
}

} // verus!
