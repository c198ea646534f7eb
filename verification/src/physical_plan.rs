//! The shape of a physical plan, as far as its table scans go.
use vstd::prelude::*;

verus! {

/// A scan of a table, reading from `source`.
pub struct TableScan<S> {
    pub source: S,
}

/// A physical plan: a table scan, or another operator over its inputs in the order in which a
/// traversal visits them.
pub enum PhysicalPlan<S> {
    TableScan(TableScan<S>),
    Operator(Vec<PhysicalPlan<S>>),
}

/// The sources of the table scans of `plan`, in the order in which a traversal meets them.
pub open spec fn read_sources<S>(plan: PhysicalPlan<S>) -> Seq<S>
    decreases plan,
{
    match plan {
        PhysicalPlan::TableScan(scan) => seq![scan.source],
        PhysicalPlan::Operator(inputs) => all_read_sources(inputs@),
    }
}

/// The sources of the table scans of several plans, one plan after the other.
pub open spec fn all_read_sources<S>(plans: Seq<PhysicalPlan<S>>) -> Seq<S>
    decreases plans,
{
    if plans.len() == 0 {
        Seq::empty()
    } else {
        all_read_sources(plans.drop_last()) + read_sources(plans.last())
    }
}

/// The number of table scans in `plan`.
pub open spec fn num_scans<S>(plan: PhysicalPlan<S>) -> nat
    decreases plan,
{
    match plan {
        PhysicalPlan::TableScan(_) => 1,
        PhysicalPlan::Operator(inputs) => num_scans_of(inputs@),
    }
}

/// The number of table scans in several plans.
pub open spec fn num_scans_of<S>(plans: Seq<PhysicalPlan<S>>) -> nat
    decreases plans,
{
    if plans.len() == 0 {
        0
    } else {
        num_scans_of(plans.drop_last()) + num_scans(plans.last())
    }
}

/// `scan` stands somewhere in `plan`, at whatever depth.
pub open spec fn has_scan<S>(plan: PhysicalPlan<S>, scan: TableScan<S>) -> bool
    decreases plan,
{
    match plan {
        PhysicalPlan::TableScan(here) => here == scan,
        PhysicalPlan::Operator(inputs) => exists|i: int|
            0 <= i < inputs@.len() && has_scan(#[trigger] inputs@[i], scan),
    }
}

/// A table scan reads its source and nothing else, whatever the source.
pub proof fn lemma_sources_of_scan<S>(scan: TableScan<S>)
    ensures
        read_sources(PhysicalPlan::TableScan(scan)) == seq![scan.source],
{
}

/// An operator reads what its inputs read, one input after the other, whatever the inputs are and
/// however many.
pub proof fn lemma_sources_of_operator<S>(inputs: Vec<PhysicalPlan<S>>)
    ensures
        read_sources(PhysicalPlan::Operator(inputs)) == inputs@.map_values(
            |input: PhysicalPlan<S>| read_sources(input),
        ).flatten(),
        inputs@.len() == 0 ==> read_sources(PhysicalPlan::Operator(inputs)) == Seq::<S>::empty(),
        inputs@.len() == 1 ==> read_sources(PhysicalPlan::Operator(inputs)) == read_sources(
            inputs@[0],
        ),
{
    lemma_all_sources_flatten(inputs@);
    reveal_with_fuel(all_read_sources, 2);
    if inputs@.len() == 1 {
        assert(all_read_sources(inputs@.drop_last()) =~= Seq::empty());
        assert(read_sources(PhysicalPlan::Operator(inputs)) =~= read_sources(inputs@[0]));
    }
}

proof fn lemma_all_sources_flatten<S>(plans: Seq<PhysicalPlan<S>>)
    ensures
        all_read_sources(plans) == plans.map_values(
            |plan: PhysicalPlan<S>| read_sources(plan),
        ).flatten(),
    decreases plans.len(),
{
    let sources = plans.map_values(|plan: PhysicalPlan<S>| read_sources(plan));
    sources.lemma_flatten_and_flatten_alt_are_equivalent();
    if plans.len() > 0 {
        lemma_all_sources_flatten(plans.drop_last());
        let before = plans.drop_last().map_values(|plan: PhysicalPlan<S>| read_sources(plan));
        before.lemma_flatten_and_flatten_alt_are_equivalent();
        assert(sources.drop_last() =~= before);
    }
}

/// Putting operators side by side puts their sources side by side: an operator over the inputs of
/// two others reads what the first reads, and after it what the second reads.
pub proof fn lemma_sources_of_joined_inputs<S>(
    joined: Vec<PhysicalPlan<S>>,
    left: Vec<PhysicalPlan<S>>,
    right: Vec<PhysicalPlan<S>>,
)
    requires
        joined@ == left@ + right@,
    ensures
        read_sources(PhysicalPlan::Operator(joined)) == read_sources(PhysicalPlan::Operator(left))
            + read_sources(PhysicalPlan::Operator(right)),
{
    lemma_all_sources_join(left@, right@);
}

proof fn lemma_all_sources_join<S>(left: Seq<PhysicalPlan<S>>, right: Seq<PhysicalPlan<S>>)
    ensures
        all_read_sources(left + right) == all_read_sources(left) + all_read_sources(right),
    decreases right.len(),
{
    if right.len() == 0 {
        assert(left + right =~= left);
        assert(all_read_sources(left) + all_read_sources(right) =~= all_read_sources(left));
    } else {
        lemma_all_sources_join(left, right.drop_last());
        assert((left + right).drop_last() =~= left + right.drop_last());
        assert((left + right).last() == right.last());
        assert(all_read_sources(left + right) =~= all_read_sources(left) + all_read_sources(right));
    }
}

/// Each table scan of a plan is read exactly once: there are as many sources as table scans.
pub proof fn lemma_one_source_per_scan<S>(plan: PhysicalPlan<S>)
    ensures
        read_sources(plan).len() == num_scans(plan),
    decreases plan,
{
    if let PhysicalPlan::Operator(inputs) = plan {
        assert(decreases_to!(plan => inputs@));
        lemma_one_source_per_scan_of(inputs@);
    }
}

proof fn lemma_one_source_per_scan_of<S>(plans: Seq<PhysicalPlan<S>>)
    ensures
        all_read_sources(plans).len() == num_scans_of(plans),
    decreases plans,
{
    if plans.len() > 0 {
        lemma_one_source_per_scan_of(plans.drop_last());
        lemma_one_source_per_scan(plans.last());
    }
}

/// A table scan is read wherever it stands in the plan, and nothing is read but what a table scan
/// of the plan reads.
pub proof fn lemma_sources_are_of_scans<S>(plan: PhysicalPlan<S>, source: S)
    ensures
        read_sources(plan).contains(source) <==> has_scan(plan, TableScan { source }),
    decreases plan,
{
    match plan {
        PhysicalPlan::TableScan(scan) => {
            assert(read_sources(plan)[0] == scan.source);
        },
        PhysicalPlan::Operator(inputs) => {
            assert forall|i: int| 0 <= i < inputs@.len() implies read_sources(
                #[trigger] inputs@[i],
            ).contains(source) == has_scan(inputs@[i], TableScan { source }) by {
                assert(decreases_to!(plan => plan->Operator_0@[i]));
                lemma_sources_are_of_scans(inputs@[i], source);
            }
            lemma_source_of_some_plan(inputs@, source);
        },
    }
}

proof fn lemma_source_of_some_plan<S>(plans: Seq<PhysicalPlan<S>>, source: S)
    ensures
        all_read_sources(plans).contains(source) <==> exists|i: int|
            0 <= i < plans.len() && read_sources(#[trigger] plans[i]).contains(source),
    decreases plans.len(),
{
    if plans.len() > 0 {
        let before = plans.drop_last();
        lemma_source_of_some_plan(before, source);
        let first = all_read_sources(before);
        let last = read_sources(plans.last());
        let all = all_read_sources(plans);
        assert(all == first + last);
        if all.contains(source) {
            let k = choose|k: int| 0 <= k < all.len() && all[k] == source;
            if k < first.len() {
                assert(first[k] == source);
                let i = choose|i: int|
                    0 <= i < before.len() && read_sources(#[trigger] before[i]).contains(source);
                assert(read_sources(plans[i]).contains(source));
            } else {
                assert(last[k - first.len()] == source);
                assert(read_sources(plans[plans.len() - 1]).contains(source));
            }
        }
        if exists|i: int|
            0 <= i < plans.len() && read_sources(#[trigger] plans[i]).contains(source) {
            let i = choose|i: int|
                0 <= i < plans.len() && read_sources(#[trigger] plans[i]).contains(source);
            if i < before.len() {
                assert(read_sources(before[i]).contains(source));
                let k = choose|k: int| 0 <= k < first.len() && first[k] == source;
                assert(all[k] == source);
            } else {
                let k = choose|k: int| 0 <= k < last.len() && last[k] == source;
                assert(all[first.len() + k] == source);
            }
        }
    }
}

impl<S> PhysicalPlan<S> {
    /// Walks the plan and hands the source of each table scan to the end of `sources`.
    pub fn collect_read_sources(self, sources: &mut Vec<S>)
        ensures
            final(sources)@ == old(sources)@ + read_sources(self),
        decreases self,
    {
        match self {
            PhysicalPlan::TableScan(scan) => {
                sources.push(scan.source);
                assert(sources@ =~= old(sources)@ + read_sources(self));
            },
            PhysicalPlan::Operator(inputs) => {
                let ghost all = inputs@;
                let mut rest = inputs;
                let ghost mut done: int = 0;
                assert(all.take(0) =~= Seq::empty());
                assert(sources@ =~= old(sources)@ + all_read_sources(all.take(0)));
                while rest.len() > 0
                    invariant
                        0 <= done <= all.len(),
                        self == PhysicalPlan::Operator(inputs),
                        inputs@ == all,
                        rest@ == all.skip(done),
                        sources@ == old(sources)@ + all_read_sources(all.take(done)),
                    decreases rest.len(),
                {
                    let input = rest.remove(0);
                    assert(input == all[done]);
                    assert(decreases_to!(self => self->Operator_0@[done]));
                    input.collect_read_sources(sources);
                    proof {
                        assert(all.take(done + 1).drop_last() =~= all.take(done));
                        assert(all.skip(done).remove(0) =~= all.skip(done + 1));
                        done = done + 1;
                    }
                }
                assert(all.take(done) =~= all);
            },
        }
    }
}

} // verus!
