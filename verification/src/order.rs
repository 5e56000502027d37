//! The order of the report: oldest tip first, and branches of one commit time
//! in the order in which they were listed.

use crate::model::{BranchRecord, RecordView};
use vstd::prelude::*;
use vstd::seq_lib::{to_multiset_contains, to_multiset_insert, to_multiset_remove};

verus! {

/// The test for a record with commit time `time`.
pub open spec fn at_time(time: int) -> spec_fn(RecordView) -> bool {
    |record: RecordView| record.commit_time == time
}

/// No record comes before one with an earlier commit time.
pub open spec fn in_time_order(records: Seq<RecordView>) -> bool {
    forall|i: int, j: int|
        0 <= i <= j < records.len() ==> records[i].commit_time <= records[j].commit_time
}

/// `sorted` holds the records of `given` in time order, and the records of
/// any one commit time in the order that they have in `given`.
pub open spec fn is_stable_sort_of(sorted: Seq<RecordView>, given: Seq<RecordView>) -> bool {
    &&& in_time_order(sorted)
    &&& sorted.to_multiset() == given.to_multiset()
    &&& forall|time: int| #[trigger]
        sorted.filter(at_time(time)) == given.filter(at_time(time))
}

/// There is one stable sort only: two sequences in time order that hold, for
/// every commit time, the same records in the same order are the same
/// sequence.
pub proof fn lemma_stable_sort_is_unique(first: Seq<RecordView>, second: Seq<RecordView>)
    requires
        in_time_order(first),
        in_time_order(second),
        forall|time: int| #[trigger] first.filter(at_time(time)) == second.filter(at_time(time)),
    ensures
        first == second,
    decreases first.len(),
{
    reveal(Seq::filter);
    if first.len() == 0 {
        if second.len() > 0 {
            let time = second.last().commit_time;
            assert(first.filter(at_time(time)) == second.filter(at_time(time)));
        }
    } else {
        // The last record of `first` is the last of its commit time in both
        // sequences, and no record of `second` is younger: so it is the last
        // record of `second` too.
        let time = first.last().commit_time;
        let other = second.last().commit_time;
        second.lemma_filter_contains_rev(at_time(time), first.filter(at_time(time)).last());
        first.lemma_filter_contains_rev(at_time(other), second.filter(at_time(other)).last());
        assert(second.last() == first.last());
        // Without it, the two sequences still agree at every commit time.
        let shorter = first.drop_last();
        let their_shorter = second.drop_last();
        assert forall|t: int| #[trigger]
            shorter.filter(at_time(t)) == their_shorter.filter(at_time(t)) by {
            assert(first.filter(at_time(t)) == second.filter(at_time(t)));
            if t == time {
                assert(their_shorter.filter(at_time(t)) == second.filter(at_time(t)).drop_last());
            }
        }
        lemma_stable_sort_is_unique(shorter, their_shorter);
        assert(second =~= their_shorter.push(second.last()));
    }
}

/// Nothing is left of a sequence in which no element passes the test.
proof fn lemma_filter_nothing<A>(s: Seq<A>, test: spec_fn(A) -> bool)
    requires
        forall|i: int| 0 <= i < s.len() ==> !test(#[trigger] s[i]),
    ensures
        s.filter(test) == Seq::<A>::empty(),
    decreases s.len(),
{
    reveal(Seq::filter);
    if s.len() > 0 {
        lemma_filter_nothing(s.drop_last(), test);
    }
}

/// One step of the insertion: the record at `i` moves down to `k`, behind the
/// records that are not younger and before those that are.
proof fn lemma_insertion_step(
    before: Seq<RecordView>,
    after: Seq<RecordView>,
    given: Seq<RecordView>,
    i: int,
    k: int,
)
    requires
        0 <= k <= i < before.len() == given.len(),
        after == before.remove(i).insert(k, before[i]),
        in_time_order(before.take(i)),
        forall|j: int| k <= j < i ==> before[j].commit_time > before[i].commit_time,
        k > 0 ==> before[k - 1].commit_time <= before[i].commit_time,
        before.skip(i) == given.skip(i),
        before.to_multiset() == given.to_multiset(),
        forall|time: int| #[trigger]
            before.take(i).filter(at_time(time)) == given.take(i).filter(at_time(time)),
    ensures
        in_time_order(after.take(i + 1)),
        after.skip(i + 1) == given.skip(i + 1),
        after.to_multiset() == given.to_multiset(),
        forall|time: int| #[trigger]
            after.take(i + 1).filter(at_time(time)) == given.take(i + 1).filter(at_time(time)),
{
    let moved = before[i];
    let older = before.take(k);
    let younger = before.subrange(k, i);
    assert(before.skip(i)[0] == given.skip(i)[0]);
    assert(before.take(i) =~= older + younger);
    assert(after.take(i + 1) =~= older + seq![moved] + younger);
    assert(given.take(i + 1) =~= given.take(i) + seq![moved]);
    assert(after.skip(i + 1) =~= given.skip(i + 1)) by {
        assert forall|j: int| 0 <= j < before.len() - i - 1 implies #[trigger] after.skip(
            i + 1,
        )[j] == given.skip(i + 1)[j] by {
            assert(before.skip(i)[j + 1] == given.skip(i)[j + 1]);
        }
    }
    assert(in_time_order(after.take(i + 1))) by {
        let grown = after.take(i + 1);
        assert forall|a: int, b: int| 0 <= a <= b < grown.len() implies grown[a].commit_time
            <= grown[b].commit_time by {
            if a < k {
                assert(before.take(i)[k - 1] == before[k - 1]);
            }
        }
    }
    assert(after.to_multiset() == given.to_multiset()) by {
        to_multiset_remove(before, i);
        to_multiset_insert(before.remove(i), k, moved);
        to_multiset_contains(before, moved);
    }
    assert forall|time: int| #[trigger]
        after.take(i + 1).filter(at_time(time)) == given.take(i + 1).filter(
            at_time(time),
        ) by {
        let test = at_time(time);
        Seq::filter_distributes_over_add(older, younger, test);
        Seq::filter_distributes_over_add(older, seq![moved], test);
        Seq::filter_distributes_over_add(older + seq![moved], younger, test);
        Seq::filter_distributes_over_add(given.take(i), seq![moved], test);
        if moved.commit_time == time {
            lemma_filter_nothing(younger, test);
        } else {
            lemma_filter_nothing(seq![moved], test);
        }
        assert(older.filter(test) + seq![moved].filter(test) + younger.filter(test)
            =~= older.filter(test) + younger.filter(test) + seq![moved].filter(test));
    }
}

/// Sorts `records` by commit time, oldest first. Records of one commit time
/// keep the order that they came in.
pub fn sort_by_time(records: &mut Vec<BranchRecord>)
    ensures
        is_stable_sort_of(final(records).deep_view(), old(records).deep_view()),
{
    let ghost given = records.deep_view();
    let n = records.len();
    let mut i: usize = 0;
    while i < n
        invariant
            i <= n == records.len() == given.len(),
            in_time_order(records.deep_view().take(i as int)),
            records.deep_view().skip(i as int) == given.skip(i as int),
            records.deep_view().to_multiset() == given.to_multiset(),
            forall|time: int| #[trigger]
                records.deep_view().take(i as int).filter(at_time(time)) == given.take(
                    i as int,
                ).filter(at_time(time)),
        decreases n - i,
    {
        let time = records[i].commit_time;
        let mut k: usize = i;
        while k > 0 && records[k - 1].commit_time > time
            invariant
                k <= i < records.len(),
                time == records@[i as int].commit_time,
                forall|j: int| k <= j < i ==> records@[j].commit_time > time,
            decreases k,
        {
            k -= 1;
        }
        let ghost before = records.deep_view();
        let record = records.remove(i);
        records.insert(k, record);
        proof {
            assert(records.deep_view() =~= before.remove(i as int).insert(k as int, before[i as int]));
            lemma_insertion_step(before, records.deep_view(), given, i as int, k as int);
        }
        i += 1;
    }
    assert(records.deep_view().take(n as int) == records.deep_view());
    assert(given.take(n as int) == given);
}

} // verus!
