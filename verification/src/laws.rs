//! What holds of every report, stated over the same functions as the
//! contracts of the crate.

use crate::category::{
    category_of, category_tint, has_remote_prefix, is_version_name, Category,
};
use crate::gather::{
    agrees_with_name, lemma_one_record_per_resolved_branch, record_of, records_of, resolved_count,
    resolves,
};
use crate::model::{BranchRefView, RecordView};
use crate::order::is_stable_sort_of;
use crate::paint::{lemma_painted_plain, lemma_painted_twice, tinted, tinted_twice, Tint};
use crate::render::{is_mark, is_mark_segment, lemma_marks_are_single_characters, name_tint};
use crate::report::is_report_of;
use vstd::prelude::*;
use vstd::seq_lib::{to_multiset_contains, to_multiset_len};

verus! {

/// No two branches that resolve have the same name.
pub open spec fn unique_names(branches: Seq<BranchRefView>) -> bool {
    forall|i: int, j: int|
        0 <= i < j < branches.len() && resolves(branches[i]) && resolves(branches[j])
            ==> branches[i].name != branches[j].name
}

/// Every record stems from one of the branches; a branch that resolves has
/// its record; and where the names of the branches differ, so do the names of
/// the records.
pub proof fn lemma_records_stem_from_branches(
    branches: Seq<BranchRefView>,
    head: Option<Seq<char>>,
)
    ensures
        forall|k: int|
            0 <= k < records_of(branches, head).len() ==> exists|b: int|
                0 <= b < branches.len() && record_of(#[trigger] branches[b], head) == Some(
                    #[trigger] records_of(branches, head)[k],
                ),
        forall|b: int|
            0 <= b < branches.len() && resolves(#[trigger] branches[b]) ==> records_of(
                branches,
                head,
            ).contains(record_of(branches[b], head).unwrap()),
        unique_names(branches) ==> forall|k: int, l: int|
            0 <= k < l < records_of(branches, head).len() ==> (#[trigger] records_of(
                branches,
                head,
            )[k]).name != (#[trigger] records_of(branches, head)[l]).name,
    decreases branches.len(),
{
    let records = records_of(branches, head);
    if branches.len() > 0 {
        // The records are those of the branches before the last, followed by
        // the record of the last branch if it resolves.
        let rest = branches.drop_last();
        let last = branches.last();
        let earlier = records_of(rest, head);
        lemma_records_stem_from_branches(rest, head);
        assert forall|k: int| 0 <= k < records.len() implies exists|b: int|
            0 <= b < branches.len() && record_of(#[trigger] branches[b], head) == Some(
                #[trigger] records[k],
            ) by {
            if k < earlier.len() {
                let b = choose|b: int|
                    0 <= b < rest.len() && record_of(#[trigger] rest[b], head) == Some(earlier[k]);
                assert(branches[b] == rest[b]);
            } else {
                assert(branches[branches.len() - 1] == last);
            }
        }
        assert forall|b: int| 0 <= b < branches.len() && resolves(
            #[trigger] branches[b],
        ) implies records.contains(record_of(branches[b], head).unwrap()) by {
            if b < rest.len() {
                let record = record_of(rest[b], head).unwrap();
                let k = choose|k: int| 0 <= k < earlier.len() && earlier[k] == record;
                assert(records[k] == record);
            } else {
                assert(records[records.len() - 1] == record_of(last, head).unwrap());
            }
        }
        if unique_names(branches) {
            assert(unique_names(rest));
            assert forall|k: int, l: int| 0 <= k < l < records.len() implies (
            #[trigger] records[k]).name != (#[trigger] records[l]).name by {
                if l == earlier.len() {
                    let b = choose|b: int|
                        0 <= b < rest.len() && record_of(#[trigger] rest[b], head) == Some(
                            earlier[k],
                        );
                    assert(branches[b].name != last.name);
                }
            }
        }
    }
}

/// Every record of a report carries the flags that its name asks for.
pub proof fn lemma_records_agree_with_names(
    branches: Seq<BranchRefView>,
    head: Option<Seq<char>>,
    records: Seq<RecordView>,
)
    requires
        is_stable_sort_of(records, records_of(branches, head)),
    ensures
        forall|i: int| 0 <= i < records.len() ==> agrees_with_name(#[trigger] records[i], head),
{
    let given = records_of(branches, head);
    lemma_records_stem_from_branches(branches, head);
    assert forall|i: int| 0 <= i < records.len() implies agrees_with_name(
        #[trigger] records[i],
        head,
    ) by {
        to_multiset_contains(records, records[i]);
        to_multiset_contains(given, records[i]);
        let k = choose|k: int| 0 <= k < given.len() && given[k] == records[i];
        let b = choose|b: int|
            0 <= b < branches.len() && record_of(#[trigger] branches[b], head) == Some(given[k]);
        assert(record_of(branches[b], head) == Some(records[i]));
    }
}

/// A record whose flags agree with its name is marked and coloured as its
/// name alone asks for.
pub proof fn lemma_flags_stand_for_the_name(record: RecordView, head: Option<Seq<char>>)
    requires
        agrees_with_name(record, head),
    ensures
        name_tint(record.is_head, record.is_remote, record.name) == category_tint(
            category_of(record.name, head, is_version_name(record.name)),
        ),
        forall|mark: Seq<char>| #[trigger]
            is_mark(mark, record.is_head, record.is_remote) == is_mark(
                mark,
                head == Some(record.name),
                has_remote_prefix(record.name),
            ),
{
}

/// A report shows as many branches as resolve: sorting neither drops nor
/// adds one.
pub proof fn lemma_record_count(
    branches: Seq<BranchRefView>,
    head: Option<Seq<char>>,
    records: Seq<RecordView>,
)
    requires
        is_stable_sort_of(records, records_of(branches, head)),
    ensures
        records.len() == resolved_count(branches),
{
    lemma_one_record_per_resolved_branch(branches, head);
    to_multiset_len(records);
    to_multiset_len(records_of(branches, head));
}

/// A report has one line for each branch that resolves; a verbose report has
/// two.
pub proof fn lemma_line_count(
    branches: Seq<BranchRefView>,
    head: Option<Seq<char>>,
    records: Seq<RecordView>,
    lines: Seq<Seq<char>>,
    verbose: bool,
)
    requires
        is_stable_sort_of(records, records_of(branches, head)),
        is_report_of(lines, records, verbose),
    ensures
        !verbose ==> lines.len() == resolved_count(branches),
        verbose ==> lines.len() == 2 * resolved_count(branches),
{
    lemma_record_count(branches, head, records);
}

/// The branch that is checked out is in category `Head` and carries the
/// marker `*`, bare or in green, whatever else its name says.
pub proof fn lemma_head_is_starred(
    name: Seq<char>,
    head: Option<Seq<char>>,
    versioned: bool,
    mark: Seq<char>,
)
    requires
        head == Some(name),
        is_mark(mark, head == Some(name), has_remote_prefix(name)),
    ensures
        category_of(name, head, versioned) == Category::Head,
        mark == "*"@ || mark == tinted("*"@, Tint::Green),
{
    lemma_marks_are_single_characters();
    lemma_painted_plain("*"@, Tint::Green);
}

/// What a marker segment can read. The marker is painted when it is made and
/// once more, in green, when the line is put together; with colours off it
/// stays bare, with colours on the inner colour shows.
pub proof fn lemma_mark_segment_texts(segment: Seq<char>, is_head: bool, is_remote: bool)
    requires
        is_mark_segment(segment, is_head, is_remote),
    ensures
        is_head ==> segment == "*"@ || segment == tinted("*"@, Tint::Green) || segment
            == tinted_twice("*"@, Tint::Green, Tint::Green),
        !is_head && is_remote ==> segment == "@"@ || segment == tinted("@"@, Tint::Red)
            || segment == tinted("@"@, Tint::Green) || segment == tinted_twice(
            "@"@,
            Tint::Red,
            Tint::Green,
        ),
        !is_head && !is_remote ==> segment == " "@ || segment == tinted(" "@, Tint::Green),
{
    lemma_marks_are_single_characters();
    lemma_painted_plain("*"@, Tint::Green);
    lemma_painted_plain("@"@, Tint::Red);
    lemma_painted_plain("@"@, Tint::Green);
    lemma_painted_plain(" "@, Tint::Green);
    lemma_painted_twice("*"@, Tint::Green, Tint::Green);
    lemma_painted_twice("@"@, Tint::Red, Tint::Green);
}

/// Among branches with different names, the one that is checked out, and no
/// other, has a record marked as head; that record stands in the report once
/// if the branch resolves, and not at all if it does not.
pub proof fn lemma_head_shown_once(
    branches: Seq<BranchRefView>,
    head: Seq<char>,
    records: Seq<RecordView>,
)
    requires
        unique_names(branches),
        is_stable_sort_of(records, records_of(branches, Some(head))),
    ensures
        forall|i: int|
            0 <= i < records.len() ==> ((#[trigger] records[i]).is_head <==> records[i].name
                == head),
        forall|i: int, j: int|
            0 <= i < records.len() && 0 <= j < records.len() && (#[trigger] records[i]).is_head && (
            #[trigger] records[j]).is_head ==> i == j,
        (exists|b: int|
            0 <= b < branches.len() && resolves(#[trigger] branches[b]) && branches[b].name == Some(
                head,
            )) <==> (exists|i: int| 0 <= i < records.len() && (#[trigger] records[i]).is_head),
{
    let given = records_of(branches, Some(head));
    lemma_records_stem_from_branches(branches, Some(head));
    lemma_records_agree_with_names(branches, Some(head), records);
    // Sorting keeps every record and makes none twice.
    assert forall|i: int| 0 <= i < records.len() implies given.contains(#[trigger] records[i]) by {
        to_multiset_contains(records, records[i]);
        to_multiset_contains(given, records[i]);
    }
    assert(given.no_duplicates());
    given.lemma_multiset_has_no_duplicates();
    records.lemma_multiset_has_no_duplicates_conv();
    assert forall|i: int, j: int|
        0 <= i < records.len() && 0 <= j < records.len() && (#[trigger] records[i]).is_head && (
        #[trigger] records[j]).is_head implies i == j by {
        let k = choose|k: int| 0 <= k < given.len() && given[k] == records[i];
        let l = choose|l: int| 0 <= l < given.len() && given[l] == records[j];
        assert(given[k].name == given[l].name);
    }
    if exists|b: int|
        0 <= b < branches.len() && resolves(#[trigger] branches[b]) && branches[b].name == Some(
            head,
        ) {
        let b = choose|b: int|
            0 <= b < branches.len() && resolves(#[trigger] branches[b]) && branches[b].name
                == Some(head);
        let record = record_of(branches[b], Some(head)).unwrap();
        to_multiset_contains(given, record);
        to_multiset_contains(records, record);
        let i = choose|i: int| 0 <= i < records.len() && records[i] == record;
        assert(records[i].is_head);
    }
    if exists|i: int| 0 <= i < records.len() && (#[trigger] records[i]).is_head {
        let i = choose|i: int| 0 <= i < records.len() && (#[trigger] records[i]).is_head;
        let k = choose|k: int| 0 <= k < given.len() && given[k] == records[i];
        let b = choose|b: int|
            0 <= b < branches.len() && record_of(#[trigger] branches[b], Some(head)) == Some(
                given[k],
            );
        assert(resolves(branches[b]) && branches[b].name == Some(head));
    }
}

/// A branch under `origin/` that is not checked out is in category `Remote`
/// and carries the marker `@`, bare or in red.
pub proof fn lemma_remote_is_marked(
    name: Seq<char>,
    head: Option<Seq<char>>,
    versioned: bool,
    mark: Seq<char>,
)
    requires
        has_remote_prefix(name),
        head != Some(name),
        is_mark(mark, head == Some(name), has_remote_prefix(name)),
    ensures
        category_of(name, head, versioned) == Category::Remote,
        mark == "@"@ || mark == tinted("@"@, Tint::Red),
{
    lemma_marks_are_single_characters();
    lemma_painted_plain("@"@, Tint::Red);
}

} // verus!
