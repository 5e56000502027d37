//! The whole report: from the branches of a repository to the lines to print.

use crate::gather::{
    agrees_with_name, collect_records, records_of, resolved_count, scope_for, scope_of,
    select_branches, selected,
};
use crate::laws::{lemma_line_count, lemma_records_agree_with_names};
use crate::model::{BranchRecord, BranchRef, BranchRefView, RecordView};
use crate::order::{in_time_order, is_stable_sort_of, sort_by_time};
use crate::render::{is_detail_of, is_line_of, render_detail, render_line};
use vstd::prelude::*;
use vstd::seq_lib::to_multiset_len;

verus! {

/// What the caller asks of a report.
#[derive(Clone, Copy, Debug, PartialEq, Eq)]
pub struct Options {
    /// Show the remote-tracking branches in place of the local ones.
    pub show_remote: bool,
    /// Show the local and the remote-tracking branches.
    pub show_all: bool,
    /// Follow each branch with the first line of its last commit message.
    pub verbose: bool,
}

/// A finished report.
#[derive(Clone, Debug, PartialEq, Eq)]
pub struct Report {
    /// The branches shown, in the order of the report.
    pub records: Vec<BranchRecord>,
    /// The lines to print, in order.
    pub lines: Vec<String>,
}

/// The branches that a report with the given switches looks at.
pub open spec fn in_scope(
    local: Seq<BranchRefView>,
    remote: Seq<BranchRefView>,
    show_remote: bool,
    show_all: bool,
) -> Seq<BranchRefView> {
    selected(scope_of(show_remote, show_all), local, remote)
}

/// How many lines a branch takes.
pub open spec fn lines_per_branch(verbose: bool) -> nat {
    if verbose {
        2
    } else {
        1
    }
}

/// Where the line of the branch at `index` stands among the lines.
pub open spec fn line_index(index: int, verbose: bool) -> int {
    lines_per_branch(verbose) * index
}

/// `lines` are the lines of `records`, in order: for each record its line,
/// followed in a verbose report by its detail line.
pub open spec fn is_report_of(lines: Seq<Seq<char>>, records: Seq<RecordView>, verbose: bool) -> bool {
    &&& lines.len() == lines_per_branch(verbose) * records.len()
    &&& forall|i: int|
        0 <= i < records.len() ==> is_line_of(lines[line_index(i, verbose)], #[trigger] records[i])
    &&& verbose ==> forall|i: int|
        0 <= i < records.len() ==> is_detail_of(
            lines[line_index(i, verbose) + 1],
            (#[trigger] records[i]).summary,
        )
}

/// The lines of `records`, in order.
pub fn render_report(records: &Vec<BranchRecord>, verbose: bool) -> (lines: Vec<String>)
    ensures
        is_report_of(lines.deep_view(), records.deep_view(), verbose),
{
    let mut lines: Vec<String> = Vec::new();
    let mut i: usize = 0;
    while i < records.len()
        invariant
            i <= records.len(),
            is_report_of(lines.deep_view(), records.deep_view().take(i as int), verbose),
        decreases records.len() - i,
    {
        let ghost before = lines.deep_view();
        let ghost shown = records.deep_view().take(i as int);
        let line = render_line(&records[i]);
        lines.push(line);
        if verbose {
            let detail = render_detail(records[i].summary.as_str());
            lines.push(detail);
        }
        proof {
            let after = lines.deep_view();
            let grown = records.deep_view().take(i + 1);
            assert(after.len() == lines_per_branch(verbose) * grown.len()) by (nonlinear_arith)
                requires
                    after.len() == before.len() + lines_per_branch(verbose),
                    before.len() == lines_per_branch(verbose) * shown.len(),
                    grown.len() == shown.len() + 1,
            ;
            assert forall|j: int| 0 <= j < grown.len() implies is_line_of(
                after[line_index(j, verbose)],
                #[trigger] grown[j],
            ) by {
                assert(j < i ==> grown[j] == shown[j]);
            }
            if verbose {
                assert forall|j: int| 0 <= j < grown.len() implies is_detail_of(
                    after[line_index(j, verbose) + 1],
                    (#[trigger] grown[j]).summary,
                ) by {
                    if j < i {
                        assert(after[line_index(j, verbose) + 1] == before[line_index(j, verbose)
                            + 1]);
                    }
                }
            }
        }
        i += 1;
    }
    assert(records.deep_view().take(records.len() as int) == records.deep_view());
    lines
}

/// The records of the report: the branches in the scope that the switches ask
/// for, those that resolve, oldest tip first.
pub fn list_branches(
    local: Vec<BranchRef>,
    remote: Vec<BranchRef>,
    head: Option<&str>,
    show_remote: bool,
    show_all: bool,
) -> (records: Vec<BranchRecord>)
    ensures
        is_stable_sort_of(
            records.deep_view(),
            records_of(
                in_scope(local.deep_view(), remote.deep_view(), show_remote, show_all),
                head.deep_view(),
            ),
        ),
        records.len() == resolved_count(
            in_scope(local.deep_view(), remote.deep_view(), show_remote, show_all),
        ),
        forall|i: int|
            0 <= i < records.len() ==> agrees_with_name(
                #[trigger] records.deep_view()[i],
                head.deep_view(),
            ),
{
    let chosen = select_branches(scope_for(show_remote, show_all), local, remote);
    let mut records = collect_records(&chosen, head);
    let ghost gathered = records.deep_view();
    sort_by_time(&mut records);
    proof {
        to_multiset_len(gathered);
        to_multiset_len(records.deep_view());
        lemma_records_agree_with_names(
            chosen.deep_view(),
            head.deep_view(),
            records.deep_view(),
        );
    }
    records
}

/// The report on the given branches while `head` is checked out. There is
/// one line for each branch in scope that resolves, two in a verbose report,
/// and the lines run from the oldest tip to the youngest.
pub fn build_report(
    local: Vec<BranchRef>,
    remote: Vec<BranchRef>,
    head: Option<&str>,
    options: &Options,
) -> (report: Report)
    ensures
        is_stable_sort_of(
            report.records.deep_view(),
            records_of(
                in_scope(
                    local.deep_view(),
                    remote.deep_view(),
                    options.show_remote,
                    options.show_all,
                ),
                head.deep_view(),
            ),
        ),
        in_time_order(report.records.deep_view()),
        forall|i: int|
            0 <= i < report.records.len() ==> agrees_with_name(
                #[trigger] report.records.deep_view()[i],
                head.deep_view(),
            ),
        is_report_of(report.lines.deep_view(), report.records.deep_view(), options.verbose),
        report.lines.len() == lines_per_branch(options.verbose) * resolved_count(
            in_scope(
                local.deep_view(),
                remote.deep_view(),
                options.show_remote,
                options.show_all,
            ),
        ),
{
    let records = list_branches(local, remote, head, options.show_remote, options.show_all);
    let lines = render_report(&records, options.verbose);
    proof {
        lemma_line_count(
            in_scope(
                local.deep_view(),
                remote.deep_view(),
                options.show_remote,
                options.show_all,
            ),
            head.deep_view(),
            records.deep_view(),
            lines.deep_view(),
            options.verbose,
        );
    }
    Report { records, lines }
}

} // verus!
