//! From the branches that the repository lists to the records of the report:
//! which lists are looked at, and which branches make it into a record.

use crate::category::{has_remote_prefix, is_head, is_remote};
use crate::model::{BranchRecord, BranchRef, BranchRefView, RecordView};
use crate::render::{format_commit_id, latest_commit_message, short_id_of};
use vstd::prelude::*;

verus! {

/// Which branches a report covers.
#[derive(Clone, Copy, PartialEq, Eq, Structural, Debug)]
pub enum Scope {
    /// The local branches only.
    Local,
    /// The remote-tracking branches only.
    Remote,
    /// The local branches, then the remote-tracking ones.
    All,
}

/// The scope that the two switches ask for; "all" wins over "remote".
pub open spec fn scope_of(show_remote: bool, show_all: bool) -> Scope {
    if show_all {
        Scope::All
    } else if show_remote {
        Scope::Remote
    } else {
        Scope::Local
    }
}

/// The branches in `scope`, out of the local and the remote-tracking ones.
pub open spec fn selected<T>(scope: Scope, local: Seq<T>, remote: Seq<T>) -> Seq<T> {
    match scope {
        Scope::Local => local,
        Scope::Remote => remote,
        Scope::All => local + remote,
    }
}

/// A branch resolves if both its name and its tip commit are known.
pub open spec fn resolves(branch: BranchRefView) -> bool {
    branch.name is Some && branch.tip is Some
}

/// How many of `branches` resolve.
pub open spec fn resolved_count(branches: Seq<BranchRefView>) -> nat {
    branches.filter(|branch: BranchRefView| resolves(branch)).len()
}

/// The record of `branch` while `head` is checked out; none for a branch
/// that does not resolve.
pub open spec fn record_of(branch: BranchRefView, head: Option<Seq<char>>) -> Option<RecordView> {
    match (branch.name, branch.tip) {
        (Some(name), Some(tip)) => Some(
            RecordView {
                name,
                short_id: short_id_of(tip.id),
                commit_time: tip.time,
                summary: match tip.summary {
                    Some(line) => line,
                    None => Seq::empty(),
                },
                is_head: head == Some(name),
                is_remote: has_remote_prefix(name),
            },
        ),
        _ => None,
    }
}

/// The flags of `record` are those that its name asks for while `head` is
/// checked out, and its short id is no longer than eight characters.
pub open spec fn agrees_with_name(record: RecordView, head: Option<Seq<char>>) -> bool {
    &&& record.is_head == (head == Some(record.name))
    &&& record.is_remote == has_remote_prefix(record.name)
    &&& record.short_id.len() <= 8
}

/// The records of those of `branches` that resolve, in the order of
/// `branches`.
pub open spec fn records_of(branches: Seq<BranchRefView>, head: Option<Seq<char>>) -> Seq<
    RecordView,
> {
    branches.filter_map(|branch: BranchRefView| record_of(branch, head))
}

/// There is one record for each branch that resolves.
pub proof fn lemma_one_record_per_resolved_branch(
    branches: Seq<BranchRefView>,
    head: Option<Seq<char>>,
)
    ensures
        records_of(branches, head).len() == resolved_count(branches),
    decreases branches.len(),
{
    reveal(Seq::filter);
    if branches.len() > 0 {
        lemma_one_record_per_resolved_branch(branches.drop_last(), head);
    }
}

/// The scope that the two switches ask for.
pub fn scope_for(show_remote: bool, show_all: bool) -> (scope: Scope)
    ensures
        scope == scope_of(show_remote, show_all),
{
    if show_all {
        Scope::All
    } else if show_remote {
        Scope::Remote
    } else {
        Scope::Local
    }
}

/// Keeps the branches in `scope`.
pub fn select_branches(scope: Scope, local: Vec<BranchRef>, remote: Vec<BranchRef>) -> (chosen:
    Vec<BranchRef>)
    ensures
        chosen@ == selected(scope, local@, remote@),
        chosen.deep_view() == selected(scope, local.deep_view(), remote.deep_view()),
{
    match scope {
        Scope::Local => local,
        Scope::Remote => remote,
        Scope::All => {
            let mut chosen = local;
            let mut rest = remote;
            chosen.append(&mut rest);
            chosen
        },
    }
}

/// The record of `branch` while `head` is checked out, if the branch
/// resolves.
pub fn to_record(branch: &BranchRef, head: Option<&str>) -> (record: Option<BranchRecord>)
    ensures
        record.deep_view() == record_of(branch.deep_view(), head.deep_view()),
{
    match (&branch.name, &branch.tip) {
        (Some(name), Some(tip)) => {
            let summary = match latest_commit_message(Some(tip)) {
                Some(line) => line,
                None => String::new(),
            };
            Some(
                BranchRecord {
                    name: name.clone(),
                    short_id: format_commit_id(Some(tip)),
                    commit_time: tip.time,
                    summary,
                    is_head: is_head(name.as_str(), head),
                    is_remote: is_remote(name.as_str()),
                },
            )
        },
        _ => None,
    }
}

/// The records of those of `branches` that resolve, in the order of
/// `branches`. A branch that does not resolve is passed over.
pub fn collect_records(branches: &Vec<BranchRef>, head: Option<&str>) -> (records: Vec<
    BranchRecord,
>)
    ensures
        records.deep_view() == records_of(branches.deep_view(), head.deep_view()),
        records.len() == resolved_count(branches.deep_view()),
{
    let mut records: Vec<BranchRecord> = Vec::new();
    let mut i: usize = 0;
    while i < branches.len()
        invariant
            i <= branches.len(),
            records.deep_view() == records_of(branches.deep_view().take(i as int), head.deep_view()),
        decreases branches.len() - i,
    {
        assert(branches.deep_view().take(i + 1).drop_last() == branches.deep_view().take(i as int));
        match to_record(&branches[i], head) {
            Some(record) => records.push(record),
            None => {},
        }
        i += 1;
    }
    assert(branches.deep_view().take(branches.len() as int) == branches.deep_view());
    proof {
        lemma_one_record_per_resolved_branch(branches.deep_view(), head.deep_view());
    }
    records
}

} // verus!
