//! The data of a report: what the repository says of a branch, and the record
//! that the report keeps of each branch it shows.

use vstd::prelude::*;

verus! {

/// What the repository knows of the commit that a branch points to.
#[derive(Clone, Debug, PartialEq, Eq)]
pub struct TipCommit {
    /// The full commit id, in hexadecimal.
    pub id: String,
    /// The commit time, in seconds since the Unix epoch.
    pub time: i64,
    /// The first line of the commit message, if it has one.
    pub summary: Option<String>,
}

/// A `TipCommit` as a mathematical value.
pub struct TipView {
    pub id: Seq<char>,
    pub time: int,
    pub summary: Option<Seq<char>>,
}

impl DeepView for TipCommit {
    type V = TipView;

    open spec fn deep_view(&self) -> TipView {
        TipView { id: self.id@, time: self.time as int, summary: self.summary.deep_view() }
    }
}

/// A branch as the repository lists it. Either part is `None` where the
/// repository could not resolve it.
#[derive(Clone, Debug, PartialEq, Eq)]
pub struct BranchRef {
    /// The short name of the branch.
    pub name: Option<String>,
    /// The commit at the tip of the branch.
    pub tip: Option<TipCommit>,
}

/// A `BranchRef` as a mathematical value.
pub struct BranchRefView {
    pub name: Option<Seq<char>>,
    pub tip: Option<TipView>,
}

impl DeepView for BranchRef {
    type V = BranchRefView;

    open spec fn deep_view(&self) -> BranchRefView {
        BranchRefView { name: self.name.deep_view(), tip: self.tip.deep_view() }
    }
}

/// One branch of the report.
#[derive(Clone, Debug, PartialEq, Eq)]
pub struct BranchRecord {
    /// The short name of the branch.
    pub name: String,
    /// The first eight characters of the id of its tip commit.
    pub short_id: String,
    /// The time of its tip commit, in seconds since the Unix epoch.
    pub commit_time: i64,
    /// The first line of the message of its tip commit; empty if it has none.
    pub summary: String,
    /// Whether the branch is the one checked out.
    pub is_head: bool,
    /// Whether the branch is a remote-tracking one.
    pub is_remote: bool,
}

/// A `BranchRecord` as a mathematical value.
pub struct RecordView {
    pub name: Seq<char>,
    pub short_id: Seq<char>,
    pub commit_time: int,
    pub summary: Seq<char>,
    pub is_head: bool,
    pub is_remote: bool,
}

impl DeepView for BranchRecord {
    type V = RecordView;

    open spec fn deep_view(&self) -> RecordView {
        RecordView {
            name: self.name@,
            short_id: self.short_id@,
            commit_time: self.commit_time as int,
            summary: self.summary@,
            is_head: self.is_head,
            is_remote: self.is_remote,
        }
    }
}

} // verus!
