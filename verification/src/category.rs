//! The kinds of branch, told apart by name, and the colour of each kind.

use crate::paint::Tint;
use crate::pattern::{find_match, regex_match};
use crate::text::{chars_of, has_prefix, has_suffix, same_chars};
use vstd::prelude::*;

verus! {

/// What a branch is to the reader of the report. The kinds are tried in the
/// order of the variants; the first that fits is the branch's category.
#[derive(Clone, Copy, PartialEq, Eq, Structural, Debug)]
pub enum Category {
    /// The branch that is checked out.
    Head,
    /// A remote-tracking branch.
    Remote,
    /// A long-lived branch, or one named after a version.
    CoreOrVersioned,
    /// A branch whose name says that it is done with.
    LowPriority,
    /// Any other branch.
    Default,
}

/// The pattern of a version name: `v` in either case, then a digit.
pub const VERSION_PATTERN: &'static str = "(?i)^v\\d+";

/// The prefix of the name of a remote-tracking branch.
pub const REMOTE_PREFIX: &'static str = "origin/";

/// A name under `origin/`.
pub open spec fn has_remote_prefix(name: Seq<char>) -> bool {
    REMOTE_PREFIX@.is_prefix_of(name)
}

/// One of the long-lived branch names.
pub open spec fn is_core_name(name: Seq<char>) -> bool {
    ||| name == "master"@
    ||| name == "main"@
    ||| name == "develop"@
    ||| name == "test"@
    ||| name == "demo"@
    ||| name == "release"@
}

/// A name that ends in one of the words for a branch that is done with.
pub open spec fn has_low_priority_suffix(name: Seq<char>) -> bool {
    ||| "old"@.is_suffix_of(name)
    ||| "obs"@.is_suffix_of(name)
    ||| "nouse"@.is_suffix_of(name)
    ||| "merged"@.is_suffix_of(name)
}

/// Whether `regex` finds the version pattern in `name`.
pub open spec fn is_version_name(name: Seq<char>) -> bool {
    regex_match(VERSION_PATTERN@, name) == Some(true)
}

/// The category of a branch called `name`, given whether it is checked out,
/// whether it is remote-tracking and whether its name is a version name.
pub open spec fn category_from(
    is_head: bool,
    is_remote: bool,
    name: Seq<char>,
    versioned: bool,
) -> Category {
    if is_head {
        Category::Head
    } else if is_remote {
        Category::Remote
    } else if is_core_name(name) || versioned {
        Category::CoreOrVersioned
    } else if has_low_priority_suffix(name) {
        Category::LowPriority
    } else {
        Category::Default
    }
}

/// The category of the branch `name` while `head` is checked out, given
/// whether the name is a version name. Without a checked-out branch no name
/// is the head.
pub open spec fn category_of(name: Seq<char>, head: Option<Seq<char>>, versioned: bool) -> Category {
    category_from(head == Some(name), has_remote_prefix(name), name, versioned)
}

/// The colour in which a branch of `category` is named.
pub open spec fn category_tint(category: Category) -> Tint {
    match category {
        Category::Head => Tint::Green,
        Category::Remote => Tint::Red,
        Category::CoreOrVersioned => Tint::Purple,
        Category::LowPriority => Tint::Blue,
        Category::Default => Tint::White,
    }
}

/// Whether `name` is the branch that `head` names.
pub fn is_head(name: &str, head: Option<&str>) -> (r: bool)
    ensures
        r == (head.deep_view() == Some(name@)),
{
    match head {
        Some(h) => same_chars(chars_of(name).as_slice(), chars_of(h).as_slice()),
        None => false,
    }
}

/// Whether `name` is that of a remote-tracking branch.
pub fn is_remote(name: &str) -> (r: bool)
    ensures
        r == has_remote_prefix(name@),
{
    has_prefix(chars_of(name).as_slice(), chars_of(REMOTE_PREFIX).as_slice())
}

/// Whether `name` is one of the long-lived branch names.
pub fn is_core(name: &str) -> (r: bool)
    ensures
        r == is_core_name(name@),
{
    let chars = chars_of(name);
    same_chars(chars.as_slice(), chars_of("master").as_slice())
        || same_chars(chars.as_slice(), chars_of("main").as_slice())
        || same_chars(chars.as_slice(), chars_of("develop").as_slice())
        || same_chars(chars.as_slice(), chars_of("test").as_slice())
        || same_chars(chars.as_slice(), chars_of("demo").as_slice())
        || same_chars(chars.as_slice(), chars_of("release").as_slice())
}

/// Whether `name` ends like a branch that is done with.
pub fn is_low_priority(name: &str) -> (r: bool)
    ensures
        r == has_low_priority_suffix(name@),
{
    let chars = chars_of(name);
    has_suffix(chars.as_slice(), chars_of("old").as_slice())
        || has_suffix(chars.as_slice(), chars_of("obs").as_slice())
        || has_suffix(chars.as_slice(), chars_of("nouse").as_slice())
        || has_suffix(chars.as_slice(), chars_of("merged").as_slice())
}

/// Whether `name` begins like a version: `v` or `V`, then a digit. A pattern
/// that fails to compile matches nothing.
pub fn is_version(name: &str) -> (r: bool)
    ensures
        r == is_version_name(name@),
{
    version_verdict(find_match(VERSION_PATTERN, name))
}

/// Reads the outcome of a pattern search as a yes or no.
pub fn version_verdict(found: Option<bool>) -> (r: bool)
    ensures
        r == (found == Some(true)),
{
    match found {
        Some(hit) => hit,
        None => false,
    }
}

/// The category of a branch called `name`, for flags and a version verdict
/// that are already known.
pub fn categorize(is_head: bool, is_remote: bool, name: &str, versioned: bool) -> (category:
    Category)
    ensures
        category == category_from(is_head, is_remote, name@, versioned),
{
    if is_head {
        Category::Head
    } else if is_remote {
        Category::Remote
    } else if is_core(name) || versioned {
        Category::CoreOrVersioned
    } else if is_low_priority(name) {
        Category::LowPriority
    } else {
        Category::Default
    }
}

/// The category of the branch `name` while `head` is checked out, for a name
/// already known to be a version name or not.
pub fn classify_with(name: &str, head: Option<&str>, versioned: bool) -> (category: Category)
    ensures
        category == category_of(name@, head.deep_view(), versioned),
{
    categorize(is_head(name, head), is_remote(name), name, versioned)
}

/// The category of the branch `name` while `head` is checked out.
pub fn classify(name: &str, head: Option<&str>) -> (category: Category)
    ensures
        category == category_of(name@, head.deep_view(), is_version_name(name@)),
{
    let versioned = is_version(name);
    classify_with(name, head, versioned)
}

/// The colour in which a branch of `category` is named.
pub fn tint_of(category: Category) -> (tint: Tint)
    ensures
        tint == category_tint(category),
{
    match category {
        Category::Head => Tint::Green,
        Category::Remote => Tint::Red,
        Category::CoreOrVersioned => Tint::Purple,
        Category::LowPriority => Tint::Blue,
        Category::Default => Tint::White,
    }
}

} // verus!
