//! Regular-expression matching, done by the `regex` crate.

use vstd::prelude::*;

verus! {

/// The verdict of the `regex` crate on `pattern` and `text`: `None` where it
/// rejects the pattern, else whether the pattern matches somewhere in `text`.
pub uninterp spec fn regex_match(pattern: Seq<char>, text: Seq<char>) -> Option<bool>;

/// Compiles `pattern` with `regex::Regex::new` and searches `text` with
/// `regex::Regex::is_match`.
///
/// Both depend on their arguments alone, so the result is `regex_match` of the
/// two texts. A pattern that `regex` rejects (bad syntax, or a program over its
/// size limit) gives `None`. Not proved: nothing here says which texts a
/// pattern matches.
#[verifier::external_body]
pub(crate) fn find_match(pattern: &str, text: &str) -> (found: Option<bool>)
    ensures
        found == regex_match(pattern@, text@),
{
    match regex::Regex::new(pattern) {
        Ok(compiled) => Some(compiled.is_match(text)),
        Err(_) => None,
    }
}

} // verus!
