//! Regular-expression matching, as the `regex` crate does it.
use vstd::prelude::*;

verus! {

/// The error `regex::Regex::new` reports for a pattern it does not accept.
#[verifier::external_type_specification]
#[verifier::external_body]
pub struct ExRegexError(regex::Error);

/// Whether `regex::Regex::new` accepts `pattern`: it rejects invalid patterns and
/// patterns whose compiled form exceeds the default size limit.
pub uninterp spec fn regex_compiles(pattern: Seq<char>) -> bool;

/// Whether `regex::Regex::is_match`, for the regex compiled from `pattern`, finds a
/// match anywhere in `text`.
pub uninterp spec fn regex_matches(pattern: Seq<char>, text: Seq<char>) -> bool;

/// Compiles `pattern` with `regex::Regex::new` and, when that succeeds, calls
/// `is_match(text)` on the result. Trusted: the result is `Ok` exactly when the
/// pattern compiles, and then holds what `is_match` answers; both are named, not
/// described, here.
#[verifier::external_body]
pub(crate) fn regex_is_match(pattern: &str, text: &str) -> (r: Result<bool, regex::Error>)
    ensures
        r.is_ok() == regex_compiles(pattern@),
        r matches Ok(b) ==> b == regex_matches(pattern@, text@),
{
    match regex::Regex::new(pattern) {
        Ok(re) => Ok(re.is_match(text)),
        Err(e) => Err(e),
    }
}

} // verus!
