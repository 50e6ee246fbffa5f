//! Built-in rules on a single string value.
use vstd::prelude::*;
use crate::text::{is_blank, blank};
use crate::pattern::{regex_compiles, regex_matches, regex_is_match};
use super::ValidationError;

verus! {

/// The pattern an e-mail address must match.
pub const EMAIL_PATTERN: &'static str = "^[A-Za-z0-9._%+-]+@[A-Za-z0-9.-]+\\.[A-Za-z]{2,}$";

/// Fails with `"required"` when the value is empty once trimmed.
pub fn required(value: &str) -> (r: Result<(), ValidationError>)
    ensures
        r is Ok <==> !is_blank(value@),
        r matches Err(e) ==> e@ == "required"@,
{
    if blank(value) {
        return Err(ValidationError::new("required"));
    }
    Ok(())
}

/// Fails with `"email"` unless the value matches `EMAIL_PATTERN`.
pub fn email(value: &str) -> (r: Result<(), ValidationError>)
    ensures
        r is Ok <==> regex_compiles(EMAIL_PATTERN@) && regex_matches(EMAIL_PATTERN@, value@),
        r matches Err(e) ==> e@ == "email"@,
{
    match regex_is_match(EMAIL_PATTERN, value) {
        Ok(true) => Ok(()),
        _ => Err(ValidationError::new("email")),
    }
}

/// Fails with `"min"` when the value has fewer than `min_len` bytes.
pub fn min(value: &str, min_len: usize) -> (r: Result<(), ValidationError>)
    ensures
        r is Ok <==> value.len() >= min_len,
        r matches Err(e) ==> e@ == "min"@,
{
    if value.len() < min_len {
        return Err(ValidationError::new("min"));
    }
    Ok(())
}

/// Fails with `"max"` when the value has more than `max_len` bytes.
pub fn max(value: &str, max_len: usize) -> (r: Result<(), ValidationError>)
    ensures
        r is Ok <==> value.len() <= max_len,
        r matches Err(e) ==> e@ == "max"@,
{
    if value.len() > max_len {
        return Err(ValidationError::new("max"));
    }
    Ok(())
}

} // verus!
