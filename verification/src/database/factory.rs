//! Factories make model instances for tests and seeding; these are the messages and
//! the outcome of making several at once.
use vstd::prelude::*;
use vstd::string::*;
use crate::text::{views, decimal, u64_to_decimal};
use crate::database::connection::DatabaseError;

verus! {

/// The `Debug` rendering of a list of strings, as `{:?}` writes a `Vec<String>`.
pub uninterp spec fn debug_list(items: Seq<Seq<char>>) -> Seq<char>;

/// `format!("{:?}", items)`. Trusted: the result is named `debug_list` of the items.
#[verifier::external_body]
fn debug_strings(items: &Vec<String>) -> (s: String)
    ensures
        s@ == debug_list(views(items@)),
{
    format!("{:?}", items)
}

/// The message for the failure of the instance at `index` (counted from zero) of
/// the model `model_type`, which failed with `error`.
pub open spec fn failure_text(index: nat, model_type: Seq<char>, error: Seq<char>) -> Seq<char> {
    "Failed to create instance "@ + decimal(index + 1) + " of "@ + model_type + ": "@ + error
}

/// The message recorded when making the instance at `index` fails.
pub fn failure_message(index: u32, model_type: &str, error: &str) -> (s: String)
    ensures
        s@ == failure_text(index as nat, model_type@, error@),
{
    let n = u64_to_decimal(index as u64 + 1);
    String::from_str("Failed to create instance ").concat(n.as_str()).concat(" of ")
        .concat(model_type).concat(": ").concat(error)
}

/// The outcome of making several instances: the ones made, when there is at least
/// one; otherwise an error that lists every failure message.
pub fn creation_outcome<T>(records: Vec<T>, errors: &Vec<String>) -> (r: Result<Vec<T>, DatabaseError>)
    ensures
        records@.len() > 0 ==> (r matches Ok(v) && v@ == records@),
        records@.len() == 0 ==> (r matches Err(DatabaseError::Other(m))
            && m@ == "Failed to create any instances. Errors: "@ + debug_list(views(errors@))),
{
    if records.len() > 0 {
        Ok(records)
    } else {
        let listed = debug_strings(errors);
        Err(DatabaseError::Other(String::from_str("Failed to create any instances. Errors: ").concat(listed.as_str())))
    }
}

} // verus!
