//! What the library says of an answer: whether it can stand, and how a
//! session ends.
use crate::text::{is_blank, trim};
use vstd::prelude::*;
use vstd::string::*;

verus! {

/// The verdict on an answer.
#[derive(Clone, Debug)]
pub enum Validation {
    /// The answer can stand.
    Valid,
    /// The answer is refused, with the reason to show.
    Invalid(String),
}

/// Why a session ended without a result.
#[derive(Debug)]
pub enum Halt<E> {
    /// The person declined to go on.
    Canceled,
    /// A question could not be asked or answered.
    Failed(E),
}

/// What is said to someone who left a required answer out.
pub open spec fn refusal() -> Seq<char> {
    "You must enter a value."@
}

/// Accepts every answer but the empty one.
pub fn not_empty(value: &str) -> (r: Validation)
    ensures
        r is Valid <==> value@.len() > 0,
        r matches Validation::Invalid(reason) ==> reason@ == refusal(),
{
    if value.unicode_len() == 0 {
        Validation::Invalid(String::from_str("You must enter a value."))
    } else {
        Validation::Valid
    }
}

/// Accepts every answer of which something is left after trimming.
pub fn not_blank(value: &str) -> (r: Validation)
    ensures
        r is Valid <==> !is_blank(value@),
        r matches Validation::Invalid(reason) ==> reason@ == refusal(),
{
    if trim(value).as_str().unicode_len() == 0 {
        Validation::Invalid(String::from_str("You must enter a value."))
    } else {
        Validation::Valid
    }
}

} // verus!
