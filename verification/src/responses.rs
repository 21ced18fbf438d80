//! The plain-string bodies the delete endpoints answer with. Deleting
//! something that does not exist is not an error at the HTTP level: both
//! outcomes are successes, distinguished only by this body.
use vstd::prelude::*;
use vstd::string::StringExecFns;

verus! {

/// The body of a delete response: a fixed success line, or
/// "`{entity}` not found" when there was nothing to delete.
pub fn delete_response_body(entity: &str, deleted: bool) -> (r: String)
    ensures
        deleted ==> r@ == "Successfully deleted"@,
        !deleted ==> r@ == entity@ + " not found"@,
{
    if deleted {
        "Successfully deleted".to_owned()
    } else {
        entity.to_owned().concat(" not found")
    }
}

} // verus!
