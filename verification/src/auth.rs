use vstd::prelude::*;
use crate::errors::Error;

verus! {

/// The authorization gate. The host proves which principal invoked the
/// operation; this check enforces that the proven identity is the one the
/// operation requires, and short-circuits with `Unauthorized` otherwise,
/// so the enclosing operation aborts before any mutation.
pub fn require_caller_is(caller: &String, required: &String) -> (r: Result<(), Error>)
    ensures
        r is Ok <==> caller@ == required@,
        r is Err ==> r == Err::<(), Error>(Error::Unauthorized),
{
    if *caller == *required {
        Ok(())
    } else {
        Err(Error::Unauthorized)
    }
}

} // verus!
