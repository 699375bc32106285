//! Commands without logic of their own.

use vstd::prelude::*;

verus! {

/// Hands the message back unchanged; used to check that the command channel works.
pub fn echo(msg: String) -> (reply: Result<String, String>)
    ensures
        reply == Ok::<String, String>(msg),
{
    Ok(msg)
}

} // verus!
