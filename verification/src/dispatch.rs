//! Dispatch: on a "select" payload, look the name up in the registry, invoke
//! the handler, and hand the result back to the caller. A miss is a reported
//! `NotFound`, never a crash.

use vstd::prelude::*;
use crate::registry::MenuError;
use crate::registry::Registry;

verus! {

/// A zero-argument menu action. `can_return` is the set of strings the
/// action may produce; `invoke` runs it and is proved, per implementation,
/// to produce only such strings.
pub trait Handler {
    /// Whether `r` is a possible result of this handler.
    spec fn can_return(&self, r: Seq<char>) -> bool;

    /// Runs the action.
    fn invoke(&self) -> (r: String)
        ensures
            self.can_return(r@),
    ;
}

/// Looks `name` up in `reg` and, if registered, invokes its handler and
/// returns the handler's string; exactly the unregistered names are answered
/// with `NotFound`.
pub fn dispatch<H: Handler>(reg: &Registry<H>, name: &str) -> (r: Result<String, MenuError>)
    requires
        reg.wf(),
    ensures
        r is Ok <==> reg@.dom().contains(name@),
        r matches Ok(out) ==> reg@[name@].can_return(out@),
        r matches Err(e) ==> e == MenuError::NotFound,
{
    match reg.get_fun(name) {
        Ok(h) => Ok(h.invoke()),
        Err(e) => Err(e),
    }
}

} // verus!
