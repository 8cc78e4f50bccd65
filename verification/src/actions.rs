//! The demo actions shipped with the menu: two named functions that return a
//! greeting, and an action type that makes them registrable handlers.

use vstd::prelude::*;
use crate::dispatch::Handler;

verus! {

/// First demo action: returns a fixed greeting.
pub fn test_function_1() -> (r: String)
    ensures
        r@ == "Hello folks!"@,
{
    "Hello folks!".to_owned()
}

/// Second demo action: returns a fixed greeting.
pub fn test_function_2() -> (r: String)
    ensures
        r@ == "Hello folks from test 2!"@,
{
    "Hello folks from test 2!".to_owned()
}

/// The demo menu's handler type: one variant per registrable action.
#[derive(Clone, Copy, Debug, PartialEq, Eq, Structural)]
pub enum DemoAction {
    First,
    Second,
}

impl Handler for DemoAction {
    /// Each demo action returns exactly one string.
    open spec fn can_return(&self, r: Seq<char>) -> bool {
        match *self {
            DemoAction::First => r == "Hello folks!"@,
            DemoAction::Second => r == "Hello folks from test 2!"@,
        }
    }

    fn invoke(&self) -> (r: String) {
        match *self {
            DemoAction::First => test_function_1(),
            DemoAction::Second => test_function_2(),
        }
    }
}

} // verus!
