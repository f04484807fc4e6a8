//! Telling whether the program runs inside Node Webkit.
//!
//! The caller asks the host for its `nw` namespace and hands the reply to
//! [`try_nw`]: the value that the read gave, or the value that it threw.

use crate::value::{outcome, Datum, Value};
use vstd::prelude::*;

verus! {

/// What a reply means: the namespace where the read gave a value other than
/// `undefined`, and absence, with what came in its place, where it gave
/// `undefined` or threw.
pub open spec fn presence(reply: Result<Datum, Datum>) -> Result<Datum, Datum> {
    match reply {
        Ok(value) => if value is Undefined {
            Err(value)
        } else {
            Ok(value)
        },
        Err(thrown) => Err(thrown),
    }
}

/// Sorts the host's reply into presence and absence of the `nw` namespace.
pub fn try_nw(reply: Result<Value, Value>) -> (r: Result<Value, Value>)
    ensures
        outcome(r) == presence(outcome(reply)),
{
    match reply {
        Ok(value) => {
            if value.is_undefined() {
                Err(value)
            } else {
                Ok(value)
            }
        },
        Err(thrown) => Err(thrown),
    }
}

/// Whether the reply shows that the program runs inside Node Webkit.
pub fn is_nw(reply: Result<Value, Value>) -> (r: bool)
    ensures
        r == presence(outcome(reply)) is Ok,
{
    try_nw(reply).is_ok()
}

} // verus!
