//! RPC method closure wrappers.
//!
//! The RPC layer keeps its handlers in a table without generics; `Method`
//! is the wrapper that retains one handler's closure. The dispatch of a
//! call through the table is the RPC layer's own concern and stays with the
//! runtime; the wrapper only holds the closure.

use vstd::prelude::*;

verus! {

/// RPC method wrapper. Contains the method closure function.
pub struct Method<FN> {
    /// The retained handler.
    pub method: FN,
}

impl<FN> Method<FN> {
    /// Wraps a handler closure.
    pub fn new(method_fn: FN) -> (m: Method<FN>)
        ensures
            m.method == method_fn,
    {
        Method { method: method_fn }
    }
}

} // verus!
