//! The parts of a JSON-RPC request that the library names.

use vstd::prelude::*;

verus! {

/// A JSON-RPC request id: a number, a string, or null.
#[derive(Debug, Clone)]
pub enum RequestId {
    Num(i64),
    Str(String),
    Null,
}

} // verus!
