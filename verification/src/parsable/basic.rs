//! The envelope of a request.

use vstd::prelude::*;

verus! {

/// A JSON-RPC request: the envelope around the parameters of one method.
#[derive(Debug)]
pub struct BasicRequest<T> {
    pub id: Option<String>,
    pub jsonrpc: String,
    pub method: String,
    pub params: T,
}

} // verus!
