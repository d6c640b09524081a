//! A bridge between a Lightning node's plugin interface and a Floresta
//! backend's JSON-RPC interface: framing of backend requests, request
//! identifiers, and the mapping of each method's replies.
use vstd::prelude::*;

pub mod handlers;
pub mod rpc;
pub mod text;

verus! {
} // verus!
