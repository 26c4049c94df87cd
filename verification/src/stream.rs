//! The live stream multiplexer's decision: how one subscription's signals
//! become the outbound server-push event sequence of one viewer connection.
//!
//! The connection, its cancellation and the keep-alive heartbeats live in
//! the embedding program; heartbeats are protocol-level comments that never
//! carry the reload token and so never trigger a refresh.

use vstd::prelude::*;

verus! {

/// The literal token a reload event carries on the wire.
pub const RELOAD_TOKEN: &'static str = "reload";

/// What one poll of the subscription yields on the outbound stream: a
/// delivered change signal becomes exactly one event carrying the literal
/// token `reload`; no signal yields no event.
pub fn stream_event(signal: Option<u64>) -> (r: Option<String>)
    ensures
        signal is Some ==> (r matches Some(s) && s@ == RELOAD_TOKEN@),
        signal is None ==> r is None,
{
    match signal {
        Some(_) => Some(String::from_str(RELOAD_TOKEN)),
        None => None,
    }
}

} // verus!
