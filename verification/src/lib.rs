//! Verified core of a game-server supervisor: the declarative server
//! configuration, its canonical serialized form, and the idempotent
//! reconciliation logic that converges a container runtime to a single
//! running, correctly-mounted, deterministically-named container per
//! logical server.

use vstd::prelude::*;

pub mod docker;
pub mod exec;
pub mod json;
pub mod model;
pub mod server;

verus! {

/// The deterministic container name for a logical server identifier.
pub open spec fn spec_container_name(id: Seq<char>) -> Seq<char> {
    "swndr-"@ + id
}

} // verus!
