//! Host integration point for the Photon WebSocket routes, whose wiring is not part of
//! this console: the router passes through unchanged.
use axum::Router;
use vstd::prelude::*;

verus! {

/// `axum::Router`, the host's HTTP router.
#[verifier::external_type_specification]
#[verifier::external_body]
#[verifier::reject_recursive_types(S)]
pub struct ExRouter<S>(Router<S>);

/// Path of the broadcast job-update socket.
pub const BOSON_JOBS_WS_PATH: &'static str = "/ws/boson-jobs";

/// Path prefix of the per-job run-update socket.
pub const BOSON_JOB_RUN_WS_PREFIX: &'static str = "/ws/boson-job";

/// Merges the console's live-update routes into a host router. No socket routes are
/// wired here, so the router comes back as it was given.
pub fn merge_routes<S>(router: Router<S>) -> (r: Router<S>)
    where
        S: Clone + Send + Sync + 'static,
    ensures
        r == router,
{
    router
}

} // verus!
