//! The readiness probe's verdict.
//!
//! Two lightweight reachability probes — one at the store's endpoint, one
//! at the schema registry — run outside and report their booleans here.
//! The probe is informational only and never sits on the read/write path.

use vstd::prelude::*;

verus! {

/// Overall readiness: ready only when both the store and the schema
/// registry answered, with the fixed body each verdict carries.
pub fn readiness_check(store_ready: bool, registry_ready: bool) -> (r: (bool, String))
    ensures
        r.0 == (store_ready && registry_ready),
        store_ready && registry_ready ==> r.1@ == "{\"dynamodb\":true,\"kafka_reachable\":true}"@,
        !(store_ready && registry_ready) ==> r.1@ == "readiness_check: Readiness Check failed"@,
{
    if store_ready && registry_ready {
        (true, String::from_str("{\"dynamodb\":true,\"kafka_reachable\":true}"))
    } else {
        (false, String::from_str("readiness_check: Readiness Check failed"))
    }
}

} // verus!
