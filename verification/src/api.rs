//! The health answer of the IMPEDANZ API.

use vstd::prelude::*;

verus! {

pub struct HealthResponse {
    /// Always `ok` while the service is able to respond.
    pub status: &'static str,
    /// The crate version of the running server.
    pub version: &'static str,
}

/// The answer to a health probe from a server of version `version`.
pub fn health(version: &'static str) -> (r: HealthResponse)
    ensures
        r.status@ == "ok"@,
        r.version == version,
{
    HealthResponse { status: "ok", version }
}

} // verus!
