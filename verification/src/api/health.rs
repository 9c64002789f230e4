//! Whether the service is up.

use vstd::prelude::*;

verus! {

/// What is answered to the question whether the service is up.
#[derive(Debug)]
pub struct HealthResponse {
    pub status: String,
}

/// What is answered to the question how the service is doing.
#[derive(Debug)]
pub struct StatusResponse {
    pub service: String,
    pub version: String,
    pub status: String,
    pub uptime_seconds: u64,
}

/// The service is up.
pub fn health_check() -> (r: HealthResponse)
    ensures
        r.status@ == "ok"@,
{
    HealthResponse { status: String::from_str("ok") }
}

/// The service is running, in this version and for so many seconds.
pub fn status(version: &str, uptime_seconds: u64) -> (r: StatusResponse)
    ensures
        r.service@ == "data-service"@,
        r.version@ == version@,
        r.status@ == "running"@,
        r.uptime_seconds == uptime_seconds,
{
    StatusResponse {
        service: String::from_str("data-service"),
        version: String::from_str(version),
        status: String::from_str("running"),
        uptime_seconds,
    }
}

} // verus!
