//! The hub's own liveness endpoint.

use crate::types::{HealthCheckRequest, HealthCheckResponse, ServingStatus};
use vstd::prelude::*;

verus! {

/// Answers the probes that ask whether the hub itself is alive.
#[derive(Clone, Copy, Debug, Default)]
pub struct HealthService {}

impl HealthService {
    pub fn new() -> (service: HealthService) {
        HealthService {  }
    }

    /// Whatever is asked, the hub serves.
    pub fn check(&self, request: &HealthCheckRequest) -> (response: HealthCheckResponse)
        ensures
            response.status == ServingStatus::Serving.code(),
    {
        HealthCheckResponse { status: ServingStatus::Serving.as_i32() }
    }
}

} // verus!
