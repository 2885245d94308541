//! The health prober: what a probing loop is started with, and what one probe
//! makes of the record that it is about.
//!
//! The loop itself sleeps and calls the probed process, so it runs outside this
//! library. It hands each probe's result to [`crate::hub::Hub::probe_tick`] and
//! stops when that says so. A loop whose instance was registered anew meanwhile
//! is told to stop at its next probe, so that one loop at most is at work for an
//! instance.

use crate::model::{probe_status, probed, retries_after, seconds, ProberView};
use crate::types::{HealthCheckRequest, ServiceInstance, ServiceStatus};
use vstd::prelude::*;

verus! {

/// What a probing loop is started with.
#[derive(Debug)]
pub struct Prober {
    /// The loop's copy of the instance, as the store last held it.
    pub instance: ServiceInstance,
    /// The number of the registration that started the loop. The loop counts only
    /// as long as the stored record bears this number.
    pub generation: u64,
    /// Where the probes go.
    pub addr: String,
    /// Seconds between two probes.
    pub interval: u64,
    /// Seconds a probe may take.
    pub timeout: u64,
    /// What each probe carries.
    pub request: HealthCheckRequest,
    /// The number of retries that a healthy probe restores.
    pub max_tries: i32,
}

impl View for Prober {
    type V = ProberView;

    open spec fn view(&self) -> ProberView {
        ProberView {
            instance: self.instance@,
            generation: self.generation,
            addr: self.addr@,
            interval: self.interval,
            timeout: self.timeout,
            endpoint: self.request.service@,
            max_tries: self.max_tries,
        }
    }
}

/// A number of seconds as the unsigned number of the same 64 bits.
pub fn seconds_of(value: i32) -> (secs: u64)
    ensures
        secs == seconds(value),
{
    if value >= 0 {
        value as u64
    } else {
        u64::MAX - ((-(value + 1)) as u64)
    }
}

/// The status that a probe stands for.
pub fn status_of(healthy: bool) -> (status: ServiceStatus)
    ensures
        status == probe_status(healthy),
{
    if healthy {
        ServiceStatus::Up
    } else {
        ServiceStatus::Down
    }
}

/// Counts one probe on `record`: the record takes the probe's status, a healthy
/// probe restores its retries, and a failed probe of a record that was down
/// already costs one. Says whether the status changed.
pub fn probe_step(record: &mut ServiceInstance, healthy: bool, max_tries: i32) -> (changed: bool)
    requires
        old(record).health_check is Some,
    ensures
        final(record)@ == probed(old(record)@, healthy, max_tries),
        final(record).health_check is Some,
        changed == (old(record).status != probe_status(healthy).code()),
{
    let status = status_of(healthy).as_i32();
    let was = record.status;
    let retries = match &record.health_check {
        Some(check) => check.retries,
        None => 0,
    };
    let left = if healthy {
        max_tries
    } else if was == ServiceStatus::Down.as_i32() {
        if retries > i32::MIN {
            retries - 1
        } else {
            retries
        }
    } else {
        retries
    };
    assert(left == retries_after(was, retries, healthy, max_tries));
    record.status = status;
    match &mut record.health_check {
        Some(check) => {
            check.retries = left;
        },
        None => {},
    }
    assert(record@ =~= probed(old(record)@, healthy, max_tries));
    was != status
}

} // verus!
