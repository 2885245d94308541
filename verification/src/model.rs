//! The hub as a state machine: what it holds, and what each operation makes of it.
//!
//! The executable hub in [`crate::hub`] follows these functions: each of its
//! operations ends in the state that the function here gives for the state in
//! which it began.

use crate::fabric::Limits;
use crate::store::{keyed, Generations, RecordKey, Records};
use crate::text::probe_address;
use crate::types::{
    HealthCheckView, Scheme, ServiceInstanceView, ServiceStatus, ServiceView,
};
use vstd::prelude::*;

verus! {

/// How many events each channel of the fabric is made to hold.
pub const CHANNEL_CAPACITY: usize = 100;

/// What a hub holds.
#[verifier::ext_equal]
pub struct HubView {
    /// The registered instances, at most one under each service name and id.
    pub records: Records,
    /// The number of the registration that each record stems from. A prober
    /// counts for a record only while it carries the record's number.
    pub generations: Generations,
    /// How many numbers were given out; the next registration gets this one.
    pub issued: u64,
    /// The channels of the fabric, each with the number of events it was made for.
    pub channels: Limits,
    /// Every event that the hub sent on a channel, heard or not, oldest first.
    pub published: Seq<ServiceView>,
    /// Whether the hub runs in a container and probes its host's loopback by name.
    pub in_container: bool,
}

/// What a prober is started with.
#[verifier::ext_equal]
pub struct ProberView {
    /// The prober's copy of the instance.
    pub instance: ServiceInstanceView,
    /// The number of the registration that started the prober.
    pub generation: u64,
    /// Where the probes go.
    pub addr: Seq<char>,
    /// Seconds between two probes.
    pub interval: u64,
    /// Seconds a probe may take.
    pub timeout: u64,
    /// What each probe carries.
    pub endpoint: Seq<char>,
    /// The number of retries that a healthy probe restores.
    pub max_tries: i32,
}

/// One operation on a hub.
pub enum Step {
    Register(ServiceInstanceView),
    Unregister(Seq<char>, Seq<char>),
    Subscribe(Seq<char>),
    /// A prober of the instance under the key reports a probe: the number that the
    /// prober carries, whether the probe was healthy, and the number of retries
    /// that the prober restores.
    Tick(RecordKey, u64, bool, i32),
    /// A prober is started anew for an instance.
    Probe(ServiceInstanceView),
    /// An event that tells of the instance is published.
    Broadcast(ServiceInstanceView),
}

/// The status that a probe stands for.
pub open spec fn probe_status(healthy: bool) -> ServiceStatus {
    if healthy {
        ServiceStatus::Up
    } else {
        ServiceStatus::Down
    }
}

/// A number of retries lowered by one, as far as the type reaches.
pub open spec fn lowered(retries: i32) -> i32 {
    if retries > i32::MIN {
        (retries - 1) as i32
    } else {
        retries
    }
}

/// A number of seconds as the unsigned number of the same 64 bits.
pub open spec fn seconds(value: i32) -> u64 {
    if value >= 0 {
        value as u64
    } else {
        (value + 0x1_0000_0000_0000_0000) as u64
    }
}

/// The retries that a probed record has left after a probe.
pub open spec fn retries_after(
    status: i32,
    retries: i32,
    healthy: bool,
    max_tries: i32,
) -> i32 {
    if healthy {
        max_tries
    } else if status == ServiceStatus::Down.code() {
        lowered(retries)
    } else {
        retries
    }
}

/// A record after a probe: its status is the probe's, a healthy probe restores its
/// retries, and a failed probe of a record that was down already costs one.
pub open spec fn probed(record: ServiceInstanceView, healthy: bool, max_tries: i32) -> ServiceInstanceView
    recommends
        record.health_check is Some,
{
    let check = record.health_check->0;
    ServiceInstanceView {
        status: probe_status(healthy).code() as i32,
        health_check: Some(
            HealthCheckView {
                retries: retries_after(record.status, check.retries, healthy, max_tries),
                ..check
            },
        ),
        ..record
    }
}

/// Whether a register request is refused: it asks for probes that are not a
/// positive number of seconds apart.
pub open spec fn rejects(instance: ServiceInstanceView) -> bool {
    instance.health_check matches Some(check) && check.interval <= 0
}

/// Whether a register request repeats what is registered and still probed: the
/// record under its key equals it in every field and has retries left.
pub open spec fn is_duplicate(records: Records, instance: ServiceInstanceView) -> bool {
    &&& records.dom().contains(instance.key())
    &&& records[instance.key()] == instance
    &&& instance.health_check matches Some(check) && check.retries > 0
}

/// Whether a register request changes the hub. The last request that a hub can
/// number is the one before `u64::MAX`.
pub open spec fn takes_effect(s: HubView, instance: ServiceInstanceView) -> bool {
    !rejects(instance) && !is_duplicate(s.records, instance) && s.issued < u64::MAX
}

/// Whether a register request starts a prober.
pub open spec fn arms(s: HubView, instance: ServiceInstanceView) -> bool {
    takes_effect(s, instance) && instance.health_check is Some
}

/// Whether the instance under `key` is there and asks for probes.
pub open spec fn probes(records: Records, key: RecordKey) -> bool {
    records.dom().contains(key) && records[key].health_check is Some
}

/// Whether the prober that carries `generation` is the one at work for the
/// instance under `key`: the record is there, asks for probes and bears the
/// prober's number.
pub open spec fn works(s: HubView, key: RecordKey, generation: u64) -> bool {
    probes(s.records, key) && s.generations.dom().contains(key) && s.generations[key] == generation
}

/// Whether a prober goes on after a probe: it is the one at work for its record,
/// and the record has retries left.
pub open spec fn tick_keeps(
    s: HubView,
    key: RecordKey,
    generation: u64,
    healthy: bool,
    max_tries: i32,
) -> bool {
    works(s, key, generation) && probed(s.records[key], healthy, max_tries).health_check->0.retries
        > 0
}

/// Whether a probe changes the status of its record.
pub open spec fn tick_notifies(s: HubView, key: RecordKey, generation: u64, healthy: bool) -> bool {
    works(s, key, generation) && s.records[key].status != probe_status(healthy).code()
}

/// What a prober for `instance` is started with.
pub open spec fn prober_for(
    instance: ServiceInstanceView,
    generation: u64,
    in_container: bool,
) -> ProberView
    recommends
        instance.health_check is Some,
{
    let check = instance.health_check->0;
    ProberView {
        instance,
        generation,
        addr: probe_address(
            Scheme::of_code(instance.scheme as int),
            instance.address,
            instance.port,
            in_container,
        ),
        interval: seconds(check.interval),
        timeout: seconds(check.timeout),
        endpoint: check.endpoint,
        max_tries: check.retries,
    }
}

impl HubView {
    /// A hub that holds nothing.
    pub open spec fn empty(in_container: bool) -> HubView {
        HubView {
            records: Map::empty(),
            generations: Map::empty(),
            issued: 0,
            channels: Map::empty(),
            published: Seq::empty(),
            in_container,
        }
    }

    /// What holds of every hub: each record is kept under its own service name and
    /// id and bears a number that was given out, at most one prober is at work for
    /// each, none asks for probes that are not a positive number of seconds apart,
    /// each registered service has a channel, and each channel was made for
    /// [`CHANNEL_CAPACITY`] events.
    pub open spec fn wf(self) -> bool {
        &&& keyed(self.records)
        &&& self.single_prober()
        &&& self.generations.dom() == self.records.dom()
        &&& forall|k: RecordKey| #[trigger]
            self.generations.dom().contains(k) ==> self.generations[k] < self.issued
        &&& forall|k: RecordKey| #[trigger] self.records.dom().contains(k) ==> !rejects(self.records[k])
        &&& forall|k: RecordKey| #[trigger]
            self.records.dom().contains(k) ==> self.channels.dom().contains(k.0)
        &&& forall|name: Seq<char>| #[trigger]
            self.channels.dom().contains(name) ==> self.channels[name] == CHANNEL_CAPACITY
    }

    /// At most one prober is at work for each service name and id: any two
    /// probers at work for one instance carry the same number.
    pub open spec fn single_prober(self) -> bool {
        forall|k: RecordKey, g1: u64, g2: u64|
            #[trigger] works(self, k, g1) && #[trigger] works(self, k, g2) ==> g1 == g2
    }

    /// The hub after the service `name` was given a channel, if it had none.
    pub open spec fn ensure(self, name: Seq<char>) -> HubView {
        HubView {
            channels: crate::fabric::with_channel(self.channels, name, CHANNEL_CAPACITY as nat),
            ..self
        }
    }

    /// The hub after `event` was handed to the fabric: it is sent if its service
    /// has a channel.
    pub open spec fn announce(self, event: ServiceView) -> HubView {
        if self.channels.dom().contains(event.name) {
            HubView { published: self.published.push(event), ..self }
        } else {
            self
        }
    }

    /// Whether a prober can be started anew for `instance`.
    pub open spec fn can_arm(self, instance: ServiceInstanceView) -> bool {
        !rejects(instance) && self.issued < u64::MAX
    }

    /// The hub after a prober was started anew for `instance`: the prober gets the
    /// next number, and so does the record under the instance's key, if there is
    /// one; a prober that was at work for it no longer is.
    pub open spec fn arm(self, instance: ServiceInstanceView) -> HubView {
        if !self.can_arm(instance) {
            self
        } else if self.records.dom().contains(instance.key()) {
            HubView {
                generations: self.generations.insert(instance.key(), self.issued),
                issued: (self.issued + 1) as u64,
                ..self
            }
        } else {
            HubView { issued: (self.issued + 1) as u64, ..self }
        }
    }

    /// The hub after a register request: a refused or repeated request changes
    /// nothing; any other is kept in place of the record under its key and gets
    /// the next number, its service gets a channel, and an event that tells of it
    /// is published. A prober that was at work for the key no longer is; if the
    /// request asks for probes, a prober with the new number is.
    pub open spec fn register(self, instance: ServiceInstanceView) -> HubView {
        if !takes_effect(self, instance) {
            self
        } else {
            HubView {
                records: self.records.insert(instance.key(), instance),
                generations: self.generations.insert(instance.key(), self.issued),
                issued: (self.issued + 1) as u64,
                ..self
            }.ensure(instance.name).announce(instance.event())
        }
    }

    /// The hub after an unregister request: the record under the key leaves, and
    /// an event that tells of it as it last was is published.
    pub open spec fn unregister(self, name: Seq<char>, id: Seq<char>) -> HubView {
        if self.records.dom().contains((name, id)) {
            HubView {
                records: self.records.remove((name, id)),
                generations: self.generations.remove((name, id)),
                ..self
            }.announce(self.records[(name, id)].event())
        } else {
            self
        }
    }

    /// The hub after a subscribe request: the service has a channel.
    pub open spec fn subscribe(self, name: Seq<char>) -> HubView {
        self.ensure(name)
    }

    /// The hub after a prober that carries `generation` had its probe counted: the
    /// record takes the probe's status and its retries are counted, if the prober
    /// is the one at work for it.
    pub open spec fn probe(
        self,
        key: RecordKey,
        generation: u64,
        healthy: bool,
        max_tries: i32,
    ) -> HubView {
        if works(self, key, generation) {
            HubView {
                records: self.records.insert(key, probed(self.records[key], healthy, max_tries)),
                ..self
            }
        } else {
            self
        }
    }

    /// The hub after a prober reported a probe: if the prober is the one at work
    /// for its record, the record takes the probe's status, its retries are
    /// counted, and a change of status is published. Any other prober changes
    /// nothing.
    pub open spec fn tick(
        self,
        key: RecordKey,
        generation: u64,
        healthy: bool,
        max_tries: i32,
    ) -> HubView {
        let counted = self.probe(key, generation, healthy, max_tries);
        if tick_notifies(self, key, generation, healthy) {
            counted.announce(counted.records[key].event())
        } else {
            counted
        }
    }

    /// The hub after `steps`, one after the other.
    pub open spec fn run(self, steps: Seq<Step>) -> HubView
        decreases steps.len(),
    {
        if steps.len() == 0 {
            self
        } else {
            self.run(steps.drop_last()).after(steps.last())
        }
    }

    /// The hub after `step`.
    pub open spec fn after(self, step: Step) -> HubView {
        match step {
            Step::Register(instance) => self.register(instance),
            Step::Unregister(name, id) => self.unregister(name, id),
            Step::Subscribe(name) => self.subscribe(name),
            Step::Tick(key, generation, healthy, max_tries) => self.tick(
                key,
                generation,
                healthy,
                max_tries,
            ),
            Step::Probe(instance) => self.arm(instance),
            Step::Broadcast(instance) => self.announce(instance.event()),
        }
    }
}

/// `events` tell of the records of the service `name`, each once, and of nothing
/// else.
pub open spec fn lists_events(records: Records, name: Seq<char>, events: Seq<ServiceView>) -> bool {
    &&& forall|i: int|
        0 <= i < events.len() ==> records.dom().contains((name, (#[trigger] events[i]).id))
            && records[(name, events[i].id)].event() == events[i]
    &&& forall|i: int, j: int|
        0 <= i < j < events.len() ==> (#[trigger] events[i]).id != (#[trigger] events[j]).id
    &&& forall|id: Seq<char>| #[trigger]
        records.dom().contains((name, id)) ==> exists|i: int|
            0 <= i < events.len() && (#[trigger] events[i]).id == id
}

} // verus!
