//! The hub: the registry store, the broadcast fabric and the operations that
//! registrants, subscribers and probers perform on them.

use crate::fabric::{Delivery, Fabric, Subscription};
use crate::model::{
    is_duplicate, lists_events, prober_for, rejects, takes_effect, tick_keeps, tick_notifies,
    works, HubView, ProberView, CHANNEL_CAPACITY,
};
use crate::prober::{probe_step, seconds_of, status_of, Prober};
use crate::store::{instance_views, Store};
use crate::text::compose_probe_address;
use crate::types::{
    HealthCheckRequest, OperationStatus, QueryRequest, QueryResponse, Service, ServiceInstance,
    ServiceInstanceIdentifier, ServiceInstanceView, ServiceStatus, ServiceView, SubscribeRequest,
};
use vstd::prelude::*;

verus! {

/// Why the hub refuses a request.
#[derive(Clone, Copy, Debug, PartialEq, Eq, Structural)]
pub enum HubError {
    /// The request asks for what the hub cannot do.
    InvalidArgument,
    /// The hub has numbered as many registrations as it can.
    Exhausted,
}

/// The hub's answer to a register request.
#[derive(Debug)]
pub struct Registration {
    pub status: OperationStatus,
    /// What to start a probing loop with, if the request started one.
    pub prober: Option<Prober>,
    /// What became of the event that tells of the registration, if one was made.
    pub delivery: Option<Delivery>,
}

/// The hub's answer to an unregister request.
#[derive(Debug)]
pub struct Unregistration {
    pub status: OperationStatus,
    /// What became of the event that tells of the removal, if one was made.
    pub delivery: Option<Delivery>,
}

/// The hub's answer to a prober's report.
#[derive(Clone, Copy, Debug)]
pub struct Tick {
    /// Whether the prober goes on; if not, it has retired.
    pub keep: bool,
    /// What became of the event that tells of the change, if the status changed.
    pub delivery: Option<Delivery>,
}

/// The views of `events`, one for one.
pub open spec fn event_views(events: Seq<Service>) -> Seq<ServiceView> {
    Seq::new(events.len(), |i: int| events[i]@)
}

/// What the hub answers to a register request that it accepts.
pub open spec fn register_message(duplicate: bool) -> Seq<char> {
    if duplicate {
        "already registered"@
    } else {
        "registered"@
    }
}

/// Why the hub refuses a register request, if it does: a request that asks for
/// probes which are not a positive number of seconds apart is invalid; one that
/// would take effect cannot be numbered once `u64::MAX` numbers are given out.
pub open spec fn register_error(s: HubView, instance: ServiceInstanceView) -> Option<HubError> {
    if rejects(instance) {
        Some(HubError::InvalidArgument)
    } else if !is_duplicate(s.records, instance) && s.issued == u64::MAX {
        Some(HubError::Exhausted)
    } else {
        None
    }
}

/// Why the hub refuses to start a prober anew, if it does.
pub open spec fn arm_error(s: HubView, instance: ServiceInstanceView) -> Option<HubError> {
    if rejects(instance) {
        Some(HubError::InvalidArgument)
    } else if s.issued == u64::MAX {
        Some(HubError::Exhausted)
    } else {
        None
    }
}

/// What the hub answers to an unregister request.
pub open spec fn unregister_message(found: bool) -> Seq<char> {
    if found {
        "unregister service success"@
    } else {
        "service not found"@
    }
}

/// The register center.
pub struct Hub {
    /// Which instances are registered.
    registry_pool: Store,
    /// The channels on which changes are told.
    broadcaster: Fabric,
    /// Whether probes of the loopback address go to the container's host.
    in_container: bool,
    /// How many registrations were numbered.
    issued: u64,
    /// Every event that the hub sent on a channel, heard or not, oldest first.
    published: Ghost<Seq<ServiceView>>,
}

impl View for Hub {
    type V = HubView;

    closed spec fn view(&self) -> HubView {
        HubView {
            records: self.registry_pool@,
            generations: self.registry_pool.generations(),
            issued: self.issued,
            channels: self.broadcaster@,
            published: self.published@,
            in_container: self.in_container,
        }
    }
}

impl Default for Hub {
    fn default() -> (hub: Hub)
        ensures
            hub@ == HubView::empty(false),
            hub.wf(),
    {
        Hub::new()
    }
}

impl Hub {
    /// What holds of a hub between any two operations.
    pub open spec fn wf(&self) -> bool {
        self@.wf()
    }

    /// A hub that holds nothing and probes every instance where it says it is.
    pub fn new() -> (hub: Hub)
        ensures
            hub@ == HubView::empty(false),
            hub.wf(),
    {
        Hub::with_container_loopback(false)
    }

    /// A hub that holds nothing. With `in_container`, probes of instances that
    /// advertise `127.0.0.1` go to the container's host.
    pub fn with_container_loopback(in_container: bool) -> (hub: Hub)
        ensures
            hub@ == HubView::empty(in_container),
            hub.wf(),
    {
        Hub {
            registry_pool: Store::new(),
            broadcaster: Fabric::new(),
            in_container,
            issued: 0,
            published: Ghost(Seq::empty()),
        }
    }

    /// Sends an event that tells of `instance` on the channel of its service, and
    /// says which event it handed to the channel.
    fn broadcast_(instance: ServiceInstance, broadcaster: &Fabric) -> (sent: (
        Delivery,
        Ghost<ServiceView>,
    ))
        ensures
            sent.1@ == instance@.event(),
            sent.0 is NoChannel == !broadcaster@.dom().contains(instance@.name),
            sent.0 matches Delivery::Delivered(receivers) ==> receivers > 0,
    {
        let name = instance.name.clone();
        let event = Service::from(instance);
        let ghost handed = event@;
        let delivery = broadcaster.publish(&name, event);
        (delivery, Ghost(handed))
    }

    /// Tells the subscribers of the instance's service of `instance`. Nothing is
    /// sent if the service has no channel yet; that nobody listens is no failure.
    pub fn broadcast(&mut self, instance: ServiceInstance) -> (delivery: Delivery)
        ensures
            final(self)@ == old(self)@.announce(instance@.event()),
            delivery is NoChannel == !old(self)@.channels.dom().contains(instance@.name),
            delivery matches Delivery::Delivered(receivers) ==> receivers > 0,
    {
        let (delivery, sent) = Self::broadcast_(instance, &self.broadcaster);
        proof {
            if !(delivery is NoChannel) {
                self.published@ = self.published@.push(sent@);
            }
        }
        delivery
    }

    /// What a prober for `instance` is started with: where its probes go, how
    /// often, how long each may take and what each carries.
    fn prober_plan(&self, instance: ServiceInstance, generation: u64) -> (prober: Prober)
        requires
            instance.health_check is Some,
        ensures
            prober@ == prober_for(instance@, generation, self@.in_container),
    {
        let (interval, timeout, endpoint, max_tries) = match &instance.health_check {
            Some(check) => (check.interval, check.timeout, check.endpoint.clone(), check.retries),
            None => (0, 0, String::new(), 0),
        };
        let addr = compose_probe_address(
            instance.scheme(),
            &instance.address,
            instance.port,
            self.in_container,
        );
        Prober {
            instance,
            generation,
            addr,
            interval: seconds_of(interval),
            timeout: seconds_of(timeout),
            request: HealthCheckRequest { service: endpoint },
            max_tries,
        }
    }

    /// Starts a prober anew for `instance`: the prober gets the next number, and so
    /// does the record under the instance's key, so that a prober that was at work
    /// for it stops at its next probe. Refused if the probes are not a positive
    /// number of seconds apart.
    pub fn health_check(&mut self, instance: ServiceInstance) -> (outcome: Result<Prober, HubError>)
        requires
            old(self).wf(),
            instance.health_check is Some,
        ensures
            final(self).wf(),
            final(self)@ == old(self)@.arm(instance@),
            outcome matches Err(error) ==> arm_error(old(self)@, instance@) == Some(error),
            outcome matches Ok(prober) ==> arm_error(old(self)@, instance@) is None && prober@
                == prober_for(instance@, old(self)@.issued, old(self)@.in_container),
    {
        let refused = match &instance.health_check {
            Some(check) => check.interval <= 0,
            None => false,
        };
        if refused {
            return Err(HubError::InvalidArgument);
        }
        if self.issued == u64::MAX {
            return Err(HubError::Exhausted);
        }
        let generation = self.issued;
        match self.registry_pool.get(&instance.name, &instance.id) {
            Some(record) => {
                self.registry_pool.upsert(record, generation);
                assert(self.registry_pool@ =~= old(self).registry_pool@);
            },
            None => {},
        }
        self.issued = generation + 1;
        assert(self@.channels == old(self)@.channels);
        Ok(self.prober_plan(instance, generation))
    }

    /// Registers `request`. A request that repeats a record which is still probed
    /// changes nothing. Any other is kept under the next number, its service gets
    /// a channel, a prober is started if it asks for probes, and its subscribers
    /// are told. A prober that was at work for the instance stops at its next
    /// probe.
    pub fn register_service(&mut self, request: ServiceInstance) -> (outcome: Result<
        Registration,
        HubError,
    >)
        requires
            old(self).wf(),
        ensures
            final(self).wf(),
            final(self)@ == old(self)@.register(request@),
            outcome matches Err(error) ==> register_error(old(self)@, request@) == Some(error),
            outcome matches Ok(done) ==> {
                &&& register_error(old(self)@, request@) is None
                &&& done.status.success
                &&& done.status.message@ == register_message(
                    is_duplicate(old(self)@.records, request@),
                )
                &&& done.prober is Some == (request.health_check is Some && takes_effect(
                    old(self)@,
                    request@,
                ))
                &&& done.prober matches Some(prober) ==> prober@ == prober_for(
                    request@,
                    old(self)@.issued,
                    old(self)@.in_container,
                )
                &&& done.delivery is Some == takes_effect(old(self)@, request@)
                &&& done.delivery matches Some(delivery) ==> !(delivery is NoChannel)
            },
    {
        let instance = request;
        let refused = match &instance.health_check {
            Some(check) => check.interval <= 0,
            None => false,
        };
        if refused {
            return Err(HubError::InvalidArgument);
        }
        let repeated = match self.registry_pool.get(&instance.name, &instance.id) {
            Some(existing) => {
                let probed = match &existing.health_check {
                    Some(check) => check.retries > 0,
                    None => false,
                };
                instance.same(&existing) && probed
            },
            None => false,
        };
        if repeated {
            return Ok(
                Registration {
                    status: OperationStatus {
                        success: true,
                        message: "already registered".to_owned(),
                    },
                    prober: None,
                    delivery: None,
                },
            );
        }
        if self.issued == u64::MAX {
            return Err(HubError::Exhausted);
        }
        let generation = self.issued;
        self.issued = generation + 1;
        self.registry_pool.upsert(instance.clone(), generation);
        self.broadcaster.ensure(instance.name.clone(), CHANNEL_CAPACITY);
        let prober = if instance.health_check.is_some() {
            Some(self.prober_plan(instance.clone(), generation))
        } else {
            None
        };
        let delivery = self.broadcast(instance);
        assert(self@.channels == old(self)@.register(request@).channels);
        Ok(
            Registration {
                status: OperationStatus { success: true, message: "registered".to_owned() },
                prober,
                delivery: Some(delivery),
            },
        )
    }

    /// Unregisters the instance that `request` names and tells the subscribers of
    /// its service of it as it last was.
    pub fn unregister_service(&mut self, request: ServiceInstanceIdentifier) -> (done: Unregistration)
        requires
            old(self).wf(),
        ensures
            final(self).wf(),
            final(self)@ == old(self)@.unregister(request.name@, request.id@),
            done.status.success,
            done.status.message@ == unregister_message(
                old(self)@.records.dom().contains((request.name@, request.id@)),
            ),
            done.delivery is Some == old(self)@.records.dom().contains(
                (request.name@, request.id@),
            ),
            done.delivery matches Some(delivery) ==> !(delivery is NoChannel),
    {
        match self.registry_pool.remove(&request.name, &request.id) {
            Some(instance) => {
                let delivery = self.broadcast(instance);
                assert(self@.channels == old(self)@.channels);
                Unregistration {
                    status: OperationStatus {
                        success: true,
                        message: "unregister service success".to_owned(),
                    },
                    delivery: Some(delivery),
                }
            },
            None => {
                assert(self@.channels == old(self)@.channels);
                Unregistration {
                    status: OperationStatus {
                        success: true,
                        message: "service not found".to_owned(),
                    },
                    delivery: None,
                }
            },
        }
    }

    /// The instances of the service that `request` names, each as a change event,
    /// in no particular order. A service that is not known has none.
    pub fn query_services(&self, request: QueryRequest) -> (response: QueryResponse)
        requires
            self.wf(),
        ensures
            lists_events(self@.records, request.name@, event_views(response.services@)),
    {
        let listed = self.registry_pool.list(&request.name);
        let mut services: Vec<Service> = Vec::new();
        let mut i: usize = 0;
        while i < listed.len()
            invariant
                i <= listed.len(),
                services.len() == i,
                forall|j: int| 0 <= j < i ==> (#[trigger] services@[j])@ == listed@[j]@.event(),
            decreases listed.len() - i,
        {
            services.push(Service::of(&listed[i]));
            i = i + 1;
        }
        proof {
            let records = self@.records;
            let name = request.name@;
            let views = instance_views(listed@);
            let events = event_views(services@);
            assert forall|j: int| 0 <= j < events.len() implies records.dom().contains(
                (name, (#[trigger] events[j]).id),
            ) && records[(name, events[j].id)].event() == events[j] by {
                assert(views[j].id == events[j].id);
            }
            assert forall|j: int, k: int| 0 <= j < k < events.len() implies (#[trigger] events[j]).id
                != (#[trigger] events[k]).id by {
                assert(views[j].id != views[k].id);
            }
            assert forall|id: Seq<char>| #[trigger]
                records.dom().contains((name, id)) implies exists|j: int|
                0 <= j < events.len() && (#[trigger] events[j]).id == id by {
                let j = choose|j: int| 0 <= j < views.len() && (#[trigger] views[j]).id == id;
                assert(events[j].id == id);
            }
        }
        QueryResponse { services }
    }

    /// Subscribes to the service that `request` names, known or not: the
    /// subscription sees the events that are published from now on.
    pub fn subscribe(&mut self, request: SubscribeRequest) -> (subscription: Subscription)
        requires
            old(self).wf(),
        ensures
            final(self).wf(),
            final(self)@ == old(self)@.subscribe(request.service@),
            subscription.service@ == request.service@,
    {
        self.broadcaster.ensure(request.service.clone(), CHANNEL_CAPACITY);
        assert(self@.channels == old(self)@.subscribe(request.service@).channels);
        self.broadcaster.subscribe(&request.service).unwrap()
    }

    /// Counts one probe on the stored record of the prober's instance `i` and
    /// copies the record out to `i`, if the prober is the one at work for it: the
    /// record is there, asks for probes and bears the number `generation`. Says
    /// whether the prober goes on, and whether the status changed. Any other
    /// prober changes nothing and is told to stop.
    pub fn modify_service_status(
        &mut self,
        i: &mut ServiceInstance,
        generation: u64,
        status: ServiceStatus,
        max_tries: i32,
    ) -> (verdict: (bool, bool))
        requires
            old(self).wf(),
            status != ServiceStatus::Unknown,
        ensures
            final(self).wf(),
            final(self)@ == old(self)@.probe(
                old(i)@.key(),
                generation,
                status == ServiceStatus::Up,
                max_tries,
            ),
            verdict.0 == tick_keeps(
                old(self)@,
                old(i)@.key(),
                generation,
                status == ServiceStatus::Up,
                max_tries,
            ),
            verdict.1 == tick_notifies(
                old(self)@,
                old(i)@.key(),
                generation,
                status == ServiceStatus::Up,
            ),
            final(i)@ == (if works(old(self)@, old(i)@.key(), generation) {
                final(self)@.records[old(i)@.key()]
            } else {
                old(i)@
            }),
    {
        let healthy = match status {
            ServiceStatus::Up => true,
            _ => false,
        };
        match self.registry_pool.find(&i.name, &i.id) {
            None => (false, false),
            Some(kept) => {
                let mut record = kept.instance;
                if record.health_check.is_none() || kept.generation != generation {
                    return (false, false);
                }
                let changed = probe_step(&mut record, healthy, max_tries);
                let keep = match &record.health_check {
                    Some(check) => check.retries > 0,
                    None => false,
                };
                self.registry_pool.upsert(record.clone(), generation);
                assert(self@.generations =~= old(self)@.generations);
                *i = record;
                (keep, changed)
            },
        }
    }

    /// Takes a prober's report of one probe. If the prober is the one at work for
    /// its instance, the probe is counted on the stored record and the subscribers
    /// are told of a change of status. Says whether the prober goes on; a prober
    /// that is told to stop has retired.
    pub fn probe_tick(&mut self, prober: &mut Prober, healthy: bool) -> (tick: Tick)
        requires
            old(self).wf(),
        ensures
            final(self).wf(),
            final(self)@ == old(self)@.tick(
                old(prober)@.instance.key(),
                old(prober).generation,
                healthy,
                old(prober).max_tries,
            ),
            tick.keep == tick_keeps(
                old(self)@,
                old(prober)@.instance.key(),
                old(prober).generation,
                healthy,
                old(prober).max_tries,
            ),
            tick.delivery is Some == tick_notifies(
                old(self)@,
                old(prober)@.instance.key(),
                old(prober).generation,
                healthy,
            ),
            tick.delivery matches Some(delivery) ==> !(delivery is NoChannel),
            final(prober)@ == (ProberView {
                instance: if works(
                    old(self)@,
                    old(prober)@.instance.key(),
                    old(prober).generation,
                ) {
                    final(self)@.records[old(prober)@.instance.key()]
                } else {
                    old(prober)@.instance
                },
                ..old(prober)@
            }),
    {
        let (keep, changed) = self.modify_service_status(
            &mut prober.instance,
            prober.generation,
            status_of(healthy),
            prober.max_tries,
        );
        let delivery = if changed {
            Some(self.broadcast(prober.instance.clone()))
        } else {
            None
        };
        assert(self@.channels == old(self)@.channels);
        Tick { keep, delivery }
    }
}

} // verus!
