//! What holds of the hub whatever is asked of it, proved of the state machine in
//! [`crate::model`].

use crate::model::{
    arms, is_duplicate, lists_events, rejects, takes_effect, tick_keeps, tick_notifies, works,
    HubView, Step,
};
use crate::store::{RecordKey, Records};
use crate::types::{ServiceInstanceView, ServiceView};
use vstd::prelude::*;

verus! {

/// Every operation leaves the hub well formed: each record under its own service
/// name and id and with a positive time between its probes, a channel for each
/// registered service, each channel of the fixed capacity.
pub proof fn lemma_step_keeps_wf(s: HubView, step: Step)
    requires
        s.wf(),
    ensures
        s.after(step).wf(),
{
    let t = s.after(step);
    assert(t.generations.dom() =~= t.records.dom());
}

/// Whatever is asked of a new hub, in whatever order, it stays well formed.
pub proof fn lemma_every_state_is_well_formed(in_container: bool, steps: Seq<Step>)
    ensures
        HubView::empty(in_container).run(steps).wf(),
    decreases steps.len(),
{
    if steps.len() > 0 {
        lemma_every_state_is_well_formed(in_container, steps.drop_last());
        lemma_step_keeps_wf(HubView::empty(in_container).run(steps.drop_last()), steps.last());
    }
}

/// The store holds at most one record for a service name and id: a listing of a
/// service names no id twice, and the entry for an id tells of the one record
/// under it.
pub proof fn lemma_one_record_per_key(
    records: Records,
    name: Seq<char>,
    events: Seq<ServiceView>,
    i: int,
    j: int,
)
    requires
        lists_events(records, name, events),
        0 <= i < events.len(),
        0 <= j < events.len(),
        events[i].id == events[j].id,
    ensures
        i == j,
        events[i] == records[(name, events[i].id)].event(),
{
    if i < j {
        assert(events[i].id != events[j].id);
    }
    if j < i {
        assert(events[j].id != events[i].id);
    }
}

/// At most one prober is at work for each service name and id, in every state
/// and whatever was asked of the hub before.
pub proof fn lemma_single_prober(s: HubView)
    ensures
        s.single_prober(),
{
}

/// Of the probers of one instance, at most one is told to go on: any two that
/// are carry the same number.
pub proof fn lemma_one_prober_goes_on(
    s: HubView,
    key: RecordKey,
    first: (u64, bool, i32),
    second: (u64, bool, i32),
)
    requires
        tick_keeps(s, key, first.0, first.1, first.2),
        tick_keeps(s, key, second.0, second.1, second.2),
    ensures
        first.0 == second.0,
{
}

/// A prober that is not the one at work for its instance changes nothing,
/// publishes nothing and is told to stop.
pub proof fn lemma_other_prober_stops(
    s: HubView,
    key: RecordKey,
    generation: u64,
    healthy: bool,
    max_tries: i32,
)
    requires
        !works(s, key, generation),
    ensures
        s.tick(key, generation, healthy, max_tries) == s,
        !tick_keeps(s, key, generation, healthy, max_tries),
        !tick_notifies(s, key, generation, healthy),
{
}

/// No two probers carry the same number: a prober that is started gets a number
/// that no record bears and that no earlier prober got, and the numbers that are
/// given out only grow.
pub proof fn lemma_numbers_are_fresh(s: HubView, step: Step)
    requires
        s.wf(),
    ensures
        s.issued <= s.after(step).issued,
        step matches Step::Register(instance) ==> (takes_effect(s, instance) ==> s.after(
            step,
        ).issued == s.issued + 1),
        step matches Step::Probe(instance) ==> (s.can_arm(instance) ==> s.after(step).issued
            == s.issued + 1),
        forall|k: RecordKey| #[trigger] s.generations.dom().contains(k) ==> s.generations[k] != s.issued,
{
}

/// The numbers that were given out never shrink.
pub proof fn lemma_issued_grows(s: HubView, steps: Seq<Step>)
    requires
        s.wf(),
    ensures
        s.issued <= s.run(steps).issued,
        s.run(steps).wf(),
    decreases steps.len(),
{
    if steps.len() > 0 {
        lemma_issued_grows(s, steps.drop_last());
        lemma_step_keeps_wf(s.run(steps.drop_last()), steps.last());
        lemma_numbers_are_fresh(s.run(steps.drop_last()), steps.last());
    }
}

/// A register request that takes effect hands the instance over to its own
/// prober: a prober that was at work for the key no longer is, whether the record
/// was changed or not, and the one prober that may be at work carries the number
/// of this registration.
pub proof fn lemma_register_hands_over(s: HubView, instance: ServiceInstanceView, generation: u64)
    requires
        s.wf(),
        takes_effect(s, instance),
    ensures
        works(s, instance.key(), generation) ==> !works(
            s.register(instance),
            instance.key(),
            generation,
        ),
        works(s.register(instance), instance.key(), generation) ==> generation == s.issued
            && arms(s, instance),
{
}

/// A prober that is started anew for a registered instance takes the place of
/// the one that was at work for it.
pub proof fn lemma_probe_hands_over(s: HubView, instance: ServiceInstanceView, generation: u64)
    requires
        s.wf(),
        s.can_arm(instance),
    ensures
        works(s, instance.key(), generation) ==> !works(s.arm(instance), instance.key(), generation),
        works(s.arm(instance), instance.key(), generation) ==> generation == s.issued,
{
}

/// Whenever an operation changes the status of a record, it publishes an event
/// that tells of the record with its new status, and nothing else.
pub proof fn lemma_status_change_is_published(s: HubView, step: Step, key: RecordKey)
    requires
        s.wf(),
        s.records.dom().contains(key),
        s.after(step).records.dom().contains(key),
        s.records[key].status != s.after(step).records[key].status,
    ensures
        s.after(step).published == s.published.push(s.after(step).records[key].event()),
        s.after(step).channels.dom().contains(key.0),
{
}

/// An operation publishes at most one event, and takes none back.
pub proof fn lemma_step_publishes_at_most_one(s: HubView, step: Step)
    ensures
        s.after(step).published == s.published || exists|event: ServiceView|
            s.after(step).published == s.published.push(event),
{
    let t = s.after(step);
    if t.published != s.published {
        assert(t.published.len() == s.published.len() + 1);
        assert(t.published =~= s.published.push(t.published.last()));
    }
}

/// A register request that repeats a record which has retries left changes
/// nothing: no prober is started and nothing is published.
pub proof fn lemma_repeated_register_changes_nothing(s: HubView, instance: ServiceInstanceView)
    requires
        is_duplicate(s.records, instance),
    ensures
        s.register(instance) == s,
        !arms(s, instance),
{
}

/// After an instance was unregistered, a prober of it retires with its next
/// probe, whatever the probe found, and changes and publishes nothing.
pub proof fn lemma_prober_retires_after_unregister(
    s: HubView,
    name: Seq<char>,
    id: Seq<char>,
    generation: u64,
    healthy: bool,
    max_tries: i32,
)
    ensures
        !works(s.unregister(name, id), (name, id), generation),
        !tick_keeps(s.unregister(name, id), (name, id), generation, healthy, max_tries),
        s.unregister(name, id).tick((name, id), generation, healthy, max_tries) == s.unregister(
            name,
            id,
        ),
{
}

/// After a register request that was not refused, a listing of the instance's
/// service tells of the instance as it was registered.
pub proof fn lemma_register_then_query(
    s: HubView,
    instance: ServiceInstanceView,
    events: Seq<ServiceView>,
)
    requires
        !rejects(instance),
        s.issued < u64::MAX,
        lists_events(s.register(instance).records, instance.name, events),
    ensures
        exists|i: int| 0 <= i < events.len() && #[trigger] events[i] == instance.event(),
{
    let after = s.register(instance).records;
    assert(after.dom().contains((instance.name, instance.id)));
    let i = choose|i: int| 0 <= i < events.len() && (#[trigger] events[i]).id == instance.id;
    assert(events[i] == after[(instance.name, events[i].id)].event());
}

/// After an unregister request, a listing of the service does not name the id.
pub proof fn lemma_unregister_then_query(
    s: HubView,
    name: Seq<char>,
    id: Seq<char>,
    events: Seq<ServiceView>,
)
    requires
        lists_events(s.unregister(name, id).records, name, events),
    ensures
        forall|i: int| 0 <= i < events.len() ==> (#[trigger] events[i]).id != id,
{
}

/// A channel, once made, stays for good, with the capacity it was made for.
pub proof fn lemma_channels_stay(s: HubView, steps: Seq<Step>, name: Seq<char>)
    requires
        s.channels.dom().contains(name),
    ensures
        s.run(steps).channels.dom().contains(name),
        s.run(steps).channels[name] == s.channels[name],
    decreases steps.len(),
{
    if steps.len() > 0 {
        lemma_channels_stay(s, steps.drop_last(), name);
    }
}

/// A service has a channel as soon as it was registered or subscribed.
pub proof fn lemma_channel_is_made_on_demand(s: HubView, step: Step)
    ensures
        step matches Step::Subscribe(name) ==> s.after(step).channels.dom().contains(name),
        step matches Step::Register(instance) ==> (takes_effect(s, instance) ==> s.after(
            step,
        ).channels.dom().contains(instance.name)),
{
}

/// What was published stays published, in its order: the events of a later state
/// begin with those of an earlier one.
pub proof fn lemma_published_grows(s: HubView, steps: Seq<Step>)
    ensures
        s.published.is_prefix_of(s.run(steps).published),
    decreases steps.len(),
{
    if steps.len() > 0 {
        lemma_published_grows(s, steps.drop_last());
        lemma_step_publishes_at_most_one(s.run(steps.drop_last()), steps.last());
    }
}

} // verus!
