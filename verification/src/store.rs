//! The registry store: which instances are registered, by service name and id.
//!
//! The records live in a two-level `DashMap`, service name first, then id. The
//! store is taken by `&mut` wherever it changes, so each operation sees the map as
//! no other task can change it meanwhile, and its contract says what the map holds
//! afterwards.
//!
//! Beside each record the store keeps the number of the registration that put it
//! there. A prober carries the number of the registration that started it, and
//! counts only as long as the record still bears that number.

use crate::types::{ServiceInstance, ServiceInstanceView};
use dashmap::DashMap;
use vstd::prelude::*;

verus! {

#[verifier::external_type_specification]
#[verifier::external_body]
#[verifier::reject_recursive_types(K)]
#[verifier::reject_recursive_types(V)]
#[verifier::reject_recursive_types(S)]
pub struct ExDashMap<K, V, S>(DashMap<K, V, S>);

/// What the pool keeps for one instance.
#[derive(Debug)]
pub struct Stored {
    pub instance: ServiceInstance,
    /// The number of the registration that the record stems from.
    pub generation: u64,
}

impl Clone for Stored {
    fn clone(&self) -> (copy: Stored)
        ensures
            copy.instance@ == self.instance@,
            copy.generation == self.generation,
    {
        Stored { instance: self.instance.clone(), generation: self.generation }
    }
}

/// The instances of one service, by id.
pub type ServiceInstances = DashMap<String, Stored>;

/// The instances of every service, by service name.
pub type RegistryPool = DashMap<String, ServiceInstances>;

pub type ServiceName = String;

pub type ServiceId = String;

/// The key of a record: service name, then id.
pub type RecordKey = (Seq<char>, Seq<char>);

/// What a store holds: at most one record under each key.
pub type Records = Map<RecordKey, ServiceInstanceView>;

/// The number of the registration that each record stems from.
pub type Generations = Map<RecordKey, u64>;

/// The records that a pool holds, by service name and id.
pub uninterp spec fn pool_records(pool: RegistryPool) -> Map<(Seq<char>, Seq<char>), ServiceInstanceView>;

/// The numbers that a pool keeps beside its records, by service name and id.
pub uninterp spec fn pool_generations(pool: RegistryPool) -> Map<(Seq<char>, Seq<char>), u64>;

/// No record at all.
pub open spec fn no_records() -> Records {
    Map::empty()
}

/// No number at all.
pub open spec fn no_generations() -> Generations {
    Map::empty()
}

/// The views of `instances`, one for one.
pub open spec fn instance_views(instances: Seq<ServiceInstance>) -> Seq<ServiceInstanceView> {
    Seq::new(instances.len(), |i: int| instances[i]@)
}

/// Every record is kept under its own service name and id.
pub open spec fn keyed(records: Records) -> bool {
    forall|k: RecordKey| #[trigger] records.dom().contains(k) ==> records[k].key() == k
}

/// `listed` holds the records of the service `name`, each once, and nothing else.
pub open spec fn lists_service(
    records: Records,
    name: Seq<char>,
    listed: Seq<ServiceInstanceView>,
) -> bool {
    &&& forall|i: int|
        0 <= i < listed.len() ==> records.dom().contains((name, (#[trigger] listed[i]).id))
            && records[(name, listed[i].id)] == listed[i]
    &&& forall|i: int, j: int|
        0 <= i < j < listed.len() ==> (#[trigger] listed[i]).id != (#[trigger] listed[j]).id
    &&& forall|id: Seq<char>| #[trigger]
        records.dom().contains((name, id)) ==> exists|i: int|
            0 <= i < listed.len() && (#[trigger] listed[i]).id == id
}

/// `DashMap::new`: a pool that holds no record.
#[verifier::external_body]
fn pool_new() -> (pool: RegistryPool)
    ensures
        pool_records(pool) == no_records(),
        pool_generations(pool) == no_generations(),
{
    DashMap::new()
}

/// `DashMap::get` on the pool, then on the service's map: a copy of what is kept
/// under `name` and `id`, if anything is.
#[verifier::external_body]
fn pool_find(pool: &RegistryPool, name: &String, id: &String) -> (found: Option<Stored>)
    ensures
        found is Some == pool_records(*pool).dom().contains((name@, id@)),
        found matches Some(kept) ==> kept.instance@ == pool_records(*pool)[(name@, id@)],
        found matches Some(kept) ==> kept.generation == pool_generations(*pool)[(name@, id@)],
{
    pool.get(name).and_then(|instances| instances.get(id).map(|kept| kept.value().clone()))
}

/// `DashMap::entry` with `Entry::or_default` on the pool, then `DashMap::insert` on
/// the service's map: the record and its number are kept under the service name
/// and id of the record, in place of what was there, and nothing else changes.
#[verifier::external_body]
fn pool_put(pool: &mut RegistryPool, kept: Stored)
    ensures
        pool_records(*final(pool)) == pool_records(*old(pool)).insert(
            kept.instance@.key(),
            kept.instance@,
        ),
        pool_generations(*final(pool)) == pool_generations(*old(pool)).insert(
            kept.instance@.key(),
            kept.generation,
        ),
{
    pool.entry(kept.instance.name.clone()).or_default().insert(kept.instance.id.clone(), kept);
}

/// `DashMap::get` on the pool, then `DashMap::remove` on the service's map: what
/// is kept under `name` and `id` leaves the pool and is handed out, and nothing
/// else changes.
#[verifier::external_body]
fn pool_take(pool: &mut RegistryPool, name: &String, id: &String) -> (taken: Option<Stored>)
    ensures
        pool_records(*final(pool)) == pool_records(*old(pool)).remove((name@, id@)),
        pool_generations(*final(pool)) == pool_generations(*old(pool)).remove((name@, id@)),
        taken is Some == pool_records(*old(pool)).dom().contains((name@, id@)),
        taken matches Some(kept) ==> kept.instance@ == pool_records(*old(pool))[(name@, id@)],
        taken matches Some(kept) ==> kept.generation == pool_generations(*old(pool))[(name@, id@)],
{
    pool.get(name).and_then(|instances| instances.remove(id)).map(|pair| pair.1)
}

/// `DashMap::get` on the pool, then `DashMap::iter` on the service's map: a copy
/// of each record of the service, in the order in which the map hands them out.
/// The map hands out each of its entries once; that tells the records apart by
/// their ids only in a pool that keeps each record under its own id.
#[verifier::external_body]
fn pool_list(pool: &RegistryPool, name: &String) -> (listed: Vec<ServiceInstance>)
    requires
        keyed(pool_records(*pool)),
    ensures
        lists_service(pool_records(*pool), name@, instance_views(listed@)),
{
    pool.get(name)
        .map(|instances| instances.iter().map(|kept| kept.value().instance.clone()).collect())
        .unwrap_or_default()
}

/// The source of truth for membership.
pub struct Store {
    pool: RegistryPool,
}

impl View for Store {
    type V = Records;

    closed spec fn view(&self) -> Records {
        pool_records(self.pool)
    }
}

impl Store {
    /// The number of the registration that each record stems from.
    pub closed spec fn generations(&self) -> Generations {
        pool_generations(self.pool)
    }

    /// Every record is kept under its own service name and id, and bears a number.
    pub open spec fn wf(&self) -> bool {
        keyed(self@) && self.generations().dom() == self@.dom()
    }

    pub fn new() -> (store: Store)
        ensures
            store@ == no_records(),
            store.generations() == no_generations(),
            store.wf(),
    {
        let store = Store { pool: pool_new() };
        assert(store.generations().dom() =~= store@.dom());
        store
    }

    /// Keeps `instance` under its service name and id, with the number
    /// `generation`, and hands out the record that it replaces.
    pub fn upsert(&mut self, instance: ServiceInstance, generation: u64) -> (prior: Option<
        ServiceInstance,
    >)
        requires
            old(self).wf(),
        ensures
            final(self).wf(),
            final(self)@ == old(self)@.insert(instance@.key(), instance@),
            final(self).generations() == old(self).generations().insert(instance@.key(), generation),
            prior is Some == old(self)@.dom().contains(instance@.key()),
            prior matches Some(record) ==> record@ == old(self)@[instance@.key()],
    {
        let prior = match pool_find(&self.pool, &instance.name, &instance.id) {
            Some(kept) => Some(kept.instance),
            None => None,
        };
        pool_put(&mut self.pool, Stored { instance, generation });
        assert(self.generations().dom() =~= self@.dom());
        prior
    }

    /// Takes the record under `name` and `id` out of the store.
    pub fn remove(&mut self, name: &String, id: &String) -> (removed: Option<ServiceInstance>)
        requires
            old(self).wf(),
        ensures
            final(self).wf(),
            final(self)@ == old(self)@.remove((name@, id@)),
            final(self).generations() == old(self).generations().remove((name@, id@)),
            removed is Some == old(self)@.dom().contains((name@, id@)),
            removed matches Some(record) ==> record@ == old(self)@[(name@, id@)],
    {
        let removed = match pool_take(&mut self.pool, name, id) {
            Some(kept) => Some(kept.instance),
            None => None,
        };
        assert(self.generations().dom() =~= self@.dom());
        removed
    }

    /// A copy of the record under `name` and `id`.
    pub fn get(&self, name: &String, id: &String) -> (found: Option<ServiceInstance>)
        ensures
            found is Some == self@.dom().contains((name@, id@)),
            found matches Some(record) ==> record@ == self@[(name@, id@)],
    {
        match pool_find(&self.pool, name, id) {
            Some(kept) => Some(kept.instance),
            None => None,
        }
    }

    /// A copy of the record under `name` and `id`, with its number.
    pub fn find(&self, name: &String, id: &String) -> (found: Option<Stored>)
        ensures
            found is Some == self@.dom().contains((name@, id@)),
            found matches Some(kept) ==> kept.instance@ == self@[(name@, id@)],
            found matches Some(kept) ==> kept.generation == self.generations()[(name@, id@)],
    {
        pool_find(&self.pool, name, id)
    }

    /// Whether a record is kept under `name` and `id`.
    pub fn contains(&self, name: &String, id: &String) -> (held: bool)
        ensures
            held == self@.dom().contains((name@, id@)),
    {
        pool_find(&self.pool, name, id).is_some()
    }

    /// A copy of each record of the service `name`, in no particular order.
    pub fn list(&self, name: &String) -> (listed: Vec<ServiceInstance>)
        requires
            self.wf(),
        ensures
            lists_service(self@, name@, instance_views(listed@)),
    {
        pool_list(&self.pool, name)
    }
}

} // verus!
