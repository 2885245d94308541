//! The messages that registrants, subscribers and probers exchange with the hub,
//! and their mathematical views.

use vstd::prelude::*;

verus! {

/// The URI scheme under which an instance is reached.
#[derive(Clone, Copy, Debug, PartialEq, Eq, Structural)]
pub enum Scheme {
    Http,
    Https,
}

/// The health of an instance as the hub last saw it.
#[derive(Clone, Copy, Debug, PartialEq, Eq, Structural)]
pub enum ServiceStatus {
    Unknown,
    Up,
    Down,
}

/// What a process answers to a health probe.
#[derive(Clone, Copy, Debug, PartialEq, Eq, Structural)]
pub enum ServingStatus {
    Unknown,
    Serving,
    NotServing,
    ServiceUnknown,
}

impl Scheme {
    /// The number that stands for this scheme on the wire.
    pub open spec fn code(self) -> int {
        match self {
            Scheme::Http => 0,
            Scheme::Https => 1,
        }
    }

    /// The scheme that a wire number stands for; every number but 1 is `Http`.
    pub open spec fn of_code(code: int) -> Scheme {
        if code == 1 {
            Scheme::Https
        } else {
            Scheme::Http
        }
    }

    /// The scheme that a name stands for; every text but `https` is `Http`.
    pub open spec fn of_name(name: Seq<char>) -> Scheme {
        if name == "https"@ {
            Scheme::Https
        } else {
            Scheme::Http
        }
    }

    /// The scheme's name as it stands in a URI.
    pub open spec fn name(self) -> Seq<char> {
        match self {
            Scheme::Http => "http"@,
            Scheme::Https => "https"@,
        }
    }

    pub fn as_i32(self) -> (code: i32)
        ensures
            code == self.code(),
    {
        match self {
            Scheme::Http => 0,
            Scheme::Https => 1,
        }
    }

    pub fn from_i32(code: i32) -> (scheme: Scheme)
        ensures
            scheme == Scheme::of_code(code as int),
    {
        if code == 1 {
            Scheme::Https
        } else {
            Scheme::Http
        }
    }

    pub fn from_u8(value: u8) -> (scheme: Scheme)
        ensures
            scheme == Scheme::of_code(value as int),
    {
        match value {
            1 => Scheme::Https,
            _ => Scheme::Http,
        }
    }

    pub fn from_name(value: &str) -> (scheme: Scheme)
        ensures
            scheme == Scheme::of_name(value@),
    {
        if str_equal(value, "https") {
            Scheme::Https
        } else {
            Scheme::Http
        }
    }

    pub fn as_str(self) -> (name: &'static str)
        ensures
            name@ == self.name(),
    {
        match self {
            Scheme::Http => "http",
            Scheme::Https => "https",
        }
    }

    pub fn to_string(&self) -> (name: String)
        ensures
            name@ == self.name(),
    {
        self.as_str().to_owned()
    }
}

/// The scheme that a wire number stands for; every number but 1 is `Http`.
impl From<u8> for Scheme {
    fn from(value: u8) -> (scheme: Scheme) {
        Scheme::from_u8(value)
    }
}

impl vstd::std_specs::convert::FromSpecImpl<u8> for Scheme {
    open spec fn obeys_from_spec() -> bool {
        true
    }

    open spec fn from_spec(value: u8) -> Scheme {
        Scheme::of_code(value as int)
    }
}

/// The scheme that a name stands for; every text but `https` is `Http`.
impl From<&str> for Scheme {
    fn from(value: &str) -> (scheme: Scheme) {
        Scheme::from_name(value)
    }
}

impl vstd::std_specs::convert::FromSpecImpl<&str> for Scheme {
    open spec fn obeys_from_spec() -> bool {
        true
    }

    open spec fn from_spec(value: &str) -> Scheme {
        Scheme::of_name(value@)
    }
}

impl ServiceStatus {
    /// The number that stands for this status on the wire.
    pub open spec fn code(self) -> int {
        match self {
            ServiceStatus::Unknown => 0,
            ServiceStatus::Up => 1,
            ServiceStatus::Down => 2,
        }
    }

    pub fn as_i32(self) -> (code: i32)
        ensures
            code == self.code(),
    {
        match self {
            ServiceStatus::Unknown => 0,
            ServiceStatus::Up => 1,
            ServiceStatus::Down => 2,
        }
    }
}

impl ServingStatus {
    /// The number that stands for this answer on the wire.
    pub open spec fn code(self) -> int {
        match self {
            ServingStatus::Unknown => 0,
            ServingStatus::Serving => 1,
            ServingStatus::NotServing => 2,
            ServingStatus::ServiceUnknown => 3,
        }
    }

    pub fn as_i32(self) -> (code: i32)
        ensures
            code == self.code(),
    {
        match self {
            ServingStatus::Unknown => 0,
            ServingStatus::Serving => 1,
            ServingStatus::NotServing => 2,
            ServingStatus::ServiceUnknown => 3,
        }
    }
}

/// How the hub probes an instance.
#[derive(Debug)]
pub struct HealthCheck {
    /// Handed to the probed process with every probe.
    pub endpoint: String,
    /// Seconds between two probes.
    pub interval: i32,
    /// Seconds a probe may take.
    pub timeout: i32,
    /// How many failed probes in a row the hub bears.
    pub retries: i32,
    pub scheme: i32,
    pub tls_domain: Option<String>,
}

#[verifier::ext_equal]
pub struct HealthCheckView {
    pub endpoint: Seq<char>,
    pub interval: i32,
    pub timeout: i32,
    pub retries: i32,
    pub scheme: i32,
    pub tls_domain: Option<Seq<char>>,
}

/// The view of a text that may be missing.
pub open spec fn text_option(text: Option<String>) -> Option<Seq<char>> {
    match text {
        Some(t) => Some(t@),
        None => None,
    }
}

impl View for HealthCheck {
    type V = HealthCheckView;

    open spec fn view(&self) -> HealthCheckView {
        HealthCheckView {
            endpoint: self.endpoint@,
            interval: self.interval,
            timeout: self.timeout,
            retries: self.retries,
            scheme: self.scheme,
            tls_domain: text_option(self.tls_domain),
        }
    }
}

impl Clone for HealthCheck {
    fn clone(&self) -> (copy: HealthCheck)
        ensures
            copy == *self,
    {
        let tls_domain = match &self.tls_domain {
            Some(domain) => Some(domain.clone()),
            None => None,
        };
        HealthCheck {
            endpoint: self.endpoint.clone(),
            interval: self.interval,
            timeout: self.timeout,
            retries: self.retries,
            scheme: self.scheme,
            tls_domain,
        }
    }
}

impl HealthCheck {
    /// Whether two health checks agree in every field.
    pub fn same(&self, other: &HealthCheck) -> (same: bool)
        ensures
            same == (self@ == other@),
    {
        let domains = match (&self.tls_domain, &other.tls_domain) {
            (Some(a), Some(b)) => *a == *b,
            (None, None) => true,
            _ => false,
        };
        self.endpoint == other.endpoint && self.interval == other.interval && self.timeout
            == other.timeout && self.retries == other.retries && self.scheme == other.scheme
            && domains
    }
}

/// What `entries` hold as a mapping: of two entries under one key the later counts.
pub open spec fn entries_map(entries: Seq<(String, String)>) -> Map<Seq<char>, Seq<char>>
    decreases entries.len(),
{
    if entries.len() == 0 {
        Map::empty()
    } else {
        entries_map(entries.drop_last()).insert(entries.last().0@, entries.last().1@)
    }
}

/// The views of `texts`, one for one.
pub open spec fn text_views(texts: Seq<String>) -> Seq<Seq<char>> {
    Seq::new(texts.len(), |i: int| texts[i]@)
}

/// A key is in the mapping exactly when an entry carries it.
pub proof fn lemma_entries_map_dom(entries: Seq<(String, String)>, key: Seq<char>)
    ensures
        entries_map(entries).dom().contains(key) <==> exists|i: int|
            0 <= i < entries.len() && (#[trigger] entries[i]).0@ == key,
    decreases entries.len(),
{
    if entries.len() > 0 {
        let front = entries.drop_last();
        lemma_entries_map_dom(front, key);
        if entries_map(entries).dom().contains(key) {
            if entries.last().0@ == key {
                assert(entries[entries.len() - 1].0@ == key);
            } else {
                let i = choose|i: int| 0 <= i < front.len() && (#[trigger] front[i]).0@ == key;
                assert(entries[i].0@ == key);
            }
        }
        if exists|i: int| 0 <= i < entries.len() && (#[trigger] entries[i]).0@ == key {
            let i = choose|i: int| 0 <= i < entries.len() && (#[trigger] entries[i]).0@ == key;
            if i < entries.len() - 1 {
                assert(front[i].0@ == key);
            }
        }
    }
}

/// Entries behind `from` that do not carry `key` do not count for it.
proof fn lemma_entries_map_prefix(entries: Seq<(String, String)>, key: Seq<char>, from: int)
    requires
        0 <= from <= entries.len(),
        forall|j: int| from <= j < entries.len() ==> (#[trigger] entries[j]).0@ != key,
    ensures
        entries_map(entries).dom().contains(key) == entries_map(entries.take(from)).dom().contains(
            key,
        ),
        entries_map(entries).dom().contains(key) ==> entries_map(entries)[key] == entries_map(
            entries.take(from),
        )[key],
    decreases entries.len() - from,
{
    if from == entries.len() {
        assert(entries.take(from) =~= entries);
    } else {
        let front = entries.drop_last();
        assert(entries[entries.len() - 1].0@ != key);
        lemma_entries_map_prefix(front, key, from);
        assert(front.take(from) =~= entries.take(from));
    }
}

/// The value that `entries` hold under `key`.
pub fn entries_get<'a>(entries: &'a Vec<(String, String)>, key: &String) -> (value: Option<
    &'a String,
>)
    ensures
        value is Some == entries_map(entries@).dom().contains(key@),
        value matches Some(v) ==> v@ == entries_map(entries@)[key@],
{
    let mut i: usize = entries.len();
    while i > 0
        invariant
            i <= entries.len(),
            forall|j: int| i <= j < entries.len() ==> (#[trigger] entries@[j]).0@ != key@,
        decreases i,
    {
        i = i - 1;
        if entries[i].0 == *key {
            proof {
                lemma_entries_map_prefix(entries@, key@, i + 1);
                let upto = entries@.take(i + 1);
                assert(upto.last() == entries@[i as int]);
            }
            return Some(&entries[i].1);
        }
    }
    proof {
        lemma_entries_map_prefix(entries@, key@, 0);
        assert(entries@.take(0).len() == 0);
    }
    None
}

/// Whether every key of `a` has in `b` the value that it has in `a`.
fn entries_within(a: &Vec<(String, String)>, b: &Vec<(String, String)>) -> (within: bool)
    ensures
        within == entries_map(a@).submap_of(entries_map(b@)),
{
    let mut i: usize = 0;
    while i < a.len()
        invariant
            i <= a.len(),
            forall|j: int|
                0 <= j < i ==> entries_map(b@).dom().contains((#[trigger] a@[j]).0@) && entries_map(
                    b@,
                )[a@[j].0@] == entries_map(a@)[a@[j].0@],
        decreases a.len() - i,
    {
        let key = &a[i].0;
        let mine = entries_get(a, key);
        let theirs = entries_get(b, key);
        proof {
            lemma_entries_map_dom(a@, key@);
            assert(a@[i as int].0@ == key@);
        }
        let agree = match (mine, theirs) {
            (Some(x), Some(y)) => *x == *y,
            _ => false,
        };
        if !agree {
            return false;
        }
        i = i + 1;
    }
    proof {
        assert forall|k: Seq<char>| #[trigger] entries_map(a@).dom().contains(k) implies entries_map(
            b@,
        ).dom().contains(k) && entries_map(a@)[k] == entries_map(b@)[k] by {
            lemma_entries_map_dom(a@, k);
            let j = choose|j: int| 0 <= j < a@.len() && (#[trigger] a@[j]).0@ == k;
            assert(entries_map(b@).dom().contains(a@[j].0@));
        }
    }
    true
}

/// Whether two lists of entries hold the same mapping.
pub fn entries_same(a: &Vec<(String, String)>, b: &Vec<(String, String)>) -> (same: bool)
    ensures
        same == (entries_map(a@) == entries_map(b@)),
{
    let same = entries_within(a, b) && entries_within(b, a);
    proof {
        let ma = entries_map(a@);
        let mb = entries_map(b@);
        if same {
            assert forall|k: Seq<char>| ma.dom().contains(k) == mb.dom().contains(k) by {
                if ma.dom().contains(k) {
                    assert(mb.dom().contains(k));
                }
                if mb.dom().contains(k) {
                    assert(ma.dom().contains(k));
                }
            }
            assert(ma.dom() =~= mb.dom());
            assert(ma =~= mb);
        }
    }
    same
}

/// Whether two lists hold the same texts in the same order.
pub fn texts_same(a: &Vec<String>, b: &Vec<String>) -> (same: bool)
    ensures
        same == (text_views(a@) == text_views(b@)),
{
    if a.len() != b.len() {
        proof {
            assert(text_views(a@).len() != text_views(b@).len());
        }
        return false;
    }
    let mut i: usize = 0;
    while i < a.len()
        invariant
            i <= a.len(),
            a.len() == b.len(),
            forall|j: int| 0 <= j < i ==> a@[j]@ == b@[j]@,
        decreases a.len() - i,
    {
        if a[i] != b[i] {
            proof {
                assert(text_views(a@)[i as int] != text_views(b@)[i as int]);
            }
            return false;
        }
        i = i + 1;
    }
    proof {
        assert(text_views(a@) =~= text_views(b@));
    }
    true
}

/// A copy of `texts`.
pub fn texts_clone(texts: &Vec<String>) -> (copy: Vec<String>)
    ensures
        copy@ == texts@,
{
    let mut copy: Vec<String> = Vec::new();
    let mut i: usize = 0;
    while i < texts.len()
        invariant
            i <= texts.len(),
            copy@ == texts@.take(i as int),
        decreases texts.len() - i,
    {
        copy.push(texts[i].clone());
        assert(copy@ =~= texts@.take(i + 1));
        i = i + 1;
    }
    assert(texts@.take(texts.len() as int) =~= texts@);
    copy
}

/// A copy of `entries`.
pub fn entries_clone(entries: &Vec<(String, String)>) -> (copy: Vec<(String, String)>)
    ensures
        copy@ == entries@,
{
    let mut copy: Vec<(String, String)> = Vec::new();
    let mut i: usize = 0;
    while i < entries.len()
        invariant
            i <= entries.len(),
            copy@ == entries@.take(i as int),
        decreases entries.len() - i,
    {
        copy.push((entries[i].0.clone(), entries[i].1.clone()));
        assert(copy@ =~= entries@.take(i + 1));
        i = i + 1;
    }
    assert(entries@.take(entries.len() as int) =~= entries@);
    copy
}

/// An advertised endpoint of a named service.
#[derive(Debug)]
pub struct ServiceInstance {
    /// Tells the instances of one service apart.
    pub id: String,
    /// The service that the instance belongs to.
    pub name: String,
    pub address: String,
    pub port: u32,
    pub version: String,
    /// A mapping from text to text; of two entries under one key the later counts.
    pub metadata: Vec<(String, String)>,
    pub tags: Vec<String>,
    pub health_check: Option<HealthCheck>,
    /// The wire number of a [`ServiceStatus`].
    pub status: i32,
    /// The wire number of a [`Scheme`].
    pub scheme: i32,
}

#[verifier::ext_equal]
pub struct ServiceInstanceView {
    pub id: Seq<char>,
    pub name: Seq<char>,
    pub address: Seq<char>,
    pub port: u32,
    pub version: Seq<char>,
    pub metadata: Map<Seq<char>, Seq<char>>,
    pub tags: Seq<Seq<char>>,
    pub health_check: Option<HealthCheckView>,
    pub status: i32,
    pub scheme: i32,
}

/// The view of a health check that may be missing.
pub open spec fn health_check_option(check: Option<HealthCheck>) -> Option<HealthCheckView> {
    match check {
        Some(c) => Some(c@),
        None => None,
    }
}

impl View for ServiceInstance {
    type V = ServiceInstanceView;

    open spec fn view(&self) -> ServiceInstanceView {
        ServiceInstanceView {
            id: self.id@,
            name: self.name@,
            address: self.address@,
            port: self.port,
            version: self.version@,
            metadata: entries_map(self.metadata@),
            tags: text_views(self.tags@),
            health_check: health_check_option(self.health_check),
            status: self.status,
            scheme: self.scheme,
        }
    }
}

impl ServiceInstanceView {
    /// The pair of service name and id under which the registry keeps the instance.
    pub open spec fn key(self) -> (Seq<char>, Seq<char>) {
        (self.name, self.id)
    }

    /// The change event that tells of this instance.
    pub open spec fn event(self) -> ServiceView {
        ServiceView {
            id: self.id,
            name: self.name,
            address: self.address,
            port: self.port,
            active: self.status,
            scheme: self.scheme,
        }
    }
}

impl Clone for ServiceInstance {
    fn clone(&self) -> (copy: ServiceInstance)
        ensures
            copy@ == self@,
            copy.metadata@ == self.metadata@,
            copy.tags@ == self.tags@,
    {
        let health_check = match &self.health_check {
            Some(check) => Some(check.clone()),
            None => None,
        };
        ServiceInstance {
            id: self.id.clone(),
            name: self.name.clone(),
            address: self.address.clone(),
            port: self.port,
            version: self.version.clone(),
            metadata: entries_clone(&self.metadata),
            tags: texts_clone(&self.tags),
            health_check,
            status: self.status,
            scheme: self.scheme,
        }
    }
}

impl ServiceInstance {
    /// Whether two instances agree in every field, the metadata taken as a mapping.
    pub fn same(&self, other: &ServiceInstance) -> (same: bool)
        ensures
            same == (self@ == other@),
    {
        let checks = match (&self.health_check, &other.health_check) {
            (Some(a), Some(b)) => a.same(b),
            (None, None) => true,
            _ => false,
        };
        self.id == other.id && self.name == other.name && self.address == other.address
            && self.port == other.port && self.version == other.version && entries_same(
            &self.metadata,
            &other.metadata,
        ) && texts_same(&self.tags, &other.tags) && checks && self.status == other.status
            && self.scheme == other.scheme
    }

    /// The scheme that the instance's wire number stands for.
    pub fn scheme(&self) -> (scheme: Scheme)
        ensures
            scheme == Scheme::of_code(self.scheme as int),
    {
        Scheme::from_i32(self.scheme)
    }
}

/// The change event: what subscribers and queries learn of an instance.
#[derive(Debug)]
pub struct Service {
    pub id: String,
    pub name: String,
    pub address: String,
    pub port: u32,
    /// The instance's status when the event was made.
    pub active: i32,
    pub scheme: i32,
}

#[verifier::ext_equal]
pub struct ServiceView {
    pub id: Seq<char>,
    pub name: Seq<char>,
    pub address: Seq<char>,
    pub port: u32,
    pub active: i32,
    pub scheme: i32,
}

impl View for Service {
    type V = ServiceView;

    open spec fn view(&self) -> ServiceView {
        ServiceView {
            id: self.id@,
            name: self.name@,
            address: self.address@,
            port: self.port,
            active: self.active,
            scheme: self.scheme,
        }
    }
}

impl Clone for Service {
    fn clone(&self) -> (copy: Service)
        ensures
            copy == *self,
    {
        Service {
            id: self.id.clone(),
            name: self.name.clone(),
            address: self.address.clone(),
            port: self.port,
            active: self.active,
            scheme: self.scheme,
        }
    }
}

/// The change event that tells of an instance.
impl From<ServiceInstance> for Service {
    fn from(value: ServiceInstance) -> (event: Service) {
        Service {
            id: value.id,
            name: value.name,
            address: value.address,
            port: value.port,
            active: value.status,
            scheme: value.scheme,
        }
    }
}

impl vstd::std_specs::convert::FromSpecImpl<ServiceInstance> for Service {
    open spec fn obeys_from_spec() -> bool {
        true
    }

    open spec fn from_spec(value: ServiceInstance) -> Service {
        Service {
            id: value.id,
            name: value.name,
            address: value.address,
            port: value.port,
            active: value.status,
            scheme: value.scheme,
        }
    }
}

impl Service {
    /// The change event that tells of `instance`, which stays with the caller.
    pub fn of(instance: &ServiceInstance) -> (event: Service)
        ensures
            event@ == instance@.event(),
    {
        Service {
            id: instance.id.clone(),
            name: instance.name.clone(),
            address: instance.address.clone(),
            port: instance.port,
            active: instance.status,
            scheme: instance.scheme,
        }
    }

    /// Whether two events agree in every field.
    pub fn same(&self, other: &Service) -> (same: bool)
        ensures
            same == (self@ == other@),
    {
        self.id == other.id && self.name == other.name && self.address == other.address
            && self.port == other.port && self.active == other.active && self.scheme
            == other.scheme
    }
}

/// Names one instance of one service.
#[derive(Debug)]
pub struct ServiceInstanceIdentifier {
    pub name: String,
    pub id: String,
}

impl ServiceInstanceIdentifier {
    pub fn new(name: String, id: String) -> (identifier: ServiceInstanceIdentifier)
        ensures
            identifier.name == name,
            identifier.id == id,
    {
        ServiceInstanceIdentifier { id, name }
    }
}

/// Asks for the instances of one service.
#[derive(Debug)]
pub struct QueryRequest {
    pub name: String,
}

impl QueryRequest {
    pub fn new(name: String) -> (request: QueryRequest)
        ensures
            request.name == name,
    {
        QueryRequest { name }
    }
}

/// The instances of one service, each as a change event.
#[derive(Debug)]
pub struct QueryResponse {
    pub services: Vec<Service>,
}

/// Asks for the change events of one service.
#[derive(Debug)]
pub struct SubscribeRequest {
    pub service: String,
}

impl SubscribeRequest {
    pub fn new(service: String) -> (request: SubscribeRequest)
        ensures
            request.service == service,
    {
        SubscribeRequest { service }
    }
}

/// The hub's answer to a register or unregister request.
#[derive(Debug)]
pub struct OperationStatus {
    pub success: bool,
    pub message: String,
}

/// A health probe.
#[derive(Debug)]
pub struct HealthCheckRequest {
    pub service: String,
}

/// The answer to a health probe.
#[derive(Clone, Copy, Debug)]
pub struct HealthCheckResponse {
    /// The wire number of a [`ServingStatus`].
    pub status: i32,
}

impl Clone for ServiceInstanceIdentifier {
    fn clone(&self) -> (copy: ServiceInstanceIdentifier)
        ensures
            copy == *self,
    {
        ServiceInstanceIdentifier {
            name: self.name.clone(),
            id: self.id.clone(),
        }
    }
}

impl Clone for QueryRequest {
    fn clone(&self) -> (copy: QueryRequest)
        ensures
            copy == *self,
    {
        QueryRequest {
            name: self.name.clone(),
        }
    }
}

impl Clone for SubscribeRequest {
    fn clone(&self) -> (copy: SubscribeRequest)
        ensures
            copy == *self,
    {
        SubscribeRequest {
            service: self.service.clone(),
        }
    }
}

impl Clone for OperationStatus {
    fn clone(&self) -> (copy: OperationStatus)
        ensures
            copy == *self,
    {
        OperationStatus {
            success: self.success,
            message: self.message.clone(),
        }
    }
}

impl Clone for HealthCheckRequest {
    fn clone(&self) -> (copy: HealthCheckRequest)
        ensures
            copy == *self,
    {
        HealthCheckRequest {
            service: self.service.clone(),
        }
    }
}

/// Whether two texts hold the same characters.
pub fn str_equal(a: &str, b: &str) -> (same: bool)
    ensures
        same == (a@ == b@),
{
    let x = a.to_owned();
    let y = b.to_owned();
    x == y
}

} // verus!
