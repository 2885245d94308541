use synapse::types::{
    entries_clone, entries_get, entries_same, str_equal, texts_clone, texts_same, HealthCheck,
    QueryRequest, Scheme, Service, ServiceInstance, ServiceInstanceIdentifier, ServiceStatus,
    SubscribeRequest,
};

fn pairs(entries: &[(&str, &str)]) -> Vec<(String, String)> {
    entries.iter().map(|(k, v)| (k.to_string(), v.to_string())).collect()
}

fn texts(items: &[&str]) -> Vec<String> {
    items.iter().map(|t| t.to_string()).collect()
}

fn full() -> ServiceInstance {
    ServiceInstance {
        id: "a".to_string(),
        name: "svc".to_string(),
        address: "10.0.0.1".to_string(),
        port: 80,
        version: "1.2".to_string(),
        metadata: pairs(&[("zone", "a"), ("rack", "7")]),
        tags: texts(&["blue", "green"]),
        health_check: Some(HealthCheck {
            endpoint: "ready".to_string(),
            interval: 10,
            timeout: 2,
            retries: 3,
            scheme: 0,
            tls_domain: Some("svc.local".to_string()),
        }),
        status: 1,
        scheme: 1,
    }
}

#[test]
fn scheme_reads_numbers_and_names() {
    assert_eq!(Scheme::from(1u8), Scheme::Https);
    assert_eq!(Scheme::from(0u8), Scheme::Http);
    assert_eq!(Scheme::from(2u8), Scheme::Http);
    assert_eq!(Scheme::from("https"), Scheme::Https);
    assert_eq!(Scheme::from("http"), Scheme::Http);
    assert_eq!(Scheme::from("https "), Scheme::Http);
    assert_eq!(Scheme::from_u8(1), Scheme::Https);
    assert_eq!(Scheme::from_u8(0), Scheme::Http);
    assert_eq!(Scheme::from_u8(7), Scheme::Http);
    assert_eq!(Scheme::from_i32(1), Scheme::Https);
    assert_eq!(Scheme::from_i32(-1), Scheme::Http);
    assert_eq!(Scheme::from_name("https"), Scheme::Https);
    assert_eq!(Scheme::from_name("http"), Scheme::Http);
    assert_eq!(Scheme::from_name("HTTPS"), Scheme::Http);
    assert_eq!(Scheme::from_name(""), Scheme::Http);
    assert_eq!(Scheme::Https.to_string(), "https");
    assert_eq!(Scheme::Http.to_string(), "http");
    assert_eq!(Scheme::Https.as_str(), "https");
    assert_eq!(Scheme::Http.as_i32(), 0);
    assert_eq!(Scheme::Https.as_i32(), 1);
}

#[test]
fn status_numbers_are_those_of_the_wire() {
    assert_eq!(ServiceStatus::Unknown.as_i32(), 0);
    assert_eq!(ServiceStatus::Up.as_i32(), 1);
    assert_eq!(ServiceStatus::Down.as_i32(), 2);
}

#[test]
fn requests_keep_what_they_are_made_of() {
    assert_eq!(SubscribeRequest::new("svc".to_string()).service, "svc");
    assert_eq!(QueryRequest::new("svc".to_string()).name, "svc");
    let identifier = ServiceInstanceIdentifier::new("svc".to_string(), "a".to_string());
    assert_eq!(identifier.name, "svc");
    assert_eq!(identifier.id, "a");
}

#[test]
fn an_event_tells_of_its_instance() {
    let instance = full();
    let told = Service::of(&instance);
    let event = Service::from(instance);
    assert!(told.same(&event));
    assert_eq!(event.id, "a");
    assert_eq!(event.name, "svc");
    assert_eq!(event.address, "10.0.0.1");
    assert_eq!(event.port, 80);
    assert_eq!(event.active, 1);
    assert_eq!(event.scheme, 1);
    let copy = event.clone();
    assert!(copy.same(&event));
    let mut other = event.clone();
    other.active = 2;
    assert!(!other.same(&event));
}

#[test]
fn instances_are_the_same_when_every_field_is() {
    let a = full();
    assert!(a.same(&full()));
    assert!(a.same(&a.clone()));
    assert_eq!(a.scheme(), Scheme::Https);
    let changes: Vec<fn(&mut ServiceInstance)> = vec![
        |i| i.id = "b".to_string(),
        |i| i.name = "other".to_string(),
        |i| i.address = "10.0.0.2".to_string(),
        |i| i.port = 81,
        |i| i.version = "1.3".to_string(),
        |i| i.metadata.push(("x".to_string(), "y".to_string())),
        |i| i.metadata[0].1 = "b".to_string(),
        |i| i.tags.reverse(),
        |i| i.tags.clear(),
        |i| i.health_check = None,
        |i| i.health_check.as_mut().unwrap().endpoint = "live".to_string(),
        |i| i.health_check.as_mut().unwrap().interval = 11,
        |i| i.health_check.as_mut().unwrap().timeout = 3,
        |i| i.health_check.as_mut().unwrap().retries = 2,
        |i| i.health_check.as_mut().unwrap().scheme = 1,
        |i| i.health_check.as_mut().unwrap().tls_domain = None,
        |i| i.health_check.as_mut().unwrap().tls_domain = Some("x".to_string()),
        |i| i.status = 2,
        |i| i.scheme = 0,
    ];
    for change in changes {
        let mut b = full();
        change(&mut b);
        assert!(!a.same(&b));
        assert!(!b.same(&a));
    }
}

#[test]
fn metadata_is_a_mapping() {
    let a = pairs(&[("zone", "a"), ("rack", "7")]);
    assert!(entries_same(&a, &pairs(&[("rack", "7"), ("zone", "a")])));
    assert!(entries_same(&a, &pairs(&[("zone", "old"), ("rack", "7"), ("zone", "a")])));
    assert!(!entries_same(&a, &pairs(&[("zone", "a"), ("rack", "7"), ("zone", "new")])));
    assert!(!entries_same(&a, &pairs(&[("zone", "a")])));
    assert!(!entries_same(&pairs(&[("zone", "a")]), &a));
    assert!(entries_same(&Vec::new(), &Vec::new()));
    assert!(!entries_same(&a, &Vec::new()));
    let mut with_other_order = full();
    with_other_order.metadata.reverse();
    assert!(full().same(&with_other_order));
}

#[test]
fn entries_get_finds_the_later_entry() {
    let entries = pairs(&[("zone", "a"), ("rack", "7"), ("zone", "b")]);
    assert_eq!(entries_get(&entries, &"zone".to_string()), Some(&"b".to_string()));
    assert_eq!(entries_get(&entries, &"rack".to_string()), Some(&"7".to_string()));
    assert_eq!(entries_get(&entries, &"room".to_string()), None);
    assert_eq!(entries_get(&Vec::new(), &"zone".to_string()), None);
}

#[test]
fn texts_are_compared_in_order() {
    assert!(texts_same(&texts(&["a", "b"]), &texts(&["a", "b"])));
    assert!(!texts_same(&texts(&["a", "b"]), &texts(&["b", "a"])));
    assert!(!texts_same(&texts(&["a", "b"]), &texts(&["a"])));
    assert!(!texts_same(&texts(&[]), &texts(&["a"])));
    assert!(texts_same(&texts(&[]), &texts(&[])));
    assert!(str_equal("abc", "abc"));
    assert!(!str_equal("abc", "abd"));
    assert!(!str_equal("abc", "ab"));
}

#[test]
fn copies_hold_what_was_copied() {
    let entries = pairs(&[("zone", "a"), ("rack", "7")]);
    assert_eq!(entries_clone(&entries), entries);
    assert_eq!(texts_clone(&texts(&["x", "y", "z"])), texts(&["x", "y", "z"]));
    assert!(texts_clone(&Vec::new()).is_empty());
    let copy = full().clone();
    assert_eq!(copy.metadata, full().metadata);
    assert_eq!(copy.tags, full().tags);
    let check = copy.health_check.unwrap();
    assert!(check.same(full().health_check.as_ref().unwrap()));
    assert_eq!(check.tls_domain.as_deref(), Some("svc.local"));
}
