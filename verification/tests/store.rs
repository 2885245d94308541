use synapse::store::Store;
use synapse::types::ServiceInstance;

fn record(id: &str, name: &str, port: u32) -> ServiceInstance {
    ServiceInstance {
        id: id.to_string(),
        name: name.to_string(),
        address: "10.0.0.1".to_string(),
        port,
        version: "1".to_string(),
        metadata: vec![("zone".to_string(), "a".to_string())],
        tags: vec!["blue".to_string()],
        health_check: None,
        status: 0,
        scheme: 0,
    }
}

#[test]
fn store_starts_empty() {
    let store = Store::new();
    assert!(!store.contains(&"svc".to_string(), &"a".to_string()));
    assert!(store.get(&"svc".to_string(), &"a".to_string()).is_none());
    assert!(store.list(&"svc".to_string()).is_empty());
}

#[test]
fn upsert_keeps_and_replaces() {
    let mut store = Store::new();
    assert!(store.upsert(record("a", "svc", 1), 0).is_none());
    assert!(store.contains(&"svc".to_string(), &"a".to_string()));
    assert!(!store.contains(&"svc".to_string(), &"b".to_string()));
    assert!(!store.contains(&"a".to_string(), &"svc".to_string()));
    let prior = store.upsert(record("a", "svc", 2), 1).unwrap();
    assert_eq!(prior.port, 1);
    let found = store.get(&"svc".to_string(), &"a".to_string()).unwrap();
    assert_eq!(found.port, 2);
    assert_eq!(found.version, "1");
    assert_eq!(found.metadata, vec![("zone".to_string(), "a".to_string())]);
    assert_eq!(found.tags, vec!["blue".to_string()]);
    assert_eq!(store.list(&"svc".to_string()).len(), 1);
}

#[test]
fn find_gives_the_record_with_its_number() {
    let mut store = Store::new();
    assert!(store.find(&"svc".to_string(), &"a".to_string()).is_none());
    store.upsert(record("a", "svc", 1), 7);
    store.upsert(record("b", "svc", 2), 8);
    let kept = store.find(&"svc".to_string(), &"a".to_string()).unwrap();
    assert_eq!(kept.generation, 7);
    assert_eq!(kept.instance.port, 1);
    let copy = kept.clone();
    assert_eq!(copy.generation, 7);
    assert_eq!(copy.instance.id, "a");
    store.upsert(record("a", "svc", 3), 9);
    let kept = store.find(&"svc".to_string(), &"a".to_string()).unwrap();
    assert_eq!(kept.generation, 9);
    assert_eq!(kept.instance.port, 3);
    assert_eq!(store.find(&"svc".to_string(), &"b".to_string()).unwrap().generation, 8);
    store.remove(&"svc".to_string(), &"a".to_string());
    assert!(store.find(&"svc".to_string(), &"a".to_string()).is_none());
}

#[test]
fn remove_takes_one_record_out() {
    let mut store = Store::new();
    store.upsert(record("a", "svc", 1), 1);
    store.upsert(record("b", "svc", 2), 2);
    store.upsert(record("a", "other", 3), 3);
    assert!(store.remove(&"svc".to_string(), &"c".to_string()).is_none());
    assert!(store.remove(&"none".to_string(), &"a".to_string()).is_none());
    let removed = store.remove(&"svc".to_string(), &"a".to_string()).unwrap();
    assert_eq!(removed.port, 1);
    assert!(store.remove(&"svc".to_string(), &"a".to_string()).is_none());
    assert!(!store.contains(&"svc".to_string(), &"a".to_string()));
    assert!(store.contains(&"svc".to_string(), &"b".to_string()));
    assert!(store.contains(&"other".to_string(), &"a".to_string()));
}

#[test]
fn list_gives_the_records_of_one_service() {
    let mut store = Store::new();
    store.upsert(record("a", "svc", 1), 1);
    store.upsert(record("b", "svc", 2), 2);
    store.upsert(record("c", "svc", 3), 3);
    store.upsert(record("a", "other", 4), 4);
    let mut ports: Vec<u32> = store.list(&"svc".to_string()).iter().map(|r| r.port).collect();
    ports.sort();
    assert_eq!(ports, vec![1, 2, 3]);
    store.remove(&"svc".to_string(), &"b".to_string());
    let mut ids: Vec<String> = store.list(&"svc".to_string()).into_iter().map(|r| r.id).collect();
    ids.sort();
    assert_eq!(ids, vec!["a".to_string(), "c".to_string()]);
    store.remove(&"svc".to_string(), &"a".to_string());
    store.remove(&"svc".to_string(), &"c".to_string());
    assert!(store.list(&"svc".to_string()).is_empty());
}
