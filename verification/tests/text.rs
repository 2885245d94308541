use synapse::prober::{probe_step, seconds_of, status_of};
use synapse::text::{
    compose_address, compose_lag_message, compose_probe_address, decimal_text, push_decimal,
};
use synapse::types::{HealthCheck, Scheme, ServiceInstance, ServiceStatus};

#[test]
fn decimal_text_writes_digits() {
    assert_eq!(decimal_text(0), "0");
    assert_eq!(decimal_text(7), "7");
    assert_eq!(decimal_text(10), "10");
    assert_eq!(decimal_text(9000), "9000");
    assert_eq!(decimal_text(1234567890), "1234567890");
    assert_eq!(decimal_text(u64::MAX), "18446744073709551615");
    let mut text = "port ".to_string();
    push_decimal(&mut text, 65535);
    assert_eq!(text, "port 65535");
}

#[test]
fn addresses_are_scheme_host_and_port() {
    assert_eq!(compose_address(Scheme::Http, "127.0.0.1", 8500), "http://127.0.0.1:8500");
    assert_eq!(compose_address(Scheme::Https, "hub.local", 443), "https://hub.local:443");
    assert_eq!(compose_address(Scheme::Http, "", 0), "http://:0");
    assert_eq!(
        compose_probe_address(Scheme::Http, &"127.0.0.1".to_string(), 1, false),
        "http://127.0.0.1:1"
    );
    assert_eq!(
        compose_probe_address(Scheme::Https, &"127.0.0.1".to_string(), 4294967295, true),
        "https://host.docker.internal:4294967295"
    );
    assert_eq!(
        compose_probe_address(Scheme::Http, &"127.0.0.2".to_string(), 1, true),
        "http://127.0.0.2:1"
    );
}

#[test]
fn lag_message_names_the_number_of_lost_events() {
    assert_eq!(compose_lag_message(0), "Broadcast error: Lagged(0)");
    assert_eq!(compose_lag_message(100), "Broadcast error: Lagged(100)");
}

#[test]
fn seconds_keep_the_bits_of_a_negative_number() {
    assert_eq!(seconds_of(0), 0);
    assert_eq!(seconds_of(10), 10);
    assert_eq!(seconds_of(i32::MAX), 2147483647);
    assert_eq!(seconds_of(-1), u64::MAX);
    assert_eq!(seconds_of(i32::MIN), 18446744071562067968);
}

#[test]
fn a_probe_stands_for_up_or_down() {
    assert_eq!(status_of(true), ServiceStatus::Up);
    assert_eq!(status_of(false), ServiceStatus::Down);
}

#[test]
fn probe_step_counts_retries() {
    let mut record = ServiceInstance {
        id: "c".to_string(),
        name: "svc".to_string(),
        address: "127.0.0.1".to_string(),
        port: 1,
        version: String::new(),
        metadata: vec![("k".to_string(), "v".to_string())],
        tags: vec!["t".to_string()],
        health_check: Some(HealthCheck {
            endpoint: "e".to_string(),
            interval: 1,
            timeout: 2,
            retries: 3,
            scheme: 0,
            tls_domain: Some("d".to_string()),
        }),
        status: 0,
        scheme: 1,
    };
    assert!(probe_step(&mut record, false, 9));
    assert_eq!(record.status, 2);
    assert_eq!(record.health_check.as_ref().unwrap().retries, 3);
    assert!(!probe_step(&mut record, false, 9));
    assert_eq!(record.health_check.as_ref().unwrap().retries, 2);
    assert!(probe_step(&mut record, true, 9));
    assert_eq!(record.status, 1);
    assert_eq!(record.health_check.as_ref().unwrap().retries, 9);
    assert!(!probe_step(&mut record, true, 5));
    assert_eq!(record.health_check.as_ref().unwrap().retries, 5);
    let check = record.health_check.as_ref().unwrap();
    assert_eq!(check.endpoint, "e");
    assert_eq!(check.interval, 1);
    assert_eq!(check.timeout, 2);
    assert_eq!(check.tls_domain.as_deref(), Some("d"));
    assert_eq!(record.metadata.len(), 1);
    assert_eq!(record.tags, vec!["t".to_string()]);
    assert_eq!(record.scheme, 1);
}
