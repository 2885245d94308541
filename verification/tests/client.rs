use std::time::Duration;
use synapse::client::{
    check_registered, check_unregistered, retry_delay, ClientError, Resubscribe,
    ServiceClientBuilder, DEFAULT_CONNECT_TIMEOUT, MAX_RETRIES, SUBSCRIPTION_BUFFER,
};
use synapse::health_service::HealthService;
use synapse::types::{HealthCheckRequest, OperationStatus, Scheme, ServingStatus};
use tonic::transport::ClientTlsConfig;

#[test]
fn builder_needs_host_and_port() {
    assert_eq!(ServiceClientBuilder::new().build().err(), Some(ClientError::HostNotSet));
    assert_eq!(
        ServiceClientBuilder::new().server_port(8500).build().err(),
        Some(ClientError::HostNotSet)
    );
    assert_eq!(
        ServiceClientBuilder::new().server_host("127.0.0.1").build().err(),
        Some(ClientError::PortNotSet)
    );
    assert_eq!(ServiceClientBuilder::default().build().err(), Some(ClientError::HostNotSet));
    assert_eq!(ServiceClientBuilder::default().scheme, Scheme::Http);
    assert_eq!(ClientError::HostNotSet.message(), "Server host not set");
    assert_eq!(ClientError::PortNotSet.message(), "Server port not set");
}

#[test]
fn builder_composes_the_address() {
    let endpoint = ServiceClientBuilder::new()
        .server_host("127.0.0.1")
        .server_port(8500)
        .timeout(Duration::from_secs(3))
        .connect_timeout(Duration::from_millis(1500))
        .build()
        .unwrap();
    assert_eq!(endpoint.addr, "http://127.0.0.1:8500");
    assert_eq!(endpoint.timeout, Some(Duration::from_secs(3)));
    assert_eq!(endpoint.connect_timeout, Some(Duration::from_millis(1500)));
    assert!(endpoint.tls_config.is_none());
    let plain = ServiceClientBuilder::new().server_host("hub").server_port(65535).build().unwrap();
    assert_eq!(plain.addr, "http://hub:65535");
    assert_eq!(plain.timeout, None);
    assert_eq!(plain.connect_timeout, None);
}

#[test]
fn tls_config_switches_to_https() {
    let builder = ServiceClientBuilder::new().server_host("hub.local").server_port(443);
    assert_eq!(builder.scheme, Scheme::Http);
    let builder = builder.tls_config(ClientTlsConfig::new());
    assert_eq!(builder.scheme, Scheme::Https);
    let endpoint = builder.build().unwrap();
    assert_eq!(endpoint.addr, "https://hub.local:443");
    assert!(endpoint.tls_config.is_some());
}

#[test]
fn retry_delay_defaults_to_five_seconds() {
    assert_eq!(DEFAULT_CONNECT_TIMEOUT, 5);
    assert_eq!(SUBSCRIPTION_BUFFER, 256);
    assert_eq!(retry_delay(None), Duration::from_secs(5));
    assert_eq!(retry_delay(Some(Duration::from_millis(20))), Duration::from_millis(20));
}

#[test]
fn client_gives_up_after_five_failures_in_a_row() {
    assert_eq!(MAX_RETRIES, 5);
    let mut state = Resubscribe::new();
    for seen in 1..=5 {
        assert!(state.failed());
        assert_eq!(state.retries, seen);
    }
    assert!(!state.failed());
    assert_eq!(state.retries, 5);
    state.subscribed();
    assert_eq!(state.retries, 0);
    assert!(state.failed());
    assert_eq!(state.retries, 1);
}

#[test]
fn an_answer_without_success_is_an_error() {
    let fine = OperationStatus { success: true, message: "registered".to_string() };
    let refused = OperationStatus { success: false, message: "no".to_string() };
    assert_eq!(check_registered(&fine), Ok(()));
    assert_eq!(check_registered(&refused), Err(ClientError::RegisterFailed));
    assert_eq!(check_unregistered(&fine), Ok(()));
    assert_eq!(check_unregistered(&refused), Err(ClientError::UnregisterFailed));
    assert_eq!(ClientError::RegisterFailed.message(), "Failed to register service instance");
    assert_eq!(ClientError::UnregisterFailed.message(), "Failed to unregister service instance");
}

#[test]
fn the_hub_serves() {
    let service = HealthService::new();
    let response = service.check(&HealthCheckRequest { service: "any".to_string() });
    assert_eq!(response.status, 1);
    assert_eq!(response.status, ServingStatus::Serving.as_i32());
    assert_eq!(ServingStatus::Unknown.as_i32(), 0);
    assert_eq!(ServingStatus::NotServing.as_i32(), 2);
    assert_eq!(ServingStatus::ServiceUnknown.as_i32(), 3);
}
