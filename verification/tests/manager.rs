//! Behaviour of the connection manager that needs no live cluster:
//! construction, configuration, probe classification and outcome mapping.

use r2d2_redis_cluster::{ConfigError, RedisClusterConnectionManager, ValidationError};
use redis_cluster_rs::redis::{ErrorKind, RedisError};

#[test]
fn new_preserves_count_and_order() {
    let manager = RedisClusterConnectionManager::new(vec![
        "redis://127.0.0.1:6379".to_string(),
        "redis://10.1.2.3:7000".to_string(),
        "redis://example.com:7001".to_string(),
    ])
    .unwrap();
    let nodes = manager.nodes();
    assert_eq!(nodes.len(), 3);
    assert_eq!(nodes[0].host().as_str(), "127.0.0.1");
    assert_eq!(nodes[0].port(), 6379);
    assert_eq!(nodes[1].host().as_str(), "10.1.2.3");
    assert_eq!(nodes[1].port(), 7000);
    assert_eq!(nodes[2].host().as_str(), "example.com");
    assert_eq!(nodes[2].port(), 7001);
}

#[test]
fn new_defaults_to_no_credential_and_read_write() {
    let manager =
        RedisClusterConnectionManager::new(vec!["redis://127.0.0.1:6379".to_string()]).unwrap();
    assert!(manager.password().is_none());
    assert!(!manager.readonly());
}

#[test]
fn new_uses_default_port_when_omitted() {
    let manager =
        RedisClusterConnectionManager::new(vec!["redis://example.com".to_string()]).unwrap();
    assert_eq!(manager.nodes()[0].host().as_str(), "example.com");
    assert_eq!(manager.nodes()[0].port(), 6379);
}

#[test]
fn new_accepts_empty_input() {
    let manager = RedisClusterConnectionManager::new(Vec::new()).unwrap();
    assert_eq!(manager.nodes().len(), 0);
}

#[test]
fn new_rejects_malformed_entry_naming_first_offender() {
    let result = RedisClusterConnectionManager::new(vec![
        "redis://127.0.0.1:6379".to_string(),
        "this is no url".to_string(),
        "also no url".to_string(),
    ]);
    match result {
        Err(ConfigError::Malformed { index, .. }) => assert_eq!(index, 1),
        _ => panic!("a malformed entry must abort construction"),
    }
}

#[test]
fn new_rejects_wrong_scheme() {
    let result = RedisClusterConnectionManager::new(vec!["http://127.0.0.1:6379".to_string()]);
    assert!(matches!(result, Err(ConfigError::Malformed { index: 0, .. })));
}

#[test]
fn new_rejects_unix_socket_entry() {
    let result = RedisClusterConnectionManager::new(vec![
        "redis://127.0.0.1:6379".to_string(),
        "unix:/tmp/redis.sock".to_string(),
    ]);
    assert!(matches!(result, Err(ConfigError::Unsupported { index: 1 })));
}

#[test]
fn config_error_reports_index() {
    let result = RedisClusterConnectionManager::new(vec![
        "redis://127.0.0.1:6379".to_string(),
        "redis://127.0.0.1:6380".to_string(),
        "broken".to_string(),
    ]);
    assert_eq!(result.unwrap_err().index(), 2);
}

#[test]
fn new_extracts_embedded_credential() {
    let manager = RedisClusterConnectionManager::new(vec![
        "redis://:seed-secret@127.0.0.1:6379".to_string(),
        "redis://127.0.0.1:6380".to_string(),
    ])
    .unwrap();
    assert_eq!(
        manager.nodes()[0].embedded_credential().as_deref(),
        Some("seed-secret")
    );
    assert!(manager.nodes()[1].embedded_credential().is_none());
}

#[test]
fn endpoints_round_trip_through_structured_construction() {
    let first = RedisClusterConnectionManager::new(vec![
        "redis://10.1.2.3:7000".to_string(),
        "redis://example.com:7001".to_string(),
    ])
    .unwrap();
    let second = RedisClusterConnectionManager::from_endpoints(first.into_endpoints());
    let nodes = second.nodes();
    assert_eq!(nodes.len(), 2);
    assert_eq!(nodes[0].host().as_str(), "10.1.2.3");
    assert_eq!(nodes[0].port(), 7000);
    assert_eq!(nodes[1].host().as_str(), "example.com");
    assert_eq!(nodes[1].port(), 7001);
    assert!(second.password().is_none());
    assert!(!second.readonly());
}

#[test]
fn set_password_stores_credential() {
    let mut manager =
        RedisClusterConnectionManager::new(vec!["redis://127.0.0.1:6379".to_string()]).unwrap();
    manager.set_password("cluster-password".to_string());
    assert_eq!(manager.password().as_deref(), Some("cluster-password"));
}

#[test]
fn new_with_auth_stores_credential() {
    let manager = RedisClusterConnectionManager::new_with_auth(
        vec!["redis://127.0.0.1:6379".to_string()],
        "cluster-password".to_string(),
    )
    .unwrap();
    assert_eq!(manager.password().as_deref(), Some("cluster-password"));
    assert!(!manager.readonly());
}

#[test]
fn new_with_auth_rejects_malformed_entry() {
    let result = RedisClusterConnectionManager::new_with_auth(
        vec!["nonsense".to_string()],
        "cluster-password".to_string(),
    );
    assert!(matches!(result, Err(ConfigError::Malformed { index: 0, .. })));
}

#[test]
fn set_readonly_stores_preference() {
    let mut manager =
        RedisClusterConnectionManager::new(vec!["redis://127.0.0.1:6379".to_string()]).unwrap();
    manager.set_readonly(true);
    assert!(manager.readonly());
    manager.set_readonly(false);
    assert!(!manager.readonly());
}

#[test]
fn classify_probe_follows_probe_outcome() {
    assert_eq!(RedisClusterConnectionManager::classify_probe(true), Ok(()));
    assert_eq!(
        RedisClusterConnectionManager::classify_probe(false),
        Err(ValidationError::Io)
    );
}

#[test]
fn finish_connect_wraps_client_failure() {
    let report = RedisError::from((ErrorKind::IoError, "no node answered"));
    let result = RedisClusterConnectionManager::finish_connect(Err(report));
    let wrapped = match result {
        Ok(_) => panic!("a client failure must not produce a connection"),
        Err(e) => e,
    };
    assert_eq!(wrapped.cause.kind(), ErrorKind::IoError);
}

#[test]
fn classify_open_passes_accepted_client_through() {
    let client = redis_cluster_rs::Builder::new(vec!["redis://127.0.0.1:6379"])
        .open()
        .unwrap();
    assert!(RedisClusterConnectionManager::classify_open(Ok(client)).is_ok());
}

#[test]
fn classify_open_wraps_client_refusal() {
    let report = RedisError::from((ErrorKind::InvalidClientConfig, "refused"));
    let result = RedisClusterConnectionManager::classify_open(Err(report));
    let wrapped = match result {
        Ok(_) => panic!("a refusal must not produce a client"),
        Err(e) => e,
    };
    assert_eq!(wrapped.cause.kind(), ErrorKind::InvalidClientConfig);
}

#[test]
fn connect_rejects_differing_embedded_credentials() {
    // With no stored credential the client refuses to open over seeds whose
    // descriptors embed differing credentials; no network round trip occurs.
    let manager = RedisClusterConnectionManager::new(vec![
        "redis://:one@127.0.0.1:6379".to_string(),
        "redis://:two@127.0.0.1:6380".to_string(),
    ])
    .unwrap();
    let refusal = match manager.connect() {
        Ok(_) => panic!("differing embedded credentials must refuse to open"),
        Err(e) => e,
    };
    assert_eq!(refusal.cause.kind(), ErrorKind::InvalidClientConfig);
}

#[test]
fn connect_reports_failure_when_no_node_answers() {
    // Nothing listens on this port, so the client's first round trip fails
    // and the failure must come back as a ConnectionError.
    let manager =
        RedisClusterConnectionManager::new(vec!["redis://127.0.0.1:1".to_string()]).unwrap();
    assert!(manager.connect().is_err());
}
