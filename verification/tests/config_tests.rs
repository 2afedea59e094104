use iceoryx2_bridge::config::{
    AllocationStrategy, PyPublisherConfig, PyServiceConfig, PySubscriberConfig,
    UnableToDeliverStrategy,
};
use iceoryx2_bridge::error::{BridgeError, ErrorClass, PortKind};
use iceoryx2_bridge::text::{bool_to_text, usize_text};

fn publisher_config(alloc: Option<&str>, deliver: Option<&str>) -> PyPublisherConfig {
    PyPublisherConfig {
        initial_max_slice_len: None,
        allocation_strategy: alloc.map(|s| s.to_string()),
        unable_to_deliver_strategy: deliver.map(|s| s.to_string()),
        max_loaned_samples: None,
    }
}

fn pairs(v: &[(&str, &str)]) -> Vec<(String, String)> {
    v.iter().map(|(k, x)| (k.to_string(), x.to_string())).collect()
}

#[test]
fn usize_text_renders_decimal() {
    assert_eq!(usize_text(0), "0");
    assert_eq!(usize_text(7), "7");
    assert_eq!(usize_text(10), "10");
    assert_eq!(usize_text(512), "512");
    assert_eq!(usize_text(1000), "1000");
    assert_eq!(usize_text(usize::MAX), usize::MAX.to_string());
}

#[test]
fn usize_text_reads_back() {
    for n in [0usize, 1, 9, 10, 99, 100, 12345, 4096, usize::MAX - 1, usize::MAX] {
        assert_eq!(usize_text(n).parse::<usize>().unwrap(), n);
    }
}

#[test]
fn bool_text_renders_words() {
    assert_eq!(bool_to_text(true), "true");
    assert_eq!(bool_to_text(false), "false");
}

#[test]
fn empty_service_config_requires_nothing() {
    assert!(PyServiceConfig::default().requirements().is_empty());
}

#[test]
fn service_config_requirements_follow_setting_order() {
    let config = PyServiceConfig {
        payload_alignment: Some(8),
        enable_safe_overflow: Some(true),
        subscriber_max_borrowed_samples: Some(2),
        history_size: Some(0),
        subscriber_max_buffer_size: Some(16),
        max_subscribers: Some(3),
        max_publishers: Some(4),
        max_nodes: Some(20),
    };
    assert_eq!(
        config.requirements(),
        pairs(&[
            ("payload_alignment", "8"),
            ("enable_safe_overflow", "true"),
            ("subscriber_max_borrowed_samples", "2"),
            ("history_size", "0"),
            ("subscriber_max_buffer_size", "16"),
            ("max_subscribers", "3"),
            ("max_publishers", "4"),
            ("max_nodes", "20"),
        ])
    );
}

#[test]
fn service_config_requirements_skip_unset_settings() {
    let config = PyServiceConfig {
        enable_safe_overflow: Some(false),
        max_nodes: Some(123),
        ..PyServiceConfig::default()
    };
    assert_eq!(
        config.requirements(),
        pairs(&[("enable_safe_overflow", "false"), ("max_nodes", "123")])
    );
}

#[test]
fn publisher_config_defaults() {
    let config = PyPublisherConfig::default();
    assert_eq!(config.initial_max_slice_len(), 512);
    assert_eq!(config.max_loaned_samples(), 10);
    assert_eq!(config.allocation_strategy().unwrap(), AllocationStrategy::Static);
}

#[test]
fn publisher_config_configured_numbers() {
    let config = PyPublisherConfig {
        initial_max_slice_len: Some(4096),
        max_loaned_samples: Some(1),
        ..PyPublisherConfig::default()
    };
    assert_eq!(config.initial_max_slice_len(), 4096);
    assert_eq!(config.max_loaned_samples(), 1);
}

#[test]
fn allocation_strategy_names() {
    let cases = [
        ("static", AllocationStrategy::Static),
        ("best_fit", AllocationStrategy::BestFit),
        ("power_of_two", AllocationStrategy::PowerOfTwo),
    ];
    for (name, expected) in cases {
        let config = publisher_config(Some(name), None);
        assert_eq!(config.allocation_strategy().unwrap(), expected);
    }
}

#[test]
fn unknown_allocation_strategy_is_reported() {
    let config = publisher_config(Some("Static"), None);
    let err = config.allocation_strategy().unwrap_err();
    assert!(matches!(&err, BridgeError::UnknownAllocationStrategy(s) if s == "Static"));
    assert_eq!(err.message(), "Unknown alloc start Static");
    assert_eq!(err.class(), ErrorClass::ValueError);
}

#[test]
fn unable_to_deliver_strategy_names() {
    let block = publisher_config(None, Some("block"));
    assert_eq!(block.unable_to_deliver_strategy().unwrap(), UnableToDeliverStrategy::Block);
    let discard = publisher_config(None, Some("discard_sample"));
    assert_eq!(
        discard.unable_to_deliver_strategy().unwrap(),
        UnableToDeliverStrategy::DiscardSample
    );
}

#[test]
fn unset_unable_to_deliver_strategy_is_rejected() {
    let err = PyPublisherConfig::default().unable_to_deliver_strategy().unwrap_err();
    assert!(matches!(&err, BridgeError::UnknownUnableToDeliverStrategy(s) if s == "static"));
    assert_eq!(err.message(), "Unknown unable-to-deliver start static");
}

#[test]
fn subscriber_config_buffer_size() {
    assert_eq!(PySubscriberConfig::default().buffer_size(), 1);
    assert_eq!(PySubscriberConfig { buffer_size: Some(32) }.buffer_size(), 32);
}

#[test]
fn error_messages_and_classes() {
    let cases = [
        (PortKind::Notifier, "Notifier not created yet"),
        (PortKind::Listener, "Listener not created yet"),
        (PortKind::Publisher, "Publisher not created yet"),
        (PortKind::Subscriber, "Publisher not created yet"),
    ];
    for (kind, text) in cases {
        let err = BridgeError::NotCreated(kind);
        assert_eq!(err.message(), text);
        assert_eq!(err.class(), ErrorClass::ValueError);
    }
    let err = BridgeError::InvalidServiceName {
        name: String::new(),
        reason: "SemanticStringError::InvalidContent".to_string(),
    };
    assert_eq!(
        err.message(),
        "Could not instantiate service name : SemanticStringError::InvalidContent"
    );
    assert_eq!(err.class(), ErrorClass::OsError);
}

#[test]
fn requirement_keys_are_distinct() {
    let config = PyServiceConfig {
        payload_alignment: Some(1),
        enable_safe_overflow: Some(true),
        subscriber_max_borrowed_samples: Some(1),
        history_size: Some(1),
        subscriber_max_buffer_size: Some(1),
        max_subscribers: Some(1),
        max_publishers: Some(1),
        max_nodes: Some(1),
    };
    let reqs = config.requirements();
    assert_eq!(reqs.len(), 8);
    for i in 0..reqs.len() {
        for j in (i + 1)..reqs.len() {
            assert_ne!(reqs[i].0, reqs[j].0);
        }
    }
}
