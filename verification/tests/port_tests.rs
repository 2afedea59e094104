use iceoryx2_bridge::config::{
    AllocationStrategy, PyPublisherConfig, PyServiceConfig, PySubscriberConfig,
    UnableToDeliverStrategy,
};
use iceoryx2_bridge::error::{BridgeError, PortKind};
use iceoryx2_bridge::event::{EventWait, EventsWait, PyListener, PyNotifier};
use iceoryx2_bridge::pubsub::{PyPublisher, PySubscriber};

#[test]
fn notifier_lifecycle() {
    let mut notifier: PyNotifier<u32> = PyNotifier::new("service", None);
    let err = notifier.notifier().unwrap_err();
    assert!(matches!(err, BridgeError::NotCreated(PortKind::Notifier)));
    notifier.attach(7);
    assert_eq!(*notifier.notifier().unwrap(), 7);
    notifier.attach(8);
    assert_eq!(*notifier.notifier().unwrap(), 8);
}

#[test]
fn listener_lifecycle() {
    let mut listener: PyListener<&str> = PyListener::new("service", None);
    assert!(matches!(
        listener.listener().unwrap_err(),
        BridgeError::NotCreated(PortKind::Listener)
    ));
    listener.attach("port");
    assert_eq!(*listener.listener().unwrap(), "port");
}

#[test]
fn service_request_carries_name_and_requirements() {
    let config = PyServiceConfig { max_publishers: Some(2), ..PyServiceConfig::default() };
    let notifier: PyNotifier<()> = PyNotifier::new("My/Service", Some(config));
    let request = notifier.service_request();
    assert_eq!(request.name, "My/Service");
    assert_eq!(request.requirements, vec![("max_publishers".to_string(), "2".to_string())]);

    let listener: PyListener<()> = PyListener::new("other", None);
    let request = listener.service_request();
    assert_eq!(request.name, "other");
    assert!(request.requirements.is_empty());
}

#[test]
fn publisher_lifecycle() {
    let mut publisher: PyPublisher<u8> = PyPublisher::new("data", None, None);
    let err = publisher.publisher().unwrap_err();
    assert!(matches!(err, BridgeError::NotCreated(PortKind::Publisher)));
    assert_eq!(err.message(), "Publisher not created yet");
    publisher.attach(1);
    assert_eq!(*publisher.publisher().unwrap(), 1);
}

#[test]
fn subscriber_lifecycle() {
    let mut subscriber: PySubscriber<u8> = PySubscriber::new("data", None, None);
    let err = subscriber.subscriber().unwrap_err();
    assert!(matches!(err, BridgeError::NotCreated(PortKind::Subscriber)));
    assert_eq!(err.message(), "Publisher not created yet");
    subscriber.attach(2);
    assert_eq!(*subscriber.subscriber().unwrap(), 2);
}

#[test]
fn subscriber_buffer_size() {
    let plain: PySubscriber<()> = PySubscriber::new("data", None, None);
    assert_eq!(plain.buffer_size(), 1);
    let sized: PySubscriber<()> =
        PySubscriber::new("data", None, Some(PySubscriberConfig { buffer_size: Some(5) }));
    assert_eq!(sized.buffer_size(), 5);
    assert_eq!(sized.service_request().name, "data");
}

#[test]
fn publisher_with_default_config_cannot_be_built() {
    let publisher: PyPublisher<()> = PyPublisher::new("data", None, None);
    let err = publisher.settings().unwrap_err();
    assert!(matches!(&err, BridgeError::UnknownUnableToDeliverStrategy(s) if s == "static"));
}

#[test]
fn publisher_settings_report_allocation_first() {
    let config = PyPublisherConfig {
        allocation_strategy: Some("huge".to_string()),
        unable_to_deliver_strategy: Some("drop".to_string()),
        ..PyPublisherConfig::default()
    };
    let publisher: PyPublisher<()> = PyPublisher::new("data", None, Some(config));
    let err = publisher.settings().unwrap_err();
    assert!(matches!(&err, BridgeError::UnknownAllocationStrategy(s) if s == "huge"));
}

#[test]
fn publisher_settings_fill_defaults() {
    let config = PyPublisherConfig {
        unable_to_deliver_strategy: Some("block".to_string()),
        ..PyPublisherConfig::default()
    };
    let publisher: PyPublisher<()> = PyPublisher::new("data", None, Some(config));
    let settings = publisher.settings().unwrap();
    assert_eq!(settings.initial_max_slice_len, 512);
    assert_eq!(settings.allocation_strategy, AllocationStrategy::Static);
    assert_eq!(settings.unable_to_deliver_strategy, UnableToDeliverStrategy::Block);
    assert_eq!(settings.max_loaned_samples, 10);
}

#[test]
fn publisher_settings_take_configured_values() {
    let config = PyPublisherConfig {
        initial_max_slice_len: Some(64),
        allocation_strategy: Some("power_of_two".to_string()),
        unable_to_deliver_strategy: Some("discard_sample".to_string()),
        max_loaned_samples: Some(3),
    };
    let publisher: PyPublisher<()> = PyPublisher::new("data", None, Some(config));
    let settings = publisher.settings().unwrap();
    assert_eq!(settings.initial_max_slice_len, 64);
    assert_eq!(settings.allocation_strategy, AllocationStrategy::PowerOfTwo);
    assert_eq!(settings.unable_to_deliver_strategy, UnableToDeliverStrategy::DiscardSample);
    assert_eq!(settings.max_loaned_samples, 3);
}

#[test]
fn event_wait_ends_on_awaited_event_only() {
    let mut wait = EventWait::new(4);
    assert!(!wait.is_done());
    wait.observe(None);
    assert!(!wait.is_done());
    wait.observe(Some(3));
    assert!(!wait.is_done());
    wait.observe(Some(4));
    assert!(wait.is_done());
}

#[test]
fn events_wait_ends_on_batch_with_awaited_event() {
    let mut wait = EventsWait::new(vec![2, 9]);
    wait.observe(vec![]);
    assert!(!wait.is_done());
    wait.observe(vec![1, 3, 5]);
    assert!(!wait.is_done());
    wait.observe(vec![1, 9, 4]);
    assert!(wait.is_done());
    assert_eq!(wait.into_events(), vec![1, 9, 4]);
}

#[test]
fn events_wait_without_targets_never_ends() {
    let mut wait = EventsWait::new(vec![]);
    wait.observe(vec![0, 1, 2]);
    assert!(!wait.is_done());
    assert!(wait.into_events().is_empty());
}
