//! Publisher and subscriber ports of a publish-subscribe service for byte
//! payloads.

use crate::config::{
    allocation_strategy_of, allocation_strategy_named, strategy_name, empty_publisher_config, lemma_allocation_strategy_by_name,
    lemma_unable_to_deliver_strategy_by_name, unable_to_deliver_strategy_named, empty_service_config,
    empty_subscriber_config, service_requirements, unable_to_deliver_strategy_of,
    AllocationStrategy, PyPublisherConfig, PyServiceConfig, PySubscriberConfig,
    UnableToDeliverStrategy, DEFAULT_BUFFER_SIZE, DEFAULT_INITIAL_MAX_SLICE_LEN,
    DEFAULT_MAX_LOANED_SAMPLES,
};
use crate::error::{BridgeError, PortKind};
use crate::service::{service_request, ServiceRequest};
use vstd::prelude::*;
use vstd::string::*;

verus! {

/// The settings with which a publisher port is built.
#[derive(Clone, Copy, Debug)]
pub struct PublisherSettings {
    pub initial_max_slice_len: usize,
    pub allocation_strategy: AllocationStrategy,
    pub unable_to_deliver_strategy: UnableToDeliverStrategy,
    pub max_loaned_samples: usize,
}

/// What the publisher configuration `c` yields as settings: the error of its
/// allocation strategy if it has one, else the error of its unable-to-deliver
/// strategy if it has one, else the settings with the defaults filled in.
pub open spec fn publisher_settings_of(c: PyPublisherConfig, r: Result<PublisherSettings, BridgeError>) -> bool {
    match r {
        Ok(s) => {
            &&& allocation_strategy_of(c, Ok(s.allocation_strategy))
            &&& unable_to_deliver_strategy_of(c, Ok(s.unable_to_deliver_strategy))
            &&& s.initial_max_slice_len == c.initial_max_slice_len.unwrap_or(DEFAULT_INITIAL_MAX_SLICE_LEN)
            &&& s.max_loaned_samples == c.max_loaned_samples.unwrap_or(DEFAULT_MAX_LOANED_SAMPLES)
        },
        Err(e) => {
            ||| allocation_strategy_of(c, Err(e))
            ||| (exists|a: AllocationStrategy| allocation_strategy_of(c, Ok(a)))
                && unable_to_deliver_strategy_of(c, Err(e))
        },
    }
}

/// A publisher whose configuration leaves the unable-to-deliver strategy
/// unset is never built: the name `static` that stands in for it is no
/// unable-to-deliver strategy.
pub proof fn lemma_unset_unable_to_deliver_is_rejected(
    c: PyPublisherConfig,
    r: Result<PublisherSettings, BridgeError>,
)
    requires
        c.unable_to_deliver_strategy is None,
        publisher_settings_of(c, r),
    ensures
        r is Err,
{
    reveal_strlit("static");
    reveal_strlit("block");
    reveal_strlit("discard_sample");
    assert("static"@.len() != "block"@.len());
    assert("static"@.len() != "discard_sample"@.len());
}

/// The settings of a publisher agree, field by field, with what the
/// configuration's own getters give: the slice length and the loan count are
/// the configured ones or their defaults, whatever the strategies are, and
/// each strategy is the one its own name resolves to.
pub proof fn lemma_settings_agree_with_config(c: PyPublisherConfig, s: PublisherSettings)
    requires
        publisher_settings_of(c, Ok(s)),
    ensures
        s.initial_max_slice_len == c.initial_max_slice_len.unwrap_or(DEFAULT_INITIAL_MAX_SLICE_LEN),
        s.max_loaned_samples == c.max_loaned_samples.unwrap_or(DEFAULT_MAX_LOANED_SAMPLES),
        allocation_strategy_of(c, Ok(s.allocation_strategy)),
        unable_to_deliver_strategy_of(c, Ok(s.unable_to_deliver_strategy)),
{
}

/// Configurations that differ only in their allocation strategy, and both
/// build, are built with the same slice length, loan count and
/// unable-to-deliver strategy.
pub proof fn lemma_settings_slice_len_independent_of_allocation(
    c1: PyPublisherConfig,
    c2: PyPublisherConfig,
    s1: PublisherSettings,
    s2: PublisherSettings,
)
    requires
        c1.initial_max_slice_len == c2.initial_max_slice_len,
        c1.unable_to_deliver_strategy == c2.unable_to_deliver_strategy,
        c1.max_loaned_samples == c2.max_loaned_samples,
        publisher_settings_of(c1, Ok(s1)),
        publisher_settings_of(c2, Ok(s2)),
    ensures
        s1.initial_max_slice_len == s2.initial_max_slice_len,
        s1.max_loaned_samples == s2.max_loaned_samples,
        s1.unable_to_deliver_strategy == s2.unable_to_deliver_strategy,
{
    lemma_settings_agree_with_config(c1, s1);
    lemma_settings_agree_with_config(c2, s2);
    lemma_unable_to_deliver_strategy_by_name(c1, Ok(s1.unable_to_deliver_strategy));
    lemma_unable_to_deliver_strategy_by_name(c2, Ok(s2.unable_to_deliver_strategy));
}

/// A configuration whose two strategy names both resolve always builds.
pub proof fn lemma_settings_succeed_when_strategies_resolve(
    c: PyPublisherConfig,
    r: Result<PublisherSettings, BridgeError>,
    a: AllocationStrategy,
    u: UnableToDeliverStrategy,
)
    requires
        allocation_strategy_of(c, Ok(a)),
        unable_to_deliver_strategy_of(c, Ok(u)),
        publisher_settings_of(c, r),
    ensures
        r matches Ok(s) && s.allocation_strategy == a && s.unable_to_deliver_strategy == u,
{
    lemma_allocation_strategy_by_name(c, Ok(a));
    lemma_unable_to_deliver_strategy_by_name(c, Ok(u));
    if r is Err {
        let e = r->Err_0;
        if allocation_strategy_of(c, Err(e)) {
            lemma_allocation_strategy_by_name(c, Err(e));
        } else {
            lemma_unable_to_deliver_strategy_by_name(c, Err(e));
        }
    } else {
        let s = r->Ok_0;
        lemma_allocation_strategy_by_name(c, Ok(s.allocation_strategy));
        lemma_unable_to_deliver_strategy_by_name(c, Ok(s.unable_to_deliver_strategy));
    }
}

/// A configuration fails to build exactly when one of its strategy names does
/// not resolve; an unknown allocation strategy is reported in preference to
/// an unknown unable-to-deliver strategy, and the error carries the name.
pub proof fn lemma_settings_error_order(c: PyPublisherConfig, r: Result<PublisherSettings, BridgeError>)
    requires
        publisher_settings_of(c, r),
    ensures
        r is Err <==> (allocation_strategy_named(strategy_name(c.allocation_strategy)) is None
            || unable_to_deliver_strategy_named(strategy_name(c.unable_to_deliver_strategy)) is None),
        r is Err && allocation_strategy_named(strategy_name(c.allocation_strategy)) is None
            ==> (r matches Err(BridgeError::UnknownAllocationStrategy(s))
                && s@ == strategy_name(c.allocation_strategy)),
        r is Err && allocation_strategy_named(strategy_name(c.allocation_strategy)) is Some
            ==> (r matches Err(BridgeError::UnknownUnableToDeliverStrategy(s))
                && s@ == strategy_name(c.unable_to_deliver_strategy)),
{
    match allocation_strategy_named(strategy_name(c.allocation_strategy)) {
        Some(a) => {
            assert(allocation_strategy_of(c, Ok(a)));
            match unable_to_deliver_strategy_named(strategy_name(c.unable_to_deliver_strategy)) {
                Some(u) => {
                    assert(unable_to_deliver_strategy_of(c, Ok(u)));
                    lemma_settings_succeed_when_strategies_resolve(c, r, a, u);
                },
                None => {},
            }
        },
        None => {},
    }
}

/// A publisher port on the service `name`. `H` is the middleware's
/// publisher, present once the port has been created.
pub struct PyPublisher<H> {
    name: String,
    service_config: PyServiceConfig,
    publisher_config: PyPublisherConfig,
    inner: Option<H>,
}

impl<H> PyPublisher<H> {
    /// The name of the service.
    pub closed spec fn service_name(&self) -> Seq<char> {
        self.name@
    }

    /// The configuration of the service.
    pub closed spec fn config(&self) -> PyServiceConfig {
        self.service_config
    }

    /// The configuration of the port.
    pub closed spec fn port_config(&self) -> PyPublisherConfig {
        self.publisher_config
    }

    /// The middleware's port, once created.
    pub closed spec fn port(&self) -> Option<H> {
        self.inner
    }

    /// A publisher for the service `name` that is not created yet; each
    /// configuration is the one given, or the empty one.
    pub fn new(
        name: &str,
        service_config: Option<PyServiceConfig>,
        publisher_config: Option<PyPublisherConfig>,
    ) -> (p: Self)
        ensures
            p.service_name() == name@,
            p.config() == service_config.unwrap_or(empty_service_config()),
            p.port_config() == publisher_config.unwrap_or(empty_publisher_config()),
            p.port() is None,
    {
        let service_config = match service_config {
            Some(c) => c,
            None => PyServiceConfig::default(),
        };
        let publisher_config = match publisher_config {
            Some(c) => c,
            None => PyPublisherConfig::default(),
        };
        PyPublisher { name: String::from_str(name), service_config, publisher_config, inner: None }
    }

    /// The service that creating this publisher opens or creates.
    pub fn service_request(&self) -> (r: ServiceRequest)
        ensures
            r.name@ == self.service_name(),
            r.requirements.deep_view() == service_requirements(self.config()),
    {
        service_request(&self.name, &self.service_config)
    }

    /// The settings with which the publisher is built.
    pub fn settings(&self) -> (r: Result<PublisherSettings, BridgeError>)
        ensures
            publisher_settings_of(self.port_config(), r),
            r matches Ok(s) ==> s.initial_max_slice_len
                == self.port_config().initial_max_slice_len.unwrap_or(DEFAULT_INITIAL_MAX_SLICE_LEN),
            r matches Ok(s) ==> s.max_loaned_samples
                == self.port_config().max_loaned_samples.unwrap_or(DEFAULT_MAX_LOANED_SAMPLES),
            r matches Ok(s) ==> s.initial_max_slice_len == self.port_config().initial_max_slice_len.unwrap_or(512)
                && s.max_loaned_samples == self.port_config().max_loaned_samples.unwrap_or(10),
            r matches Ok(s) ==> {
                let a = strategy_name(self.port_config().allocation_strategy);
                let u = strategy_name(self.port_config().unable_to_deliver_strategy);
                &&& (s.allocation_strategy == AllocationStrategy::Static <==> a == "static"@)
                &&& (s.allocation_strategy == AllocationStrategy::BestFit <==> a == "best_fit"@)
                &&& (s.allocation_strategy == AllocationStrategy::PowerOfTwo <==> a == "power_of_two"@)
                &&& (s.unable_to_deliver_strategy == UnableToDeliverStrategy::Block <==> u == "block"@)
                &&& (s.unable_to_deliver_strategy == UnableToDeliverStrategy::DiscardSample <==> u == "discard_sample"@)
            },
            r is Err ==> {
                ||| r matches Err(BridgeError::UnknownAllocationStrategy(s))
                    && s@ == strategy_name(self.port_config().allocation_strategy)
                ||| r matches Err(BridgeError::UnknownUnableToDeliverStrategy(s))
                    && s@ == strategy_name(self.port_config().unable_to_deliver_strategy)
            },
    {
        let initial_max_slice_len = self.publisher_config.initial_max_slice_len();
        let allocation_strategy = match self.publisher_config.allocation_strategy() {
            Ok(a) => a,
            Err(e) => return Err(e),
        };
        let unable_to_deliver_strategy = match self.publisher_config.unable_to_deliver_strategy() {
            Ok(u) => u,
            Err(e) => return Err(e),
        };
        let max_loaned_samples = self.publisher_config.max_loaned_samples();
        Ok(PublisherSettings {
            initial_max_slice_len,
            allocation_strategy,
            unable_to_deliver_strategy,
            max_loaned_samples,
        })
    }

    /// Records the middleware's publisher once it has been created, in place
    /// of any earlier one.
    pub fn attach(&mut self, port: H)
        ensures
            final(self).port() == Some(port),
            final(self).service_name() == old(self).service_name(),
            final(self).config() == old(self).config(),
            final(self).port_config() == old(self).port_config(),
    {
        self.inner = Some(port);
    }

    /// The port through which payloads are sent; an error if the publisher
    /// is not created yet.
    pub fn publisher(&self) -> (r: Result<&H, BridgeError>)
        ensures
            match self.port() {
                Some(p) => r matches Ok(q) && *q == p,
                None => r == Err::<&H, BridgeError>(BridgeError::NotCreated(PortKind::Publisher)),
            },
    {
        match &self.inner {
            Some(p) => Ok(p),
            None => Err(BridgeError::NotCreated(PortKind::Publisher)),
        }
    }
}

/// A subscriber port on the service `name`. `H` is the middleware's
/// subscriber, present once the port has been created.
pub struct PySubscriber<H> {
    name: String,
    service_config: PyServiceConfig,
    subscriber_config: PySubscriberConfig,
    inner: Option<H>,
}

impl<H> PySubscriber<H> {
    /// The name of the service.
    pub closed spec fn service_name(&self) -> Seq<char> {
        self.name@
    }

    /// The configuration of the service.
    pub closed spec fn config(&self) -> PyServiceConfig {
        self.service_config
    }

    /// The configuration of the port.
    pub closed spec fn port_config(&self) -> PySubscriberConfig {
        self.subscriber_config
    }

    /// The middleware's port, once created.
    pub closed spec fn port(&self) -> Option<H> {
        self.inner
    }

    /// A subscriber for the service `name` that is not created yet; each
    /// configuration is the one given, or the empty one.
    pub fn new(
        name: &str,
        service_config: Option<PyServiceConfig>,
        subscriber_config: Option<PySubscriberConfig>,
    ) -> (s: Self)
        ensures
            s.service_name() == name@,
            s.config() == service_config.unwrap_or(empty_service_config()),
            s.port_config() == subscriber_config.unwrap_or(empty_subscriber_config()),
            s.port() is None,
    {
        let service_config = match service_config {
            Some(c) => c,
            None => PyServiceConfig::default(),
        };
        let subscriber_config = match subscriber_config {
            Some(c) => c,
            None => PySubscriberConfig::default(),
        };
        PySubscriber { name: String::from_str(name), service_config, subscriber_config, inner: None }
    }

    /// The service that creating this subscriber opens or creates.
    pub fn service_request(&self) -> (r: ServiceRequest)
        ensures
            r.name@ == self.service_name(),
            r.requirements.deep_view() == service_requirements(self.config()),
    {
        service_request(&self.name, &self.service_config)
    }

    /// The buffer size with which the subscriber is built.
    pub fn buffer_size(&self) -> (n: usize)
        ensures
            n == self.port_config().buffer_size.unwrap_or(DEFAULT_BUFFER_SIZE),
            n == self.port_config().buffer_size.unwrap_or(1),
    {
        self.subscriber_config.buffer_size()
    }

    /// Records the middleware's subscriber once it has been created, in place
    /// of any earlier one.
    pub fn attach(&mut self, port: H)
        ensures
            final(self).port() == Some(port),
            final(self).service_name() == old(self).service_name(),
            final(self).config() == old(self).config(),
            final(self).port_config() == old(self).port_config(),
    {
        self.inner = Some(port);
    }

    /// The port from which payloads are received; an error if the
    /// subscriber is not created yet.
    pub fn subscriber(&self) -> (r: Result<&H, BridgeError>)
        ensures
            match self.port() {
                Some(p) => r matches Ok(q) && *q == p,
                None => r == Err::<&H, BridgeError>(BridgeError::NotCreated(PortKind::Subscriber)),
            },
    {
        match &self.inner {
            Some(p) => Ok(p),
            None => Err(BridgeError::NotCreated(PortKind::Subscriber)),
        }
    }
}

} // verus!
