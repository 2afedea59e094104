//! Notifier and listener ports, and the decisions of the loops that wait for
//! events.

use crate::config::{empty_service_config, service_requirements, PyServiceConfig};
use crate::error::{BridgeError, PortKind};
use crate::service::{service_request, ServiceRequest};
use vstd::prelude::*;
use vstd::string::*;

verus! {

/// A notifier port on the event service `name`. `H` is the middleware's
/// notifier, present once the port has been created.
pub struct PyNotifier<H> {
    name: String,
    service_config: PyServiceConfig,
    inner: Option<H>,
}

impl<H> PyNotifier<H> {
    /// The name of the service.
    pub closed spec fn service_name(&self) -> Seq<char> {
        self.name@
    }

    /// The configuration of the service.
    pub closed spec fn config(&self) -> PyServiceConfig {
        self.service_config
    }

    /// The middleware's port, once created.
    pub closed spec fn port(&self) -> Option<H> {
        self.inner
    }

    /// A notifier for the service `name` that is not created yet; the service
    /// configuration is the one given, or the empty one.
    pub fn new(name: &str, service_config: Option<PyServiceConfig>) -> (n: Self)
        ensures
            n.service_name() == name@,
            n.config() == service_config.unwrap_or(empty_service_config()),
            n.port() is None,
    {
        let service_config = match service_config {
            Some(c) => c,
            None => PyServiceConfig::default(),
        };
        PyNotifier { name: String::from_str(name), service_config, inner: None }
    }

    /// The service that creating this notifier opens or creates.
    pub fn service_request(&self) -> (r: ServiceRequest)
        ensures
            r.name@ == self.service_name(),
            r.requirements.deep_view() == service_requirements(self.config()),
    {
        service_request(&self.name, &self.service_config)
    }

    /// Records the middleware's notifier once it has been created, in place
    /// of any earlier one.
    pub fn attach(&mut self, port: H)
        ensures
            final(self).port() == Some(port),
            final(self).service_name() == old(self).service_name(),
            final(self).config() == old(self).config(),
    {
        self.inner = Some(port);
    }

    /// The port through which events are notified; an error if the notifier
    /// is not created yet.
    pub fn notifier(&self) -> (r: Result<&H, BridgeError>)
        ensures
            match self.port() {
                Some(p) => r matches Ok(q) && *q == p,
                None => r == Err::<&H, BridgeError>(BridgeError::NotCreated(PortKind::Notifier)),
            },
    {
        match &self.inner {
            Some(p) => Ok(p),
            None => Err(BridgeError::NotCreated(PortKind::Notifier)),
        }
    }
}

/// A listener port on the event service `name`. `H` is the middleware's
/// listener, present once the port has been created.
pub struct PyListener<H> {
    name: String,
    service_config: PyServiceConfig,
    inner: Option<H>,
}

impl<H> PyListener<H> {
    /// The name of the service.
    pub closed spec fn service_name(&self) -> Seq<char> {
        self.name@
    }

    /// The configuration of the service.
    pub closed spec fn config(&self) -> PyServiceConfig {
        self.service_config
    }

    /// The middleware's port, once created.
    pub closed spec fn port(&self) -> Option<H> {
        self.inner
    }

    /// A listener for the service `name` that is not created yet; the service
    /// configuration is the one given, or the empty one.
    pub fn new(name: &str, service_config: Option<PyServiceConfig>) -> (n: Self)
        ensures
            n.service_name() == name@,
            n.config() == service_config.unwrap_or(empty_service_config()),
            n.port() is None,
    {
        let service_config = match service_config {
            Some(c) => c,
            None => PyServiceConfig::default(),
        };
        PyListener { name: String::from_str(name), service_config, inner: None }
    }

    /// The service that creating this listener opens or creates.
    pub fn service_request(&self) -> (r: ServiceRequest)
        ensures
            r.name@ == self.service_name(),
            r.requirements.deep_view() == service_requirements(self.config()),
    {
        service_request(&self.name, &self.service_config)
    }

    /// Records the middleware's listener once it has been created, in place
    /// of any earlier one.
    pub fn attach(&mut self, port: H)
        ensures
            final(self).port() == Some(port),
            final(self).service_name() == old(self).service_name(),
            final(self).config() == old(self).config(),
    {
        self.inner = Some(port);
    }

    /// The port on which events are awaited; an error if the listener
    /// is not created yet.
    pub fn listener(&self) -> (r: Result<&H, BridgeError>)
        ensures
            match self.port() {
                Some(p) => r matches Ok(q) && *q == p,
                None => r == Err::<&H, BridgeError>(BridgeError::NotCreated(PortKind::Listener)),
            },
    {
        match &self.inner {
            Some(p) => Ok(p),
            None => Err(BridgeError::NotCreated(PortKind::Listener)),
        }
    }
}


/// The state of a wait for the event id `target`: whether it has been
/// received.
pub struct EventWait {
    target: usize,
    found: bool,
}

impl EventWait {
    /// The event id awaited.
    pub closed spec fn awaited(&self) -> usize {
        self.target
    }

    /// Whether the awaited event id has been received.
    pub closed spec fn received(&self) -> bool {
        self.found
    }

    /// A wait for `target` that has received nothing yet.
    pub fn new(target: usize) -> (w: Self)
        ensures
            w.awaited() == target,
            !w.received(),
    {
        EventWait { target, found: false }
    }

    /// Whether the wait is over.
    pub fn is_done(&self) -> (b: bool)
        ensures
            b == self.received(),
    {
        self.found
    }

    /// Takes in the outcome of one timed wait: an event id, or none when the
    /// wait timed out. An event id ends the wait exactly when it is the one
    /// awaited; a time-out changes nothing.
    pub fn observe(&mut self, outcome: Option<usize>)
        ensures
            final(self).awaited() == old(self).awaited(),
            final(self).received() == match outcome {
                Some(e) => e == old(self).awaited(),
                None => old(self).received(),
            },
    {
        if let Some(e) = outcome {
            self.found = e == self.target;
        }
    }
}

/// Whether some element of `batch` is one of `wanted`.
pub open spec fn meets(wanted: Seq<usize>, batch: Seq<usize>) -> bool {
    exists|i: int| 0 <= i < batch.len() && wanted.contains(#[trigger] batch[i])
}

/// A batch meets the awaited ids exactly when the two share an event id,
/// wherever in the batch it stands.
pub proof fn lemma_meets_shared_id(wanted: Seq<usize>, batch: Seq<usize>)
    ensures
        meets(wanted, batch) <==> exists|x: usize| batch.contains(x) && wanted.contains(x),
{
    if meets(wanted, batch) {
        let i = choose|i: int| 0 <= i < batch.len() && wanted.contains(#[trigger] batch[i]);
        assert(batch.contains(batch[i]));
    }
    if exists|x: usize| batch.contains(x) && wanted.contains(x) {
        let x = choose|x: usize| batch.contains(x) && wanted.contains(x);
        let i = choose|i: int| 0 <= i < batch.len() && batch[i] == x;
        assert(wanted.contains(batch[i]));
    }
}

/// A batch that shares no event id with the awaited ones never meets them,
/// and adding event ids to a batch keeps a batch that meets them meeting them.
pub proof fn lemma_meets_monotone(wanted: Seq<usize>, a: Seq<usize>, b: Seq<usize>)
    ensures
        (forall|i: int| 0 <= i < a.len() ==> !wanted.contains(#[trigger] a[i])) ==> !meets(wanted, a),
        meets(wanted, a) ==> meets(wanted, a + b) && meets(wanted, b + a),
{
    if meets(wanted, a) {
        let i = choose|i: int| 0 <= i < a.len() && wanted.contains(#[trigger] a[i]);
        assert((a + b)[i] == a[i]);
        assert((b + a)[b.len() + i] == a[i]);
    }
}

fn contains(v: &Vec<usize>, x: usize) -> (b: bool)
    ensures
        b == v@.contains(x),
{
    let mut i: usize = 0;
    while i < v.len()
        invariant
            i <= v.len(),
            forall|j: int| 0 <= j < i ==> v@[j] != x,
        decreases v.len() - i,
    {
        if v[i] == x {
            return true;
        }
        i = i + 1;
    }
    false
}

/// The state of a wait for any of several event ids: the batch of event ids
/// that ended it, once one has.
pub struct EventsWait {
    targets: Vec<usize>,
    result: Option<Vec<usize>>,
}

impl EventsWait {
    /// The event ids awaited.
    pub closed spec fn awaited(&self) -> Seq<usize> {
        self.targets@
    }

    /// The batch that ended the wait, once one has.
    pub closed spec fn outcome(&self) -> Option<Seq<usize>> {
        match self.result {
            Some(b) => Some(b@),
            None => None,
        }
    }

    /// A finished wait ended on a batch that holds an awaited event id.
    #[verifier::type_invariant]
    spec fn wf(&self) -> bool {
        self.result matches Some(b) ==> meets(self.targets@, b@)
    }

    /// A wait for any of `targets` that has received nothing yet.
    pub fn new(targets: Vec<usize>) -> (w: Self)
        ensures
            w.awaited() == targets@,
            w.outcome() is None,
    {
        EventsWait { targets, result: None }
    }

    /// Whether the wait is over.
    pub fn is_done(&self) -> (b: bool)
        ensures
            b == self.outcome() is Some,
    {
        self.result.is_some()
    }

    /// Takes in the event ids that one timed wait collected. A batch that
    /// holds any awaited event id ends the wait, and the whole batch is its
    /// outcome; any other batch changes nothing.
    pub fn observe(&mut self, batch: Vec<usize>)
        ensures
            final(self).awaited() == old(self).awaited(),
            final(self).outcome() matches Some(b) ==> meets(final(self).awaited(), b),
            forall|i: int|
                0 <= i < batch@.len() && old(self).awaited().contains(#[trigger] batch@[i])
                    ==> final(self).outcome() == Some(batch@),
            (forall|i: int| 0 <= i < batch@.len() ==> !old(self).awaited().contains(#[trigger] batch@[i]))
                ==> final(self).outcome() == old(self).outcome(),
            final(self).outcome() == if meets(old(self).awaited(), batch@) {
                Some(batch@)
            } else {
                old(self).outcome()
            },
    {
        proof {
            use_type_invariant(&*self);
        }
        let mut i: usize = 0;
        while i < batch.len()
            invariant
                i <= batch.len(),
                *self == *old(self),
                forall|j: int| 0 <= j < i ==> !self.targets@.contains(#[trigger] batch@[j]),
            decreases batch.len() - i,
        {
            if contains(&self.targets, batch[i]) {
                assert(self.targets@.contains(batch@[i as int]));
                self.result = Some(batch);
                return;
            }
            i = i + 1;
        }
    }

    /// The batch that ended the wait; empty while the wait is not over.
    pub fn into_events(self) -> (events: Vec<usize>)
        ensures
            self.outcome() is Some ==> meets(self.awaited(), events@),
            events@ == match self.outcome() {
                Some(b) => b,
                None => Seq::empty(),
            },
    {
        proof {
            use_type_invariant(&self);
        }
        match self.result {
            Some(b) => b,
            None => Vec::new(),
        }
    }
}

} // verus!
