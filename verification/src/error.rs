//! The errors that the library reports, and the text it reports them with.

use vstd::prelude::*;
use vstd::string::*;

verus! {

/// The kinds of ports whose lifecycle the library tracks.
#[derive(Clone, Copy, Debug, PartialEq, Eq, Structural)]
pub enum PortKind {
    Notifier,
    Listener,
    Publisher,
    Subscriber,
}

/// How the front end classifies an error.
#[derive(Clone, Copy, Debug, PartialEq, Eq, Structural)]
pub enum ErrorClass {
    /// A failure of the operating system or of the middleware.
    OsError,
    /// A value that the caller handed in, or a port used before it exists.
    ValueError,
}

/// The errors of the library.
#[derive(Clone, Debug)]
pub enum BridgeError {
    /// The middleware refused `name` as a service name, for `reason`.
    InvalidServiceName { name: String, reason: String },
    /// The port was used before it was created.
    NotCreated(PortKind),
    /// The publisher configuration names an allocation strategy that does not exist.
    UnknownAllocationStrategy(String),
    /// The publisher configuration names an unable-to-deliver strategy that does not exist.
    UnknownUnableToDeliverStrategy(String),
}

/// The subject of the "not created yet" message of a port of `kind`.
/// A subscriber reports itself under the publisher's name.
pub open spec fn port_subject(kind: PortKind) -> Seq<char> {
    match kind {
        PortKind::Notifier => "Notifier"@,
        PortKind::Listener => "Listener"@,
        PortKind::Publisher => "Publisher"@,
        PortKind::Subscriber => "Publisher"@,
    }
}

/// The message text of `e`.
pub open spec fn error_text(e: BridgeError) -> Seq<char> {
    match e {
        BridgeError::InvalidServiceName { name, reason } =>
            "Could not instantiate service name "@ + name@ + ": "@ + reason@,
        BridgeError::NotCreated(kind) => port_subject(kind) + " not created yet"@,
        BridgeError::UnknownAllocationStrategy(s) => "Unknown alloc start "@ + s@,
        BridgeError::UnknownUnableToDeliverStrategy(s) => "Unknown unable-to-deliver start "@ + s@,
    }
}

/// The class of `e`: a refused service name is a failure of the middleware,
/// every other error is a value error.
pub open spec fn error_class(e: BridgeError) -> ErrorClass {
    match e {
        BridgeError::InvalidServiceName { .. } => ErrorClass::OsError,
        _ => ErrorClass::ValueError,
    }
}

/// Every message ends with what it reports: the refused name's reason, the
/// rejected strategy name, or, for a port used too early, the words
/// ` not created yet` after the port's name; a refused service name is also
/// quoted in full.
pub proof fn lemma_error_text_carries_values(e: BridgeError)
    ensures
        e matches BridgeError::InvalidServiceName { name, reason } ==> {
            let t = error_text(e);
            let pre = "Could not instantiate service name "@;
            &&& t.len() == pre.len() + name@.len() + 2 + reason@.len()
            &&& t.subrange(pre.len() as int, (pre.len() + name@.len()) as int) == name@
            &&& t.subrange(t.len() - reason@.len(), t.len() as int) == reason@
        },
        e matches BridgeError::UnknownAllocationStrategy(s) ==> {
            let t = error_text(e);
            &&& t.len() >= s@.len()
            &&& t.subrange(t.len() - s@.len(), t.len() as int) == s@
            &&& t.subrange(0, t.len() - s@.len()) == "Unknown alloc start "@
        },
        e matches BridgeError::UnknownUnableToDeliverStrategy(s) ==> {
            let t = error_text(e);
            &&& t.len() >= s@.len()
            &&& t.subrange(t.len() - s@.len(), t.len() as int) == s@
            &&& t.subrange(0, t.len() - s@.len()) == "Unknown unable-to-deliver start "@
        },
        e matches BridgeError::NotCreated(k) ==> {
            let t = error_text(e);
            let suffix = " not created yet"@;
            &&& t.len() >= suffix.len()
            &&& t.subrange(t.len() - suffix.len(), t.len() as int) == suffix
            &&& t.subrange(0, t.len() - suffix.len()) == if k == PortKind::Notifier {
                "Notifier"@
            } else if k == PortKind::Listener {
                "Listener"@
            } else {
                "Publisher"@
            }
        },
{
    reveal_strlit(": ");
    let t = error_text(e);
    match e {
        BridgeError::InvalidServiceName { name, reason } => {
            let pre = "Could not instantiate service name "@;
            assert(t.subrange(pre.len() as int, (pre.len() + name@.len()) as int) =~= name@);
            assert(t.subrange(t.len() - reason@.len(), t.len() as int) =~= reason@);
        },
        BridgeError::UnknownAllocationStrategy(s) => {
            assert(t.subrange(t.len() - s@.len(), t.len() as int) =~= s@);
            assert(t.subrange(0, t.len() - s@.len()) =~= "Unknown alloc start "@);
        },
        BridgeError::UnknownUnableToDeliverStrategy(s) => {
            assert(t.subrange(t.len() - s@.len(), t.len() as int) =~= s@);
            assert(t.subrange(0, t.len() - s@.len()) =~= "Unknown unable-to-deliver start "@);
        },
        BridgeError::NotCreated(k) => {
            let suffix = " not created yet"@;
            assert(t.subrange(t.len() - suffix.len(), t.len() as int) =~= suffix);
            assert(t.subrange(0, t.len() - suffix.len()) =~= port_subject(k));
        },
    }
}

impl BridgeError {
    /// The message that the front end shows for this error.
    pub fn message(&self) -> (s: String)
        ensures
            s@ == error_text(*self),
    {
        match self {
            BridgeError::InvalidServiceName { name, reason } => {
                let mut s = String::from_str("Could not instantiate service name ");
                s.append(name.as_str());
                s.append(": ");
                s.append(reason.as_str());
                s
            },
            BridgeError::NotCreated(kind) => {
                let mut s = match kind {
                    PortKind::Notifier => String::from_str("Notifier"),
                    PortKind::Listener => String::from_str("Listener"),
                    PortKind::Publisher => String::from_str("Publisher"),
                    PortKind::Subscriber => String::from_str("Publisher"),
                };
                s.append(" not created yet");
                s
            },
            BridgeError::UnknownAllocationStrategy(strat) => {
                let mut s = String::from_str("Unknown alloc start ");
                s.append(strat.as_str());
                s
            },
            BridgeError::UnknownUnableToDeliverStrategy(strat) => {
                let mut s = String::from_str("Unknown unable-to-deliver start ");
                s.append(strat.as_str());
                s
            },
        }
    }

    /// How the front end classifies this error.
    pub fn class(&self) -> (c: ErrorClass)
        ensures
            c == error_class(*self),
            c == ErrorClass::OsError <==> self is InvalidServiceName,
            c == ErrorClass::ValueError <==> !(self is InvalidServiceName),
    {
        match self {
            BridgeError::InvalidServiceName { .. } => ErrorClass::OsError,
            _ => ErrorClass::ValueError,
        }
    }
}

} // verus!
