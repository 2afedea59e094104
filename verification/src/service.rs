//! What it takes to open or create a service: its name and the attributes
//! that every participant must agree on.

use crate::config::{service_requirements, PyServiceConfig};
use vstd::prelude::*;
use vstd::string::*;

verus! {

/// The values with which a service is opened or created.
pub struct ServiceRequest {
    /// The name of the service.
    pub name: String,
    /// The key-value pairs that the service's attributes must hold.
    pub requirements: Vec<(String, String)>,
}

/// The request that opens or creates the service `name` under `config`.
pub fn service_request(name: &String, config: &PyServiceConfig) -> (r: ServiceRequest)
    ensures
        r.name@ == name@,
        r.requirements.deep_view() == service_requirements(*config),
{
    ServiceRequest { name: name.clone(), requirements: config.requirements() }
}

} // verus!
