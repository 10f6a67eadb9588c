//! The transport behind a client: the object that will carry its requests.
//! A client allocates one when it is made and never looks inside it.

use vstd::prelude::*;

verus! {

/// A transport that a client can allocate for itself, with default settings.
/// Allocation sends nothing over the network.
pub trait Transport: Sized {
    /// A fresh transport. Nothing is known of it but its type.
    fn allocate() -> Self;
}

/// `ureq::Agent`, the blocking HTTP agent. It is opaque here: the library
/// carries one from the place where it is allocated to the caller who sends
/// requests through it.
#[verifier::external_type_specification]
#[verifier::external_body]
pub struct ExAgent(ureq::Agent);

/// `ureq::Agent::new` builds an agent with default settings from no input at
/// all. It opens no connection. Nothing is claimed of the agent it returns.
pub assume_specification[ ureq::Agent::new ]() -> (agent: ureq::Agent);

/// The blocking transport: an agent with default settings.
impl Transport for ureq::Agent {
    fn allocate() -> Self {
        ureq::Agent::new()
    }
}

} // verus!
