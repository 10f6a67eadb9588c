//! The client handle and the ways to make one.

use core::marker::PhantomData;
use vstd::prelude::*;
use vstd::string::*;

use crate::error::ValidationError;
use crate::scheme::{
    has_accepted_scheme, is_accepted_base_url, lemma_accepted_url_is_not_empty,
    lemma_local_url_accepted, lemma_remote_url_accepted,
};
use crate::transport::Transport;

verus! {

/// What a client is, apart from its transport: the two strings it was made
/// with.
pub struct ClientModel {
    pub base_url: Seq<char>,
    pub network_id: Seq<char>,
}

/// A client of the Aleo Beacon API: where the API is, which network it
/// serves, and the transport to reach it with.
///
/// `N` names the network that the client is for and holds no data. `T` is the
/// transport, by default the blocking `ureq::Agent`. The base URL of every
/// client begins with `http://` or `https://`, and nothing changes a client
/// once it is made.
#[derive(Debug)]
pub struct AleoAPIClient<N, T = ureq::Agent> {
    client: T,
    base_url: String,
    network_id: String,
    _network: PhantomData<N>,
}

impl<N, T> View for AleoAPIClient<N, T> {
    type V = ClientModel;

    closed spec fn view(&self) -> ClientModel {
        ClientModel { base_url: self.base_url@, network_id: self.network_id@ }
    }
}

impl<N, T> AleoAPIClient<N, T> {
    #[verifier::type_invariant]
    spec fn accepted(self) -> bool {
        is_accepted_base_url(self.base_url@)
    }

    /// The transport that this client holds.
    pub closed spec fn transport_model(&self) -> T {
        self.client
    }

    /// The base URL, as it was given when the client was made.
    pub fn base_url(&self) -> (url: &str)
        ensures
            url@ == self@.base_url,
            is_accepted_base_url(url@),
            url@.len() > 0,
    {
        proof {
            use_type_invariant(self);
            lemma_accepted_url_is_not_empty(self.base_url@);
        }
        self.base_url.as_str()
    }

    /// The identifier of the network, as it was given when the client was
    /// made.
    pub fn network_id(&self) -> (id: &str)
        ensures
            id@ == self@.network_id,
    {
        self.network_id.as_str()
    }

    /// The transport that was allocated when this client was made.
    pub fn transport(&self) -> (transport: &T)
        ensures
            *transport == self.transport_model(),
    {
        &self.client
    }
}

impl<N, T: Transport> AleoAPIClient<N, T> {
    /// Makes a client for the API at `base_url`, on the network `chain`.
    ///
    /// The URL must begin with `https://`, or with `http://` for local
    /// development; any other is rejected before a transport is allocated, and
    /// comes back in the error. Both strings are kept as they are given, and
    /// nothing is asked of `chain`.
    pub fn new(base_url: &str, chain: &str) -> (made: Result<Self, ValidationError>)
        ensures
            made is Ok <==> is_accepted_base_url(base_url@),
            made matches Ok(client) ==> {
                &&& client@.base_url == base_url@
                &&& client@.network_id == chain@
                &&& call_ensures(T::allocate, (), client.transport_model())
            },
            made matches Err(error) ==> error@ == base_url@,
    {
        if !has_accepted_scheme(base_url) {
            return Err(ValidationError::new(base_url));
        }
        Ok(
            AleoAPIClient {
                client: T::allocate(),
                base_url: base_url.to_owned(),
                network_id: chain.to_owned(),
                _network: PhantomData,
            },
        )
    }

    /// The client for the public `testnet3` endpoint. It cannot fail.
    pub fn testnet3() -> (client: Self)
        ensures
            client@.base_url == "https://vm.aleo.org/api"@,
            client@.network_id == "testnet3"@,
            call_ensures(T::allocate, (), client.transport_model()),
    {
        proof {
            lemma_remote_url_accepted();
        }
        Self::new("https://vm.aleo.org/api", "testnet3").unwrap()
    }

    /// The client for a `testnet3` node on `port` of the local machine. The
    /// port is taken as it is written, a number or not, and the call cannot
    /// fail.
    pub fn local_testnet3(port: &str) -> (client: Self)
        ensures
            client@.base_url == "http://localhost:"@ + port@,
            client@.network_id == "testnet3"@,
            call_ensures(T::allocate, (), client.transport_model()),
    {
        proof {
            lemma_local_url_accepted(port@);
        }
        let url = "http://localhost:".to_owned().concat(port);
        Self::new(url.as_str(), "testnet3").unwrap()
    }
}

impl<N, T: Clone> Clone for AleoAPIClient<N, T> {
    /// A second handle with the same base URL and network identifier, over a
    /// clone of the transport.
    fn clone(&self) -> (copy: Self)
        ensures
            copy@ == self@,
            cloned::<T>(self.transport_model(), copy.transport_model()),
    {
        proof {
            use_type_invariant(self);
        }
        AleoAPIClient {
            client: self.client.clone(),
            base_url: self.base_url.clone(),
            network_id: self.network_id.clone(),
            _network: PhantomData,
        }
    }
}

} // verus!
