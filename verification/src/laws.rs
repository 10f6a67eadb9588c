//! What holds of every client, stated of the functions that make and read
//! one. Each law takes the outcome of a call as a parameter and asks only that
//! it be an outcome which that call can have.

use vstd::prelude::*;

use crate::client::AleoAPIClient;
use crate::error::{lemma_message_names_url_and_schemes, occurs_in, ValidationError};
use crate::scheme::{lemma_local_url_accepted, lemma_remote_url_accepted};
use crate::transport::Transport;

verus! {

/// Making a client succeeds exactly for the base URLs that begin with
/// `http://` or `https://`, whatever the chain; a rejected URL comes back in
/// the error, unchanged.
pub proof fn law_prefix_decides<N, T: Transport>(
    base_url: &str,
    chain: &str,
    made: Result<AleoAPIClient<N, T>, ValidationError>,
)
    requires
        call_ensures(AleoAPIClient::<N, T>::new, (base_url, chain), made),
    ensures
        made is Ok <==> "http://"@.is_prefix_of(base_url@) || "https://"@.is_prefix_of(
            base_url@,
        ),
        made matches Err(error) ==> error@ == base_url@,
{
}

/// The message of a failed attempt repeats the URL that was given and names
/// both accepted schemes.
pub proof fn law_rejection_is_explained<N, T: Transport>(
    base_url: &str,
    chain: &str,
    made: Result<AleoAPIClient<N, T>, ValidationError>,
    text: String,
)
    requires
        call_ensures(AleoAPIClient::<N, T>::new, (base_url, chain), made),
        made is Err,
        call_ensures(ValidationError::message, (&made->Err_0,), text),
    ensures
        occurs_in(base_url@, text@),
        occurs_in("https://"@, text@),
        occurs_in("http://"@, text@),
{
    lemma_message_names_url_and_schemes(base_url@);
}

/// A client gives back the two strings it was made with, exactly: nothing is
/// trimmed, folded or normalised.
pub proof fn law_accessor_round_trip<N, T: Transport>(
    base_url: &str,
    chain: &str,
    made: Result<AleoAPIClient<N, T>, ValidationError>,
    url: &str,
    id: &str,
)
    requires
        call_ensures(AleoAPIClient::<N, T>::new, (base_url, chain), made),
        made is Ok,
        call_ensures(AleoAPIClient::<N, T>::base_url, (&made->Ok_0,), url),
        call_ensures(AleoAPIClient::<N, T>::network_id, (&made->Ok_0,), id),
    ensures
        url@ == base_url@,
        id@ == chain@,
{
}

/// The client for the public endpoint reads `https://vm.aleo.org/api` and
/// `testnet3`.
pub proof fn law_remote_constants<N, T: Transport>(
    client: AleoAPIClient<N, T>,
    url: &str,
    id: &str,
)
    requires
        call_ensures(AleoAPIClient::<N, T>::testnet3, (), client),
        call_ensures(AleoAPIClient::<N, T>::base_url, (&client,), url),
        call_ensures(AleoAPIClient::<N, T>::network_id, (&client,), id),
    ensures
        url@ == "https://vm.aleo.org/api"@,
        id@ == "testnet3"@,
{
}

/// The client for a local node reads `http://localhost:` followed by the port
/// as it was written, and `testnet3`, for every port, a number or not.
pub proof fn law_local_formatting<N, T: Transport>(
    port: &str,
    client: AleoAPIClient<N, T>,
    url: &str,
    id: &str,
)
    requires
        call_ensures(AleoAPIClient::<N, T>::local_testnet3, (port,), client),
        call_ensures(AleoAPIClient::<N, T>::base_url, (&client,), url),
        call_ensures(AleoAPIClient::<N, T>::network_id, (&client,), id),
    ensures
        url@ == "http://localhost:"@ + port@,
        id@ == "testnet3"@,
{
}

/// Two clients made from the same arguments cannot be told apart by their
/// accessors, and neither can a client and its clone.
pub proof fn law_same_arguments_same_client<N, T: Transport + Clone>(
    base_url: &str,
    chain: &str,
    first: Result<AleoAPIClient<N, T>, ValidationError>,
    second: Result<AleoAPIClient<N, T>, ValidationError>,
    copy: AleoAPIClient<N, T>,
)
    requires
        call_ensures(AleoAPIClient::<N, T>::new, (base_url, chain), first),
        call_ensures(AleoAPIClient::<N, T>::new, (base_url, chain), second),
        first is Ok ==> call_ensures(AleoAPIClient::<N, T>::clone, (&first->Ok_0,), copy),
    ensures
        first is Ok <==> second is Ok,
        first is Ok ==> first->Ok_0@ == second->Ok_0@ && copy@ == first->Ok_0@,
        first is Err ==> first->Err_0@ == second->Err_0@,
{
}

/// Reading a client twice gives the same strings: an accessor changes nothing.
pub proof fn law_accessors_are_stable<N, T>(
    client: AleoAPIClient<N, T>,
    url: &str,
    url_again: &str,
    id: &str,
    id_again: &str,
)
    requires
        call_ensures(AleoAPIClient::<N, T>::base_url, (&client,), url),
        call_ensures(AleoAPIClient::<N, T>::base_url, (&client,), url_again),
        call_ensures(AleoAPIClient::<N, T>::network_id, (&client,), id),
        call_ensures(AleoAPIClient::<N, T>::network_id, (&client,), id_again),
    ensures
        url@ == url_again@,
        id@ == id_again@,
{
}

/// The two named constructors take every input, and the URLs they make a
/// client from are never rejected: not the public endpoint's, and not the
/// local one, whatever stands for the port.
pub proof fn law_named_constructors_never_fail<N, T: Transport>(
    port: &str,
    local_url: &str,
    remote: Result<AleoAPIClient<N, T>, ValidationError>,
    local: Result<AleoAPIClient<N, T>, ValidationError>,
)
    requires
        local_url@ == "http://localhost:"@ + port@,
        call_ensures(AleoAPIClient::<N, T>::new, ("https://vm.aleo.org/api", "testnet3"), remote),
        call_ensures(AleoAPIClient::<N, T>::new, (local_url, "testnet3"), local),
    ensures
        call_requires(AleoAPIClient::<N, T>::testnet3, ()),
        call_requires(AleoAPIClient::<N, T>::local_testnet3, (port,)),
        remote is Ok,
        local is Ok,
{
    lemma_remote_url_accepted();
    lemma_local_url_accepted(port@);
}

} // verus!
