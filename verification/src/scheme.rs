//! Which base URLs a client accepts: those that begin with `http://` or
//! `https://`.

use vstd::prelude::*;
use vstd::std_specs::iter::IteratorSpec;
use vstd::string::*;

verus! {

/// The scheme prefix of an endpoint served in the clear, as for local
/// development.
pub open spec fn http_prefix() -> Seq<char> {
    "http://"@
}

/// The scheme prefix of an endpoint served over TLS.
pub open spec fn https_prefix() -> Seq<char> {
    "https://"@
}

/// A base URL is accepted when it begins with one of the two scheme prefixes.
/// Nothing else is asked of it.
pub open spec fn is_accepted_base_url(url: Seq<char>) -> bool {
    http_prefix().is_prefix_of(url) || https_prefix().is_prefix_of(url)
}

/// Whether `text` begins with `prefix`, character by character.
pub fn starts_with(text: &str, prefix: &str) -> (found: bool)
    ensures
        found == prefix@.is_prefix_of(text@),
{
    broadcast use group_string_axioms;

    let mut rest = text.chars();
    let mut wanted = prefix.chars();
    let ghost mut seen: int = 0;
    loop
        invariant
            0 <= seen <= prefix@.len(),
            seen <= text@.len(),
            rest.remaining() == text@.skip(seen),
            wanted.remaining() == prefix@.skip(seen),
            text@.take(seen) == prefix@.take(seen),
        decreases prefix@.len() - seen,
    {
        match wanted.next() {
            None => {
                assert(prefix@ == text@.take(seen));
                return true;
            },
            Some(expected) => {
                match rest.next() {
                    None => {
                        return false;
                    },
                    Some(actual) => {
                        if actual != expected {
                            assert(text@[seen] != prefix@[seen]);
                            return false;
                        }
                        proof {
                            assert(text@.take(seen + 1) == text@.take(seen).push(text@[seen]));
                            assert(prefix@.take(seen + 1) == prefix@.take(seen).push(prefix@[seen]));
                            assert(text@.skip(seen).drop_first() == text@.skip(seen + 1));
                            assert(prefix@.skip(seen).drop_first() == prefix@.skip(seen + 1));
                            seen = seen + 1;
                        }
                    },
                }
            },
        }
    }
}

/// Whether `url` may serve as a client's base URL.
pub fn has_accepted_scheme(url: &str) -> (accepted: bool)
    ensures
        accepted == is_accepted_base_url(url@),
{
    starts_with(url, "http://") || starts_with(url, "https://")
}

/// An accepted base URL is at least as long as the shorter prefix, so it is
/// never empty.
pub proof fn lemma_accepted_url_is_not_empty(url: Seq<char>)
    requires
        is_accepted_base_url(url),
    ensures
        url.len() >= 7,
{
    reveal_strlit("http://");
    reveal_strlit("https://");
}

/// The base URL of the public endpoint is accepted.
pub proof fn lemma_remote_url_accepted()
    ensures
        is_accepted_base_url("https://vm.aleo.org/api"@),
{
    reveal_strlit("https://");
    reveal_strlit("https://vm.aleo.org/api");
}

/// The base URL of a local node is accepted, whatever stands for the port.
pub proof fn lemma_local_url_accepted(port: Seq<char>)
    ensures
        is_accepted_base_url("http://localhost:"@ + port),
{
    reveal_strlit("http://");
    reveal_strlit("http://localhost:");
    assert(http_prefix().is_prefix_of("http://localhost:"@ + port));
}

} // verus!
