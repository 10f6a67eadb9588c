//! The one way in which making a client fails.

use vstd::prelude::*;
use vstd::string::*;

use crate::scheme::is_accepted_base_url;

verus! {

/// What the message of a rejected base URL says: the URL itself, then the two
/// schemes that are accepted.
pub open spec fn rejection_message(url: Seq<char>) -> Seq<char> {
    "specified url "@ + url
        + " invalid, the base url must start with or https:// (or http:// if doing local development)"@
}

/// Whether `part` stands somewhere in `whole`, in one piece.
pub open spec fn occurs_in(part: Seq<char>, whole: Seq<char>) -> bool {
    exists|at: int|
        0 <= at && at + part.len() <= whole.len() && #[trigger] whole.subrange(
            at,
            at + part.len(),
        ) == part
}

/// The message for any URL repeats that URL and names both accepted schemes.
pub proof fn lemma_message_names_url_and_schemes(url: Seq<char>)
    ensures
        occurs_in(url, rejection_message(url)),
        occurs_in("https://"@, rejection_message(url)),
        occurs_in("http://"@, rejection_message(url)),
{
    reveal_strlit("specified url ");
    reveal_strlit(
        " invalid, the base url must start with or https:// (or http:// if doing local development)",
    );
    reveal_strlit("https://");
    reveal_strlit("http://");
    let message = rejection_message(url);
    let tail: int = 14 + (url.len() as int);
    assert(message.subrange(14, tail) == url);
    assert(message.subrange(tail + 42, tail + 42 + 8) == "https://"@);
    assert(message.subrange(tail + 55, tail + 55 + 7) == "http://"@);
}

/// A base URL that was rejected because it begins with neither `http://` nor
/// `https://`. Only a failed attempt to make a client gives one, and it keeps
/// the URL as it was given.
#[derive(Debug)]
pub struct ValidationError {
    url: String,
}

impl View for ValidationError {
    type V = Seq<char>;

    /// The rejected URL.
    closed spec fn view(&self) -> Seq<char> {
        self.url@
    }
}

impl ValidationError {
    #[verifier::type_invariant]
    spec fn rejected(self) -> bool {
        !is_accepted_base_url(self.url@)
    }

    /// The error for `url`, which has no accepted scheme.
    pub(crate) fn new(url: &str) -> (error: Self)
        requires
            !is_accepted_base_url(url@),
        ensures
            error@ == url@,
    {
        ValidationError { url: url.to_owned() }
    }

    /// The URL that was rejected, unchanged.
    pub fn url(&self) -> (url: &str)
        ensures
            url@ == self@,
            !is_accepted_base_url(url@),
    {
        proof {
            use_type_invariant(self);
        }
        self.url.as_str()
    }

    /// The message for the user: it repeats the rejected URL and names both
    /// accepted schemes, `http://` being meant for local development.
    pub fn message(&self) -> (text: String)
        ensures
            text@ == rejection_message(self@),
    {
        let head = "specified url ".to_owned();
        let named = head.concat(self.url.as_str());
        named.concat(
            " invalid, the base url must start with or https:// (or http:// if doing local development)",
        )
    }
}

impl Clone for ValidationError {
    /// A second error for the same rejected URL.
    fn clone(&self) -> (copy: Self)
        ensures
            copy@ == self@,
    {
        proof {
            use_type_invariant(self);
        }
        ValidationError { url: self.url.clone() }
    }
}

} // verus!
