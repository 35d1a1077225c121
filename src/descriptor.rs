//! The registration descriptor: a read-only value made at startup by the
//! server's constructor, from which the registration link is read.
use vstd::prelude::*;

verus! {

/// What the tray reads of the server's configuration: the link a person
/// follows to connect this server to the external service.
pub struct RegistrationDescriptor {
    url: String,
}

impl RegistrationDescriptor {
    /// The registration link that this descriptor stands for.
    pub closed spec fn url_view(&self) -> Seq<char> {
        self.url@
    }

    /// A descriptor for the registration link `url`.
    pub fn new(url: String) -> (r: RegistrationDescriptor)
        ensures
            r.url_view() == url@,
    {
        RegistrationDescriptor { url }
    }

    /// The registration link. Computed from the descriptor alone, with no
    /// other effect.
    pub fn registration_url(&self) -> (r: String)
        ensures
            r@ == self.url_view(),
    {
        self.url.clone()
    }
}

/// Reading the registration link twice from one descriptor gives the same
/// text both times.
pub proof fn lemma_registration_url_is_pure(d: RegistrationDescriptor, first: Seq<char>, second: Seq<char>)
    requires
        first == d.url_view(),
        second == d.url_view(),
    ensures
        first == second,
{
}

} // verus!
