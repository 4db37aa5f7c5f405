//! The link record.

use vstd::prelude::*;

verus! {

/// A short identifier together with the address it redirects to.
#[derive(Debug, Clone, PartialEq, Eq)]
pub struct Link {
    pub id: String,
    pub target_url: String,
}

/// The mathematical value of a [`Link`].
pub struct LinkView {
    pub id: Seq<char>,
    pub target_url: Seq<char>,
}

impl View for Link {
    type V = LinkView;

    open spec fn view(&self) -> LinkView {
        LinkView { id: self.id@, target_url: self.target_url@ }
    }
}

impl LinkView {
    /// A link may be handed to the store when neither field is empty.
    pub open spec fn storable(self) -> bool {
        self.id.len() > 0 && self.target_url.len() > 0
    }
}

impl Link {
    /// Builds the link that maps `id` to `target_url`.
    pub fn new(id: String, target_url: String) -> (link: Link)
        ensures
            link@ == (LinkView { id: id@, target_url: target_url@ }),
    {
        Link { id, target_url }
    }

    /// Tells whether the link may be handed to the store.
    pub fn is_storable(&self) -> (ok: bool)
        ensures
            ok == self@.storable(),
    {
        !self.id.as_str().is_empty() && !self.target_url.as_str().is_empty()
    }

    /// A copy of the link with the same identifier and target.
    pub fn duplicate(&self) -> (copy: Link)
        ensures
            copy@ == self@,
    {
        Link { id: self.id.clone(), target_url: self.target_url.clone() }
    }
}

} // verus!
