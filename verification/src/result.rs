//! The outcomes of one publish call, one slot per platform.
use vstd::prelude::*;
use crate::data::{PlatformId, PostId};
use crate::error::ApiError;

verus! {

/// What one platform made of a post: nothing where the platform took no
/// part, the identifier of the post, or the reason it failed.
pub type Outcome = Option<Result<PostId, ApiError>>;

/// The four outcomes in the order Twitter, Gab, Mastodon, Minds.
pub type PostResultInner = (Outcome, Outcome, Outcome, Outcome);

/// The outcome that `parts` holds for a platform.
pub open spec fn slot(parts: PostResultInner, id: PlatformId) -> Outcome {
    match id {
        PlatformId::Twitter => parts.0,
        PlatformId::Gab => parts.1,
        PlatformId::Mastodon => parts.2,
        PlatformId::Minds => parts.3,
    }
}

/// `parts` after the outcome of a platform has been taken out.
pub open spec fn without(parts: PostResultInner, id: PlatformId) -> PostResultInner {
    match id {
        PlatformId::Twitter => (None, parts.1, parts.2, parts.3),
        PlatformId::Gab => (parts.0, None, parts.2, parts.3),
        PlatformId::Mastodon => (parts.0, parts.1, None, parts.3),
        PlatformId::Minds => (parts.0, parts.1, parts.2, None),
    }
}

///Result of Post.
pub struct PostResult {
    inner: PostResultInner,
}

impl View for PostResult {
    type V = PostResultInner;

    closed spec fn view(&self) -> PostResultInner {
        self.inner
    }
}

impl PostResult {
    /// Gathers four outcomes, given in the order Twitter, Gab, Mastodon,
    /// Minds.
    pub fn from_parts(parts: PostResultInner) -> (result: PostResult)
        ensures
            result@ == parts,
    {
        PostResult { inner: parts }
    }

    /// Takes the outcome of a platform out of its slot.
    pub fn take(&mut self, id: PlatformId) -> (outcome: Outcome)
        ensures
            outcome == slot(old(self)@, id),
            final(self)@ == without(old(self)@, id),
    {
        match id {
            PlatformId::Twitter => self.inner.0.take(),
            PlatformId::Gab => self.inner.1.take(),
            PlatformId::Mastodon => self.inner.2.take(),
            PlatformId::Minds => self.inner.3.take(),
        }
    }

    ///Retrieves Twitter's result
    pub fn twitter(&mut self) -> (outcome: Outcome)
        ensures
            outcome == slot(old(self)@, PlatformId::Twitter),
            final(self)@ == without(old(self)@, PlatformId::Twitter),
    {
        self.inner.0.take()
    }

    ///Retrieves Gab's result
    pub fn gab(&mut self) -> (outcome: Outcome)
        ensures
            outcome == slot(old(self)@, PlatformId::Gab),
            final(self)@ == without(old(self)@, PlatformId::Gab),
    {
        self.inner.1.take()
    }

    ///Retrieves Mastodon's result
    pub fn mastodon(&mut self) -> (outcome: Outcome)
        ensures
            outcome == slot(old(self)@, PlatformId::Mastodon),
            final(self)@ == without(old(self)@, PlatformId::Mastodon),
    {
        self.inner.2.take()
    }

    ///Retrieves Minds's result
    pub fn minds(&mut self) -> (outcome: Outcome)
        ensures
            outcome == slot(old(self)@, PlatformId::Minds),
            final(self)@ == without(old(self)@, PlatformId::Minds),
    {
        self.inner.3.take()
    }

    ///Retrieves underlying errors.
    ///
    ///Order: Twitter, Gab, Mastodon, Minds
    pub fn into_parts(self) -> (parts: PostResultInner)
        ensures
            parts == self@,
    {
        self.inner
    }
}

/// An outcome can be taken once: after it was taken its slot is empty, and
/// stays so however often it is asked again, while the other slots keep
/// what they hold.
pub proof fn lemma_taken_once(parts: PostResultInner, id: PlatformId, other: PlatformId)
    ensures
        slot(without(parts, id), id) is None,
        without(without(parts, id), id) == without(parts, id),
        other != id ==> slot(without(parts, id), other) == slot(parts, other),
{
}

/// Taking the outcomes of two platforms leaves the same slots behind in
/// either order.
pub proof fn lemma_taking_commutes(parts: PostResultInner, first: PlatformId, second: PlatformId)
    ensures
        without(without(parts, first), second) == without(without(parts, second), first),
{
}

} // verus!
