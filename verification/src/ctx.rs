//! The resolved identity of a request.

use vstd::prelude::*;

verus! {

/// Identity of the caller of one request, as resolved from its auth token.
///
/// An identity is its user id and nothing else: see
/// [`Ctx::lemma_is_its_user_id`].
#[derive(Clone, Copy, Debug, PartialEq, Eq, Structural)]
pub struct Ctx {
    user_id: u64,
}

impl Ctx {
    /// The identity of the user `user_id`, as a specification value.
    pub closed spec fn spec_new(user_id: u64) -> Ctx {
        Ctx { user_id }
    }

    /// The identity's user id, as a specification value.
    pub closed spec fn spec_user_id(&self) -> u64 {
        self.user_id
    }

    /// Identity of the user `user_id`.
    pub fn new(user_id: u64) -> (ctx: Self)
        ensures
            ctx == Ctx::spec_new(user_id),
            ctx.spec_user_id() == user_id,
    {
        Ctx { user_id }
    }

    /// The user this identity stands for.
    #[verifier::when_used_as_spec(spec_user_id)]
    pub fn user_id(&self) -> (id: u64)
        ensures
            id == self.spec_user_id(),
            *self == Ctx::spec_new(id),
    {
        self.user_id
    }

    /// An identity made for a user has that user's id.
    pub proof fn lemma_new_user_id(user_id: u64)
        ensures
            Ctx::spec_new(user_id).spec_user_id() == user_id,
    {
    }

    /// An identity is the one made for its user id, so two identities of the
    /// same user are equal.
    pub proof fn lemma_is_its_user_id(self)
        ensures
            self == Ctx::spec_new(self.spec_user_id()),
    {
    }
}

} // verus!
