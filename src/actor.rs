use vstd::prelude::*;

verus! {

/// The owner of the mailbox's consumer handle and of the shared handle to the
/// document context. The consumer handle can be taken out exactly once: a
/// second extraction is a programming error, which `has_receiver` lets a
/// caller rule out before it asks.
pub struct EditDocActor<Rx, C> {
    receiver: Option<Rx>,
    edit_context: C,
}

impl<Rx, C> EditDocActor<Rx, C> {
    /// Whether the consumer handle is still held.
    pub closed spec fn holds_receiver(&self) -> bool {
        self.receiver is Some
    }

    /// The consumer handle, while it is held.
    pub closed spec fn receiver_spec(&self) -> Rx
        recommends
            self.holds_receiver(),
    {
        self.receiver->Some_0
    }

    /// The shared handle to the document context.
    pub closed spec fn context(&self) -> C {
        self.edit_context
    }

    /// One extraction of the consumer handle took `before` to `after`.
    pub open spec fn took(before: Self, after: Self) -> bool {
        &&& before.holds_receiver()
        &&& !after.holds_receiver()
        &&& after.context() == before.context()
    }

    pub fn new(receiver: Rx, edit_context: C) -> (r: Self)
        ensures
            r.holds_receiver(),
            r.receiver_spec() == receiver,
            r.context() == edit_context,
    {
        EditDocActor { receiver: Some(receiver), edit_context }
    }

    /// Whether the consumer handle is still there to be taken.
    pub fn has_receiver(&self) -> (r: bool)
        ensures
            r == self.holds_receiver(),
    {
        self.receiver.is_some()
    }

    /// Hands out the consumer handle, which leaves the actor for good.
    pub fn take_receiver(&mut self) -> (r: Rx)
        requires
            old(self).holds_receiver(),
        ensures
            Self::took(*old(self), *final(self)),
            r == old(self).receiver_spec(),
    {
        match self.receiver.take() {
            Some(rx) => rx,
            None => vstd::pervasive::unreached(),
        }
    }

    pub fn edit_context(&self) -> (r: &C)
        ensures
            *r == self.context(),
    {
        &self.edit_context
    }
}

/// A fresh actor holds its consumer handle, so the first extraction is
/// allowed; after it the handle is gone, so a second extraction never is.
pub proof fn lemma_second_take_refused<Rx, C>(
    a0: EditDocActor<Rx, C>,
    a1: EditDocActor<Rx, C>,
    a2: EditDocActor<Rx, C>,
)
    requires
        a0.holds_receiver(),
        EditDocActor::took(a0, a1),
    ensures
        !a1.holds_receiver(),
        !EditDocActor::took(a1, a2),
        a1.context() == a0.context(),
{
}

} // verus!
