use std::sync::Arc;
use vstd::prelude::*;

verus! {

/// The immutable per-request value that says who issued a request and where
/// downstream effects of it are routed. Both parts are shared handles: making
/// one copies no document state.
pub struct EditUser<S> {
    user: Arc<String>,
    pub(crate) socket: S,
}

impl<S> EditUser<S> {
    /// The identity of the requester.
    pub closed spec fn identity(&self) -> Seq<char> {
        self.user@
    }

    /// The connection handle that downstream effects are routed to.
    pub closed spec fn connection(&self) -> S {
        self.socket
    }

    pub fn new(user: Arc<String>, socket: S) -> (r: Self)
        ensures
            r.identity() == user@,
            r.connection() == socket,
    {
        EditUser { user, socket }
    }

    pub fn id(&self) -> (r: String)
        ensures
            r@ == self.identity(),
    {
        let s: &String = &self.user;
        s.clone()
    }

    /// The connection handle that downstream effects are routed to.
    pub fn socket(&self) -> (r: &S)
        ensures
            *r == self.connection(),
    {
        &self.socket
    }
}

impl<S: Clone> Clone for EditUser<S> {
    /// Shares the identity handle and clones the connection handle.
    fn clone(&self) -> (r: Self)
        ensures
            r.identity() == self.identity(),
            cloned(self.connection(), r.connection()),
    {
        EditUser { user: self.user.clone(), socket: self.socket.clone() }
    }
}

} // verus!
