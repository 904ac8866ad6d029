use std::sync::Arc;
use vstd::prelude::*;

verus! {

/// A request to the actor. Each variant carries exactly one reply handle, on
/// which the actor delivers the request's outcome once.
///
/// `S` is the connection handle of the requester, `Op` the operation payload,
/// `RA` the reply handle of a mutation and `RJ` that of a snapshot.
#[derive(Debug)]
pub enum EditMsg<S, Op, RA, RJ> {
    /// Apply `revision` to the document on behalf of `user`.
    Revision { user: Arc<String>, socket: S, revision: Op, ret: RA },
    /// Export the whole document as text.
    DocumentJson { ret: RJ },
}

/// Delivered in place of a document export when the worker that computed it
/// could not run to completion.
pub struct InternalError {
    pub detail: String,
}

impl InternalError {
    pub fn new(detail: String) -> (r: Self)
        ensures
            r.detail == detail,
    {
        InternalError { detail }
    }

    /// The text that describes the failure.
    pub fn message(&self) -> (r: String)
        ensures
            r@ == self.detail@,
    {
        self.detail.clone()
    }
}

} // verus!
