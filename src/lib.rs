use vstd::prelude::*;

pub mod actor;
pub mod dispatch;
pub mod message;
pub mod requester;

verus! {

} // verus!
