//! The store on D1: a primary snapshot, a decision on it, and one guarded batch of writes.

pub mod commit;
pub mod evaluate;
pub mod laws;
pub mod model;
pub mod plan;
pub mod revision;
pub mod rows;
pub mod snapshot;
pub mod statement;
pub mod wire;

use vstd::prelude::*;

verus! {

/// A store over the host's transport.
#[derive(Clone, Debug)]
pub struct D1Store<T>(pub T);

} // verus!
