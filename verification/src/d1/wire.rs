//! What goes over to the host's database, and what comes back.

use vstd::prelude::*;
use super::statement::{admits_batch, batch_admissible, batch_view, Statement};

verus! {

/// Why a batch did not come through.
#[derive(Clone, Copy, Debug, PartialEq, Eq, Structural)]
pub enum WireError {
    /// The batch is empty or over the bounds.
    Capacity,
    /// The host did not answer, or not as it must.
    Transport,
}

/// Whether a batch can go over.
pub fn check_capacity(batch: &Vec<Statement>) -> (result: Result<(), WireError>)
    ensures
        result == if batch_admissible(batch_view(batch@)) {
            Ok::<(), WireError>(())
        } else {
            Err(WireError::Capacity)
        },
{
    if admits_batch(batch) {
        Ok(())
    } else {
        Err(WireError::Capacity)
    }
}

/// What the host answers to one statement.
#[derive(Debug)]
pub struct Receipt<R> {
    pub success: bool,
    pub results: Vec<R>,
}

/// The host answered every statement, and each with success.
pub open spec fn all_succeeded<R>(count: nat, receipts: Seq<Receipt<R>>) -> bool {
    &&& receipts.len() == count
    &&& forall|i: int| 0 <= i < receipts.len() ==> (#[trigger] receipts[i]).success
}

/// The rows that the host answered with, statement by statement; a failure of the transport where
/// it did not answer every statement, or one without success.
pub fn accept<R>(count: usize, receipts: Vec<Receipt<R>>) -> (result: Result<
    Vec<Vec<R>>,
    WireError,
>)
    ensures
        match result {
            Ok(sets) => all_succeeded(count as nat, receipts@) && sets@ == receipts@.map_values(
                |receipt: Receipt<R>| receipt.results,
            ),
            Err(error) => !all_succeeded(count as nat, receipts@) && error is Transport,
        },
{
    if receipts.len() != count {
        return Err(WireError::Transport);
    }
    let mut sets: Vec<Vec<R>> = Vec::new();
    let ghost all = receipts@.map_values(|receipt: Receipt<R>| receipt.results);
    for receipt in it: receipts
        invariant
            it.seq() == receipts@,
            all == receipts@.map_values(|receipt: Receipt<R>| receipt.results),
            sets@ == all.take(it.index()),
            forall|i: int| 0 <= i < it.index() ==> (#[trigger] receipts@[i]).success,
    {
        if !receipt.success {
            assert(!receipts@[it.index()].success);
            return Err(WireError::Transport);
        }
        let ghost done = all.take(it.index());
        sets.push(receipt.results);
        assert(all.take(it.index() + 1) =~= done.push(receipt.results));
    }
    assert(sets@ =~= all);
    Ok(sets)
}

} // verus!
