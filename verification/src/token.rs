//! What the core asks of the token collaborator.

use vstd::prelude::*;
use crate::error::Error;
use crate::identity::Identity;
use crate::storage::Store;
use crate::utils::with_reentrancy_guard;

verus! {

/// A request to the token collaborator: move `amount` of `token` from `from`
/// into the custody of this contract.
#[derive(Clone, Copy, Debug, PartialEq, Eq, Structural)]
pub struct Deposit {
    pub token: Identity,
    pub from: Identity,
    pub amount: i128,
}

/// A request to the token collaborator: out of the custody of this contract,
/// move `fee` of `token` to `admin` and `payout` of it to `winner`, both or
/// neither.
#[derive(Clone, Copy, Debug, PartialEq, Eq, Structural)]
pub struct Disbursement {
    pub token: Identity,
    pub admin: Identity,
    pub fee: i128,
    pub winner: Identity,
    pub payout: i128,
}

/// Hands `request` to the token collaborator `transfer` under the reentrancy
/// flag, and reports whether the value moved. The collaborator works on the
/// store with the flag set, so a guarded operation that it starts on that
/// store is refused.
pub(crate) fn guarded_transfer<A, F: FnOnce(&mut Store, A) -> bool>(
    store: &mut Store,
    request: A,
    transfer: F,
) -> (res: Result<bool, Error>)
    requires
        !old(store)@.locked ==> forall|s: &mut Store|
            (*s)@ == old(store)@.with_lock(true) ==> call_requires(transfer, (s, request)),
    ensures
        old(store)@.locked ==> res == Err::<bool, Error>(Error::ReentrancyDetected)
            && final(store)@ == old(store)@,
        !old(store)@.locked ==> (res matches Ok(moved) && exists|s: &mut Store|
            {
                &&& (*s)@ == old(store)@.with_lock(true)
                &&& #[trigger] call_ensures(transfer, (s, request), moved)
                &&& final(store)@ == final(s)@.with_lock(false)
            }),
{
    let ghost entered = store@.with_lock(true);
    let guarded = |s: &mut Store| -> (moved: bool)
        requires
            old(s)@ == entered,
            forall|m: &mut Store| (*m)@ == entered ==> call_requires(transfer, (m, request)),
        ensures
            exists|m: &mut Store|
                (*m)@ == old(s)@ && final(m)@ == final(s)@ && #[trigger] call_ensures(
                    transfer,
                    (m, request),
                    moved,
                ),
        {
            transfer(s, request)
        };
    with_reentrancy_guard(store, guarded)
}

} // verus!
