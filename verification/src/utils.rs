//! The reentrancy guard.

use vstd::prelude::*;
use crate::error::Error;
use crate::storage::Store;

verus! {

/// Runs `f` under the reentrancy flag of `store`.
///
/// If the flag is present, a guarded operation is already running: the call
/// fails with `ReentrancyDetected`, `f` is not run and the store is left as
/// it was. Otherwise the flag is set, `f` runs on the store, the flag is
/// removed and what `f` returned is handed back. The flag is removed
/// whatever `f` returned and whatever `f` did to the flag.
pub fn with_reentrancy_guard<T, F: FnOnce(&mut Store) -> T>(store: &mut Store, f: F) -> (res:
    Result<T, Error>)
    requires
        !old(store)@.locked ==> forall|s: &mut Store|
            (*s)@ == old(store)@.with_lock(true) ==> call_requires(f, (s,)),
    ensures
        old(store)@.locked ==> res == Err::<T, Error>(Error::ReentrancyDetected) && final(store)@
            == old(store)@,
        !old(store)@.locked ==> (res matches Ok(value) && exists|s: &mut Store|
            {
                &&& (*s)@ == old(store)@.with_lock(true)
                &&& #[trigger] call_ensures(f, (s,), value)
                &&& final(store)@ == final(s)@.with_lock(false)
            }),
        !old(store)@.locked ==> !final(store)@.locked,
{
    if store.is_locked() {
        return Err(Error::ReentrancyDetected);
    }
    store.set_lock();
    let value = f(store);
    store.clear_lock();
    let res: Result<T, Error> = Ok(value);
    // Names what the result holds, so that the call of `f` is found in it.
    assert(res matches Ok(v) && v == value);
    res
}

} // verus!
