//! The admin configuration, stored once.

use vstd::prelude::*;
use crate::error::Error;
use crate::events::Event;
use crate::giveaway::MAX_FEE_BPS;
use crate::identity::Identity;
use crate::storage::{Store, StoreView};

verus! {

/// Why an initialization is refused, if it is: the admin is already stored,
/// or the fee rate is over 100%.
pub open spec fn init_refused(s: StoreView, fee_bps: u32) -> Option<Error> {
    if s.admin.is_some() {
        Some(Error::AlreadyInitialized)
    } else if fee_bps > MAX_FEE_BPS {
        Some(Error::InvalidAmount)
    } else {
        None
    }
}

/// The store after an initialization: it holds the admin and the fee rate.
pub open spec fn init_state(s: StoreView, admin: Identity, fee_bps: u32) -> StoreView {
    StoreView { admin: Some(admin), fee_bps: Some(fee_bps), ..s }
}

/// Stores the admin configuration, once.
///
/// Fails with `AlreadyInitialized` if an admin is stored already, whatever
/// the arguments, and with `InvalidAmount` if `fee_bps` is over 10000; the
/// store is then left as it was. Otherwise the admin and the fee rate are
/// stored and the `ContractInitialized` fact is returned.
pub fn init(store: &mut Store, admin: Identity, fee_bps: u32) -> (res: Result<Event, Error>)
    ensures
        match init_refused(old(store)@, fee_bps) {
            Some(e) => res == Err::<Event, Error>(e) && final(store)@ == old(store)@,
            None => res == Ok::<Event, Error>(Event::ContractInitialized { admin, fee_bps })
                && final(store)@ == init_state(old(store)@, admin, fee_bps),
        },
{
    if store.admin().is_some() {
        return Err(Error::AlreadyInitialized);
    }
    if fee_bps > MAX_FEE_BPS {
        return Err(Error::InvalidAmount);
    }
    store.set_admin(admin);
    store.set_fee_bps(fee_bps);
    Ok(Event::ContractInitialized { admin, fee_bps })
}

/// Initialization happens at most once: after one that succeeded, every
/// further one is refused with `AlreadyInitialized`, whatever its arguments,
/// so that the store stays as the first one left it.
pub proof fn lemma_init_once(
    s: StoreView,
    admin: Identity,
    fee_bps: u32,
    other_admin: Identity,
    other_fee_bps: u32,
)
    requires
        init_refused(s, fee_bps) is None,
    ensures
        init_refused(init_state(s, admin, fee_bps), other_fee_bps) == Some(
            Error::AlreadyInitialized,
        ),
{
}

/// An initialization keeps the invariant of the data.
pub proof fn lemma_init_keeps_well_formed(s: StoreView, admin: Identity, fee_bps: u32)
    requires
        s.well_formed(),
        init_refused(s, fee_bps) is None,
    ensures
        init_state(s, admin, fee_bps).well_formed(),
{
}

} // verus!
