//! What holds of every store that the contract reaches, whatever is called
//! and in whatever order.

use vstd::prelude::*;
use crate::giveaway::{
    create_giveaway, creation_plan, creation_state, enter_giveaway, entry_refused,
    entry_state, settle_giveaway, settlement_plan, settlement_state, settling, GiveawayStatus,
};
use crate::identity::Identity;
use crate::init::{init, init_refused, init_state};
use crate::mutual_aid::{
    create_help_request, donate, donation_plan, donation_state, opening_refused, opening_state,
};
use crate::storage::{Store, StoreView};
use crate::token::{Deposit, Disbursement};

verus! {

/// One call of an operation of the contract. Where the operation asks the
/// token collaborator, `moved` is the collaborator's answer.
#[derive(Clone, Copy, Debug, PartialEq, Eq, Structural)]
pub enum Call {
    Init { admin: Identity, fee_bps: u32 },
    CreateGiveaway {
        creator: Identity,
        approval: Option<Identity>,
        token: Identity,
        prize_amount: i128,
        moved: bool,
    },
    EnterGiveaway { participant: Identity, approval: Option<Identity>, giveaway_id: u64 },
    SettleGiveaway { giveaway_id: u64, winner: Identity, moved: bool },
    CreateHelpRequest {
        creator: Identity,
        approval: Option<Identity>,
        token: Identity,
        goal: i128,
    },
    Donate {
        donor: Identity,
        approval: Option<Identity>,
        request_id: u64,
        amount: i128,
        moved: bool,
    },
}

/// The store after `call`, where the token collaborator, if it is asked,
/// leaves the store as it finds it: a call that is refused changes nothing,
/// and one that is not ends as the contract of its operation says.
pub open spec fn after(s: StoreView, call: Call) -> StoreView {
    match call {
        Call::Init { admin, fee_bps } => {
            if init_refused(s, fee_bps) is None {
                init_state(s, admin, fee_bps)
            } else {
                s
            }
        },
        Call::CreateGiveaway { creator, approval, token, prize_amount, moved } => {
            if creation_plan(s, creator, approval, token, prize_amount) is Ok {
                creation_state(s, creator, token, prize_amount, moved)
            } else {
                s
            }
        },
        Call::EnterGiveaway { participant, approval, giveaway_id } => {
            if entry_refused(s, participant, approval, giveaway_id) is None {
                entry_state(s, participant, giveaway_id)
            } else {
                s
            }
        },
        Call::SettleGiveaway { giveaway_id, winner, moved } => {
            if settlement_plan(s, giveaway_id, winner) is Ok {
                settlement_state(settling(s, giveaway_id).with_lock(false), giveaway_id, moved)
            } else {
                s
            }
        },
        Call::CreateHelpRequest { creator, approval, token, goal } => {
            if opening_refused(s, creator, approval, token, goal) is None {
                opening_state(s, creator, token, goal)
            } else {
                s
            }
        },
        Call::Donate { donor, approval, request_id, amount, moved } => {
            if donation_plan(s, donor, approval, request_id, amount) is Ok {
                donation_state(s, request_id, amount, moved)
            } else {
                s
            }
        },
    }
}

/// The store after the calls `calls`, one after the other.
pub open spec fn after_all(s: StoreView, calls: Seq<Call>) -> StoreView
    decreases calls.len(),
{
    if calls.len() == 0 {
        s
    } else {
        after(after_all(s, calls.drop_last()), calls.last())
    }
}

/// Whether `call` goes through on `s`: it is not refused, and the token
/// collaborator, if it is asked, moves the value.
pub open spec fn goes_through(s: StoreView, call: Call) -> bool {
    match call {
        Call::Init { admin, fee_bps } => init_refused(s, fee_bps) is None,
        Call::CreateGiveaway { creator, approval, token, prize_amount, moved } => {
            moved && creation_plan(s, creator, approval, token, prize_amount) is Ok
        },
        Call::EnterGiveaway { participant, approval, giveaway_id } => {
            entry_refused(s, participant, approval, giveaway_id) is None
        },
        Call::SettleGiveaway { giveaway_id, winner, moved } => {
            moved && settlement_plan(s, giveaway_id, winner) is Ok
        },
        Call::CreateHelpRequest { creator, approval, token, goal } => {
            opening_refused(s, creator, approval, token, goal) is None
        },
        Call::Donate { donor, approval, request_id, amount, moved } => {
            moved && donation_plan(s, donor, approval, request_id, amount) is Ok
        },
    }
}

/// Makes `call` on `store`, with a token collaborator that answers `moved`
/// as the call says and leaves the store as it finds it, and says whether
/// the call went through.
pub fn replay(store: &mut Store, call: Call) -> (accepted: bool)
    ensures
        accepted == goes_through(old(store)@, call),
        final(store)@ == after(old(store)@, call),
{
    match call {
        Call::Init { admin, fee_bps } => init(store, admin, fee_bps).is_ok(),
        Call::CreateGiveaway { creator, approval, token, prize_amount, moved } => {
            let pull = |s: &mut Store, request: Deposit| -> (answer: bool)
                ensures
                    answer == moved,
                    final(s)@ == old(s)@,
                {
                    moved
                };
            create_giveaway(store, creator, approval, token, prize_amount, pull).is_ok()
        },
        Call::EnterGiveaway { participant, approval, giveaway_id } => {
            enter_giveaway(store, participant, approval, giveaway_id).is_ok()
        },
        Call::SettleGiveaway { giveaway_id, winner, moved } => {
            let pay = |s: &mut Store, request: Disbursement| -> (answer: bool)
                ensures
                    answer == moved,
                    final(s)@ == old(s)@,
                {
                    moved
                };
            settle_giveaway(store, giveaway_id, winner, pay).is_ok()
        },
        Call::CreateHelpRequest { creator, approval, token, goal } => {
            create_help_request(store, creator, approval, token, goal).is_ok()
        },
        Call::Donate { donor, approval, request_id, amount, moved } => {
            let pull = |s: &mut Store, request: Deposit| -> (answer: bool)
                ensures
                    answer == moved,
                    final(s)@ == old(s)@,
                {
                    moved
                };
            donate(store, donor, approval, request_id, amount, pull).is_ok()
        },
    }
}

/// What never changes, whatever is called: the invariant of the data holds
/// on; the reentrancy flag is as before; a stored admin configuration stays;
/// the counters do not go down; and no mark of an entry is removed.
pub open spec fn carries_on(before: StoreView, later: StoreView) -> bool {
    &&& before.well_formed() ==> later.well_formed()
    &&& later.locked == before.locked
    &&& before.admin.is_some() ==> later.admin == before.admin && later.fee_bps == before.fee_bps
    &&& later.giveaway_count >= before.giveaway_count
    &&& later.help_request_count >= before.help_request_count
    &&& forall|entry: (u64, Identity)| #[trigger]
        before.participants.contains(entry) ==> later.participants.contains(entry)
}

/// What never changes of the records of a store whose data is well formed:
/// every record stays, under its id; a giveaway keeps its creator, its token
/// and its prize, does not lose participants, and stays as it is once it is
/// settled; a help request keeps its creator, its token and its goal, and
/// what it has raised does not go down.
pub open spec fn records_carry_on(before: StoreView, later: StoreView) -> bool {
    &&& forall|id: u64| #[trigger]
        before.giveaways.contains_key(id) ==> {
            let old_g = before.giveaways[id];
            let new_g = later.giveaways[id];
            &&& later.giveaways.contains_key(id)
            &&& new_g.creator == old_g.creator
            &&& new_g.token == old_g.token
            &&& new_g.prize_amount == old_g.prize_amount
            &&& new_g.participant_count >= old_g.participant_count
            &&& old_g.status == GiveawayStatus::Settled ==> new_g == old_g
        }
    &&& forall|id: u64| #[trigger]
        before.help_requests.contains_key(id) ==> {
            let old_r = before.help_requests[id];
            let new_r = later.help_requests[id];
            &&& later.help_requests.contains_key(id)
            &&& new_r.creator == old_r.creator
            &&& new_r.token == old_r.token
            &&& new_r.goal == old_r.goal
            &&& new_r.raised_amount >= old_r.raised_amount
        }
}

/// A call that does not go through changes nothing: whether it was refused
/// or the token collaborator did not move the value, the store is as it was
/// before the call.
pub proof fn lemma_failure_changes_nothing(s: StoreView, call: Call)
    requires
        !goes_through(s, call),
    ensures
        after(s, call) == s,
{
}

/// One call carries on what never changes.
pub proof fn lemma_call_carries_on(s: StoreView, call: Call)
    ensures
        carries_on(s, after(s, call)),
        s.well_formed() ==> records_carry_on(s, after(s, call)),
{
}

/// Any sequence of calls carries on what never changes: after it the
/// invariant of the data still holds, the reentrancy flag is as it was, the
/// admin configuration is the one of the first initialization, ids have only
/// been added, entries have only been added, settled giveaways are as they
/// were settled, and no help request has raised less than before.
pub proof fn lemma_calls_carry_on(s: StoreView, calls: Seq<Call>)
    ensures
        carries_on(s, after_all(s, calls)),
        s.well_formed() ==> records_carry_on(s, after_all(s, calls)),
    decreases calls.len(),
{
    if calls.len() > 0 {
        let mid = after_all(s, calls.drop_last());
        lemma_calls_carry_on(s, calls.drop_last());
        lemma_call_carries_on(mid, calls.last());
    }
}

/// On every store that the contract reaches from the empty one, the
/// invariant of the data holds and the reentrancy flag is absent.
pub proof fn lemma_reached_is_well_formed(calls: Seq<Call>)
    ensures
        after_all(StoreView::empty(), calls).well_formed(),
        !after_all(StoreView::empty(), calls).locked,
{
    lemma_calls_carry_on(StoreView::empty(), calls);
}

/// Whether `call` is of an operation that moves value, and so runs under
/// the reentrancy flag.
pub open spec fn moves_value(call: Call) -> bool {
    call is CreateGiveaway || call is SettleGiveaway || call is Donate
}

/// While a guarded operation runs, no operation that moves value goes
/// through: on a store whose reentrancy flag is set, whatever calls are
/// made, the flag stays set and each call of an operation that moves value
/// leaves the store as it finds it.
pub proof fn lemma_flag_holds_off_transfers(s: StoreView, calls: Seq<Call>, i: int)
    requires
        s.locked,
        0 <= i < calls.len(),
        moves_value(calls[i]),
    ensures
        after_all(s, calls.take(i)).locked,
        !goes_through(after_all(s, calls.take(i)), calls[i]),
        after(after_all(s, calls.take(i)), calls[i]) == after_all(s, calls.take(i)),
{
    lemma_calls_carry_on(s, calls.take(i));
}

/// An identity enters a giveaway at most once: once it is marked as a
/// participant, every later entry in its name is refused, whatever was
/// called in between.
pub proof fn lemma_entry_at_most_once_ever(
    s: StoreView,
    participant: Identity,
    giveaway_id: u64,
    calls: Seq<Call>,
    approval: Option<Identity>,
)
    requires
        s.participants.contains((giveaway_id, participant)),
    ensures
        entry_refused(after_all(s, calls), participant, approval, giveaway_id) is Some,
        after(
            after_all(s, calls),
            Call::EnterGiveaway { participant, approval, giveaway_id },
        ) == after_all(s, calls),
{
    lemma_calls_carry_on(s, calls);
}

} // verus!
