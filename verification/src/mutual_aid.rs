//! Mutual-aid requests: opening and donation.

use vstd::prelude::*;
use crate::error::Error;
use crate::events::Event;
use crate::identity::{authorizes, is_authorized, Identity};
use crate::storage::{Store, StoreView};
use crate::token::{guarded_transfer, Deposit};

verus! {

/// Where a help request stands in its life.
#[derive(Clone, Copy, Debug, PartialEq, Eq, Structural)]
pub enum HelpRequestStatus {
    /// Donations are accepted and the goal is not yet met.
    Open,
    /// The donations have reached the goal.
    FullyFunded,
    /// The request is closed. No operation here closes one; a closed
    /// request still takes donations, and is fully funded once they reach
    /// its goal.
    Closed,
}

/// A funding goal opened by its creator, filled by donations.
#[derive(Clone, Copy, Debug, PartialEq, Eq, Structural)]
pub struct HelpRequest {
    pub id: u64,
    pub creator: Identity,
    pub token: Identity,
    pub goal: i128,
    pub raised_amount: i128,
    pub status: HelpRequestStatus,
}

impl HelpRequest {
    /// The invariant of a stored help request: the goal is positive, nothing
    /// negative was raised, and the request counts as fully funded exactly
    /// when what was raised has reached the goal.
    pub open spec fn well_formed(self) -> bool {
        &&& self.goal > 0
        &&& self.raised_amount >= 0
        &&& (self.raised_amount >= self.goal <==> self.status == HelpRequestStatus::FullyFunded)
    }

    /// Whether this request takes a donation of `amount`: the amount is
    /// positive, the request is not fully funded yet, and what was raised
    /// stays in range.
    pub open spec fn accepts(self, amount: i128) -> bool {
        &&& amount > 0
        &&& self.status != HelpRequestStatus::FullyFunded
        &&& self.raised_amount + amount <= i128::MAX
    }

    /// This request after a donation of `amount`: the amount is added to
    /// what was raised, and the request is fully funded once that reaches
    /// the goal.
    pub open spec fn funded(self, amount: i128) -> HelpRequest {
        let raised = (self.raised_amount + amount) as i128;
        HelpRequest {
            raised_amount: raised,
            status: if raised >= self.goal {
                HelpRequestStatus::FullyFunded
            } else {
                self.status
            },
            ..self
        }
    }
}

/// The help request that an opening on `s` stores: it takes the next id, is
/// open and has raised nothing. There is none if the goal is not positive or
/// the ids are used up.
pub open spec fn next_help_request(
    s: StoreView,
    creator: Identity,
    token: Identity,
    goal: i128,
) -> Option<HelpRequest> {
    if goal <= 0 || s.help_request_count == u64::MAX {
        None
    } else {
        Some(
            HelpRequest {
                id: (s.help_request_count + 1) as u64,
                creator,
                token,
                goal,
                raised_amount: 0,
                status: HelpRequestStatus::Open,
            },
        )
    }
}

/// Why the opening of a help request is refused, if it is.
pub open spec fn opening_refused(
    s: StoreView,
    creator: Identity,
    approval: Option<Identity>,
    token: Identity,
    goal: i128,
) -> Option<Error> {
    if !authorizes(approval, creator) {
        Some(Error::Unauthorized)
    } else if next_help_request(s, creator, token, goal) is None {
        Some(Error::InvalidAmount)
    } else {
        None
    }
}

/// The store after the opening of a help request: the new request is stored
/// and the counter stands at its id.
pub open spec fn opening_state(
    s: StoreView,
    creator: Identity,
    token: Identity,
    goal: i128,
) -> StoreView {
    match next_help_request(s, creator, token, goal) {
        Some(r) => StoreView {
            help_request_count: r.id,
            help_requests: s.help_requests.insert(r.id, r),
            ..s
        },
        None => s,
    }
}

/// Opens a help request of `creator` for `goal` of `token`, and returns its
/// id.
///
/// Fails with `Unauthorized` if the approval is not the creator's, and with
/// `InvalidAmount` if the goal is not positive or the ids are used up; the
/// store is then left as it was. Otherwise the request takes the next id
/// from the counter and is stored as open, with nothing raised. No value
/// moves.
pub fn create_help_request(
    store: &mut Store,
    creator: Identity,
    approval: Option<Identity>,
    token: Identity,
    goal: i128,
) -> (res: Result<u64, Error>)
    ensures
        match opening_refused(old(store)@, creator, approval, token, goal) {
            Some(e) => res == Err::<u64, Error>(e) && final(store)@ == old(store)@,
            None => res == Ok::<u64, Error>((old(store)@.help_request_count + 1) as u64)
                && final(store)@ == opening_state(old(store)@, creator, token, goal),
        },
{
    if !is_authorized(approval, creator) {
        return Err(Error::Unauthorized);
    }
    let count = store.help_request_count();
    if goal <= 0 || count == u64::MAX {
        return Err(Error::InvalidAmount);
    }
    let id: u64 = count + 1;
    store.set_help_request_count(id);
    store.set_help_request(
        id,
        HelpRequest {
            id,
            creator,
            token,
            goal,
            raised_amount: 0,
            status: HelpRequestStatus::Open,
        },
    );
    Ok(id)
}

/// The request `request_id` of `s` as it stands after a donation of `amount`,
/// or why the donation cannot be recorded.
pub open spec fn donation_applied(s: StoreView, request_id: u64, amount: i128) -> Result<
    HelpRequest,
    Error,
> {
    if amount <= 0 {
        Err(Error::InvalidAmount)
    } else {
        match s.help_requests.get(request_id) {
            None => Err(Error::NotFound),
            Some(r) => if r.status == HelpRequestStatus::FullyFunded {
                Err(Error::InvalidState)
            } else if r.raised_amount + amount > i128::MAX {
                Err(Error::InvalidAmount)
            } else {
                Ok(r.funded(amount))
            },
        }
    }
}

/// What a donation asks of the token collaborator, or why the donation is
/// refused before anything is moved.
pub open spec fn donation_plan(
    s: StoreView,
    donor: Identity,
    approval: Option<Identity>,
    request_id: u64,
    amount: i128,
) -> Result<Deposit, Error> {
    if !authorizes(approval, donor) {
        Err(Error::Unauthorized)
    } else {
        match donation_applied(s, request_id, amount) {
            Err(e) => Err(e),
            Ok(_) => if s.locked {
                Err(Error::ReentrancyDetected)
            } else {
                Ok(Deposit { token: s.help_requests[request_id].token, from: donor, amount })
            },
        }
    }
}

/// What a donation returns once the token collaborator has answered.
pub open spec fn donation_result(
    s: StoreView,
    donor: Identity,
    request_id: u64,
    amount: i128,
    moved: bool,
) -> Result<Event, Error> {
    if !moved {
        Err(Error::TransferFailed)
    } else {
        match donation_applied(s, request_id, amount) {
            Err(e) => Err(e),
            Ok(_) => Ok(Event::DonationReceived { request_id, donor, amount }),
        }
    }
}

/// The store after a donation, once the token collaborator has answered: the
/// request stands as funded by `amount`, if the amount was moved and can be
/// recorded; else nothing has changed.
pub open spec fn donation_state(
    s: StoreView,
    request_id: u64,
    amount: i128,
    moved: bool,
) -> StoreView {
    match donation_applied(s, request_id, amount) {
        Ok(r) if moved => StoreView { help_requests: s.help_requests.insert(request_id, r), ..s },
        _ => s,
    }
}

/// Finishes a donation of `amount` by `donor` to the request `request_id`,
/// given whether the token collaborator moved the amount into custody.
///
/// If it did not, fails with `TransferFailed`. If it did, the amount is added
/// to what the request has raised, the request becomes fully funded if that
/// reaches its goal, and the `DonationReceived` fact is returned. Fails with
/// `InvalidAmount` if the amount is not positive or the sum leaves the range
/// of amounts, with `NotFound` if there is no such request, and with
/// `InvalidState` if the request is fully funded already. A failure changes
/// nothing.
pub fn complete_donation(
    store: &mut Store,
    donor: Identity,
    request_id: u64,
    amount: i128,
    moved: bool,
) -> (res: Result<Event, Error>)
    ensures
        res == donation_result(old(store)@, donor, request_id, amount, moved),
        final(store)@ == donation_state(old(store)@, request_id, amount, moved),
{
    if !moved {
        return Err(Error::TransferFailed);
    }
    if amount <= 0 {
        return Err(Error::InvalidAmount);
    }
    let request = match store.help_request(request_id) {
        None => {
            return Err(Error::NotFound);
        },
        Some(r) => r,
    };
    if request.status == HelpRequestStatus::FullyFunded {
        return Err(Error::InvalidState);
    }
    let raised = match request.raised_amount.checked_add(amount) {
        None => {
            return Err(Error::InvalidAmount);
        },
        Some(sum) => sum,
    };
    let status = if raised >= request.goal {
        HelpRequestStatus::FullyFunded
    } else {
        request.status
    };
    store.set_help_request(request_id, HelpRequest { raised_amount: raised, status, ..request });
    Ok(Event::DonationReceived { request_id, donor, amount })
}

/// Decides whether `donor` can donate `amount` to the help request
/// `request_id`, and what to ask of the token collaborator for it. Changes
/// nothing.
///
/// Fails with `Unauthorized` if the approval is not the donor's, with
/// `InvalidAmount` if the amount is not positive, with `NotFound` if no help
/// request has this id, with `InvalidState` if the request is fully funded,
/// with `InvalidAmount` if the sum would leave the range of amounts, and with
/// `ReentrancyDetected` if a guarded operation is running. Otherwise returns
/// the request to move `amount` of the help request's token from `donor`
/// into custody.
pub fn plan_donation(
    store: &Store,
    donor: Identity,
    approval: Option<Identity>,
    request_id: u64,
    amount: i128,
) -> (res: Result<Deposit, Error>)
    ensures
        res == donation_plan(store@, donor, approval, request_id, amount),
{
    if !is_authorized(approval, donor) {
        return Err(Error::Unauthorized);
    }
    if amount <= 0 {
        return Err(Error::InvalidAmount);
    }
    let request = match store.help_request(request_id) {
        None => {
            return Err(Error::NotFound);
        },
        Some(r) => r,
    };
    if request.status == HelpRequestStatus::FullyFunded {
        return Err(Error::InvalidState);
    }
    if request.raised_amount.checked_add(amount).is_none() {
        return Err(Error::InvalidAmount);
    }
    if store.is_locked() {
        return Err(Error::ReentrancyDetected);
    }
    Ok(Deposit { token: request.token, from: donor, amount })
}

/// Donates `amount` to the help request `request_id`: pulls the amount from
/// the donor into custody and adds it to what the request has raised.
///
/// `approval` is the identity that the host has verified to stand behind the
/// call; `pull` is the token collaborator. Before anything is moved the call
/// fails as [`plan_donation`] does; the store is then left as it was and
/// `pull` is not called.
///
/// Otherwise `pull` is called once, under the reentrancy flag, with the
/// request to move `amount` of the request's token from `donor` into
/// custody. The flag is removed, and the call ends as [`complete_donation`]
/// does on the store that `pull` left, with the answer of `pull`.
pub fn donate<F: FnOnce(&mut Store, Deposit) -> bool>(
    store: &mut Store,
    donor: Identity,
    approval: Option<Identity>,
    request_id: u64,
    amount: i128,
    pull: F,
) -> (res: Result<Event, Error>)
    requires
        donation_plan(old(store)@, donor, approval, request_id, amount) matches Ok(deposit)
            ==> forall|s: &mut Store|
            (*s)@ == old(store)@.with_lock(true) ==> call_requires(pull, (s, deposit)),
    ensures
        match donation_plan(old(store)@, donor, approval, request_id, amount) {
            Err(e) => res == Err::<Event, Error>(e) && final(store)@ == old(store)@,
            Ok(deposit) => exists|s: &mut Store, moved: bool|
                {
                    &&& (*s)@ == old(store)@.with_lock(true)
                    &&& #[trigger] call_ensures(pull, (s, deposit), moved)
                    &&& res == donation_result(
                        final(s)@.with_lock(false),
                        donor,
                        request_id,
                        amount,
                        moved,
                    )
                    &&& final(store)@ == donation_state(
                        final(s)@.with_lock(false),
                        request_id,
                        amount,
                        moved,
                    )
                },
        },
        final(store)@.locked == old(store)@.locked,
{
    let deposit = match plan_donation(store, donor, approval, request_id, amount) {
        Ok(deposit) => deposit,
        Err(e) => {
            return Err(e);
        },
    };
    match guarded_transfer(store, deposit, pull) {
        Ok(moved) => complete_donation(store, donor, request_id, amount, moved),
        Err(e) => Err(e),
    }
}

/// The sum of a sequence of amounts.
pub open spec fn total(amounts: Seq<i128>) -> int
    decreases amounts.len(),
{
    if amounts.len() == 0 {
        0
    } else {
        total(amounts.drop_last()) + amounts.last()
    }
}

/// The store after the donations `amounts` to the request `request_id` have
/// been moved and recorded, one after the other.
pub open spec fn after_donations(s: StoreView, request_id: u64, amounts: Seq<i128>) -> StoreView
    decreases amounts.len(),
{
    if amounts.len() == 0 {
        s
    } else {
        donation_state(
            after_donations(s, request_id, amounts.drop_last()),
            request_id,
            amounts.last(),
            true,
        )
    }
}

/// Whether each of the donations `amounts` to the request `request_id` can
/// be recorded in its turn.
pub open spec fn donations_succeed(s: StoreView, request_id: u64, amounts: Seq<i128>) -> bool
    decreases amounts.len(),
{
    amounts.len() == 0 || {
        &&& donations_succeed(s, request_id, amounts.drop_last())
        &&& donation_applied(
            after_donations(s, request_id, amounts.drop_last()),
            request_id,
            amounts.last(),
        ) is Ok
    }
}

/// A donation is recorded exactly when the request exists and accepts it,
/// and then the request stands as funded by it.
pub proof fn lemma_donation_recorded_iff_accepted(s: StoreView, request_id: u64, amount: i128)
    ensures
        donation_applied(s, request_id, amount) is Ok <==> s.help_requests.contains_key(request_id)
            && s.help_requests[request_id].accepts(amount),
        donation_applied(s, request_id, amount) matches Ok(r) ==> r
            == s.help_requests[request_id].funded(amount),
{
}

/// One donation adds its amount to what was raised, never lowers it, and
/// keeps the invariant of the request: the request is fully funded after it
/// exactly when what was raised has reached the goal.
pub proof fn lemma_donation_keeps_well_formed(r: HelpRequest, amount: i128)
    requires
        r.well_formed(),
        r.accepts(amount),
    ensures
        r.funded(amount).well_formed(),
        r.funded(amount).raised_amount == r.raised_amount + amount,
        r.funded(amount).raised_amount > r.raised_amount,
        r.funded(amount).goal == r.goal,
{
}

/// Donations add up: after any sequence of successful donations to a help
/// request, what the request has raised is what it had raised before plus
/// the sum of the donations, exactly; its goal is as before; and it is fully
/// funded exactly when what was raised has reached the goal. For a request
/// that had raised nothing, what was raised is the sum of the donations.
pub proof fn lemma_donations_add_up(s: StoreView, request_id: u64, amounts: Seq<i128>)
    requires
        s.help_requests.contains_key(request_id),
        s.help_requests[request_id].well_formed(),
        donations_succeed(s, request_id, amounts),
    ensures
        after_donations(s, request_id, amounts).help_requests.contains_key(request_id),
        ({
            let before = s.help_requests[request_id];
            let after = after_donations(s, request_id, amounts).help_requests[request_id];
            &&& after.raised_amount == before.raised_amount + total(amounts)
            &&& after.raised_amount >= before.raised_amount
            &&& after.goal == before.goal
            &&& after.well_formed()
            &&& (after.status == HelpRequestStatus::FullyFunded <==> before.raised_amount + total(
                amounts,
            ) >= before.goal)
        }),
    decreases amounts.len(),
{
    if amounts.len() > 0 {
        lemma_donations_add_up(s, request_id, amounts.drop_last());
    }
}

/// A help request that is fully funded takes no further donation: a donation
/// of a positive amount in the donor's name is refused with `InvalidState`,
/// so that the store, and with it what was raised, stays as it was.
pub proof fn lemma_fully_funded_refuses(
    s: StoreView,
    donor: Identity,
    approval: Option<Identity>,
    request_id: u64,
    amount: i128,
)
    requires
        s.help_requests.contains_key(request_id),
        s.help_requests[request_id].status == HelpRequestStatus::FullyFunded,
        authorizes(approval, donor),
        amount > 0,
    ensures
        donation_plan(s, donor, approval, request_id, amount) == Err::<Deposit, Error>(
            Error::InvalidState,
        ),
        forall|moved: bool| #[trigger]
            donation_state(s, request_id, amount, moved) == s,
{
}

/// While the reentrancy flag is set, no donation begins: it is refused, and
/// the refusal is `ReentrancyDetected` wherever the same call would have
/// gone through without the flag.
pub proof fn lemma_locked_refuses_donation(
    s: StoreView,
    donor: Identity,
    approval: Option<Identity>,
    request_id: u64,
    amount: i128,
)
    requires
        s.locked,
    ensures
        donation_plan(s, donor, approval, request_id, amount) is Err,
        donation_plan(s.with_lock(false), donor, approval, request_id, amount) is Ok
            ==> donation_plan(s, donor, approval, request_id, amount) == Err::<Deposit, Error>(
            Error::ReentrancyDetected,
        ),
{
}

/// The operations on help requests keep the invariant of the data.
pub proof fn lemma_mutual_aid_operations_keep_well_formed(
    s: StoreView,
    creator: Identity,
    token: Identity,
    goal: i128,
    request_id: u64,
    amount: i128,
    moved: bool,
)
    requires
        s.well_formed(),
    ensures
        opening_state(s, creator, token, goal).well_formed(),
        donation_state(s, request_id, amount, moved).well_formed(),
{
}

} // verus!
