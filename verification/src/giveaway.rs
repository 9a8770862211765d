//! Giveaways: creation, entry and settlement.

use vstd::prelude::*;
use crate::error::Error;
use crate::events::Event;
use crate::identity::{authorizes, is_authorized, Identity};
use crate::storage::{Store, StoreView};
use crate::token::{guarded_transfer, Deposit, Disbursement};

verus! {

/// Where a giveaway stands in its life.
#[derive(Clone, Copy, Debug, PartialEq, Eq, Structural)]
pub enum GiveawayStatus {
    /// Entries are accepted and the prize is in custody.
    Open,
    /// Neither entries nor a settlement are accepted; the prize is still in
    /// custody. No operation here closes a giveaway.
    Closed,
    /// The prize has been paid out. A settled giveaway never changes again.
    Settled,
}

/// A prize locked by its creator, to be won by one participant.
#[derive(Clone, Copy, Debug, PartialEq, Eq, Structural)]
pub struct Giveaway {
    pub id: u64,
    pub creator: Identity,
    pub token: Identity,
    pub prize_amount: i128,
    pub status: GiveawayStatus,
    pub participant_count: u64,
}

impl Giveaway {
    /// The invariant of a stored giveaway: its prize is positive.
    pub open spec fn well_formed(self) -> bool {
        self.prize_amount > 0
    }

    /// This giveaway with another status.
    pub open spec fn with_status(self, status: GiveawayStatus) -> Giveaway {
        Giveaway { status, ..self }
    }
}

/// The highest fee rate, in basis points: 100%.
pub const MAX_FEE_BPS: u32 = 10000;

/// The protocol fee on a prize: `fee_bps` ten-thousandths of it, rounded down.
pub open spec fn fee_of(prize_amount: int, fee_bps: int) -> int {
    prize_amount * fee_bps / 10000
}

/// The winner's payout from a prize: what the protocol fee leaves of it.
pub open spec fn payout_of(prize_amount: int, fee_bps: int) -> int {
    prize_amount - fee_of(prize_amount, fee_bps)
}

/// The fee of a prize of `q` ten-thousands and a rest `r` is the fee of the
/// ten-thousands plus the fee of the rest, and lies between zero and the prize.
proof fn lemma_fee_by_parts(q: int, r: int, bps: int)
    requires
        0 <= q,
        0 <= r < 10000,
        0 <= bps <= 10000,
    ensures
        fee_of(q * 10000 + r, bps) == q * bps + (r * bps) / 10000,
        0 <= q * bps <= q * 10000,
        0 <= r * bps <= 99990000,
        0 <= fee_of(q * 10000 + r, bps) <= q * 10000 + r,
{
    assert(0 <= q * bps <= q * 10000) by (nonlinear_arith)
        requires
            0 <= q,
            0 <= bps <= 10000,
    ;
    assert(0 <= r * bps <= r * 10000) by (nonlinear_arith)
        requires
            0 <= r,
            0 <= bps <= 10000,
    ;
    assert((q * 10000 + r) * bps == (q * bps) * 10000 + r * bps) by (nonlinear_arith);
}

/// Fee and payout add up to the prize exactly, whatever the prize and the
/// rate: the split creates no value and destroys none.
pub proof fn lemma_fee_and_payout_add_up(prize_amount: int, fee_bps: int)
    ensures
        fee_of(prize_amount, fee_bps) + payout_of(prize_amount, fee_bps) == prize_amount,
{
}

/// At a rate of at most 100%, neither the fee nor the payout is negative,
/// and neither is more than the prize.
pub proof fn lemma_fee_bounds(prize_amount: int, fee_bps: int)
    requires
        0 <= prize_amount,
        0 <= fee_bps <= 10000,
    ensures
        0 <= fee_of(prize_amount, fee_bps) <= prize_amount,
        0 <= payout_of(prize_amount, fee_bps) <= prize_amount,
{
    let q = prize_amount / 10000;
    let r = prize_amount % 10000;
    lemma_fee_by_parts(q, r, fee_bps);
}

/// Splits a prize into the protocol fee and the winner's payout.
///
/// Fails with `InvalidAmount` if the prize is not positive or the rate is
/// over 100%. Otherwise the fee is `prize_amount * fee_bps / 10000`, rounded
/// down, and the winner's payout is the rest: the two add up to the prize
/// exactly.
pub fn split_prize(prize_amount: i128, fee_bps: u32) -> (res: Result<(i128, i128), Error>)
    ensures
        prize_amount <= 0 || fee_bps > MAX_FEE_BPS ==> res == Err::<(i128, i128), Error>(
            Error::InvalidAmount,
        ),
        prize_amount > 0 && fee_bps <= MAX_FEE_BPS ==> res == Ok::<(i128, i128), Error>(
            (
                fee_of(prize_amount as int, fee_bps as int) as i128,
                payout_of(prize_amount as int, fee_bps as int) as i128,
            ),
        ),
        res matches Ok((fee, payout)) ==> 0 <= fee <= prize_amount && fee + payout == prize_amount,
{
    if prize_amount <= 0 || fee_bps > MAX_FEE_BPS {
        return Err(Error::InvalidAmount);
    }
    let q: i128 = prize_amount / 10000;
    let r: i128 = prize_amount % 10000;
    let bps: i128 = fee_bps as i128;
    proof {
        lemma_fee_by_parts(q as int, r as int, bps as int);
    }
    let fee: i128 = q * bps + (r * bps) / 10000;
    Ok((fee, prize_amount - fee))
}

/// The giveaway that a creation on `s` stores: it takes the next id, is open
/// and has no participants. There is none if the prize is not positive or
/// the ids are used up.
pub open spec fn next_giveaway(
    s: StoreView,
    creator: Identity,
    token: Identity,
    prize_amount: i128,
) -> Option<Giveaway> {
    if prize_amount <= 0 || s.giveaway_count == u64::MAX {
        None
    } else {
        Some(
            Giveaway {
                id: (s.giveaway_count + 1) as u64,
                creator,
                token,
                prize_amount,
                status: GiveawayStatus::Open,
                participant_count: 0,
            },
        )
    }
}

/// What a creation asks of the token collaborator, or why the creation is
/// refused before anything is moved.
pub open spec fn creation_plan(
    s: StoreView,
    creator: Identity,
    approval: Option<Identity>,
    token: Identity,
    prize_amount: i128,
) -> Result<Deposit, Error> {
    if !authorizes(approval, creator) {
        Err(Error::Unauthorized)
    } else if next_giveaway(s, creator, token, prize_amount) is None {
        Err(Error::InvalidAmount)
    } else if s.locked {
        Err(Error::ReentrancyDetected)
    } else {
        Ok(Deposit { token, from: creator, amount: prize_amount })
    }
}

/// Decides whether a giveaway can be created, and what to ask of the token
/// collaborator for it. Changes nothing.
///
/// Fails with `Unauthorized` if the approval is not the creator's, with
/// `InvalidAmount` if the prize is not positive or the ids are used up, and
/// with `ReentrancyDetected` if a guarded operation is running. Otherwise
/// returns the request to move `prize_amount` of `token` from `creator` into
/// custody.
pub fn plan_giveaway_creation(
    store: &Store,
    creator: Identity,
    approval: Option<Identity>,
    token: Identity,
    prize_amount: i128,
) -> (res: Result<Deposit, Error>)
    ensures
        res == creation_plan(store@, creator, approval, token, prize_amount),
{
    if !is_authorized(approval, creator) {
        return Err(Error::Unauthorized);
    }
    if prize_amount <= 0 || store.giveaway_count() == u64::MAX {
        return Err(Error::InvalidAmount);
    }
    if store.is_locked() {
        return Err(Error::ReentrancyDetected);
    }
    Ok(Deposit { token, from: creator, amount: prize_amount })
}

/// What a creation returns once the token collaborator has answered: the id
/// of the new giveaway and the fact to publish, if the prize was moved.
pub open spec fn creation_result(
    s: StoreView,
    creator: Identity,
    token: Identity,
    prize_amount: i128,
    moved: bool,
) -> Result<(u64, Event), Error> {
    if !moved {
        Err(Error::TransferFailed)
    } else {
        match next_giveaway(s, creator, token, prize_amount) {
            None => Err(Error::InvalidAmount),
            Some(g) => Ok(
                (
                    g.id,
                    Event::GiveawayCreated { giveaway_id: g.id, creator, token, prize_amount },
                ),
            ),
        }
    }
}

/// The store after a creation, once the token collaborator has answered: the
/// new giveaway is stored and the counter stands at its id, if the prize was
/// moved; else nothing has changed.
pub open spec fn creation_state(
    s: StoreView,
    creator: Identity,
    token: Identity,
    prize_amount: i128,
    moved: bool,
) -> StoreView {
    match next_giveaway(s, creator, token, prize_amount) {
        Some(g) if moved => StoreView {
            giveaway_count: g.id,
            giveaways: s.giveaways.insert(g.id, g),
            ..s
        },
        _ => s,
    }
}

/// Finishes the creation of a giveaway, given whether the token collaborator
/// moved the prize into custody.
///
/// If it did not, fails with `TransferFailed`. If it did, the giveaway takes
/// the next id from the counter and is stored as open, with no participants;
/// the id is returned with the `GiveawayCreated` fact. A prize that is not
/// positive, or a counter that is used up, fails with `InvalidAmount`. A
/// failure changes nothing.
pub fn complete_giveaway_creation(
    store: &mut Store,
    creator: Identity,
    token: Identity,
    prize_amount: i128,
    moved: bool,
) -> (res: Result<(u64, Event), Error>)
    ensures
        res == creation_result(old(store)@, creator, token, prize_amount, moved),
        final(store)@ == creation_state(old(store)@, creator, token, prize_amount, moved),
{
    if !moved {
        return Err(Error::TransferFailed);
    }
    let count = store.giveaway_count();
    if prize_amount <= 0 || count == u64::MAX {
        return Err(Error::InvalidAmount);
    }
    let id: u64 = count + 1;
    store.set_giveaway_count(id);
    store.set_giveaway(
        id,
        Giveaway {
            id,
            creator,
            token,
            prize_amount,
            status: GiveawayStatus::Open,
            participant_count: 0,
        },
    );
    Ok((id, Event::GiveawayCreated { giveaway_id: id, creator, token, prize_amount }))
}

/// Creates a giveaway: pulls the prize from its creator into custody and
/// stores the giveaway as open.
///
/// `approval` is the identity that the host has verified to stand behind the
/// call; `pull` is the token collaborator. Before anything is moved the call
/// fails as [`plan_giveaway_creation`] does; the store is then left as it was
/// and `pull` is not called.
///
/// Otherwise `pull` is called once, under the reentrancy flag, with the
/// request to move `prize_amount` of `token` from `creator` into custody.
/// The flag is removed, and the call ends as [`complete_giveaway_creation`]
/// does on the store that `pull` left, with the answer of `pull`.
pub fn create_giveaway<F: FnOnce(&mut Store, Deposit) -> bool>(
    store: &mut Store,
    creator: Identity,
    approval: Option<Identity>,
    token: Identity,
    prize_amount: i128,
    pull: F,
) -> (res: Result<(u64, Event), Error>)
    requires
        creation_plan(old(store)@, creator, approval, token, prize_amount) matches Ok(request)
            ==> forall|s: &mut Store|
            (*s)@ == old(store)@.with_lock(true) ==> call_requires(pull, (s, request)),
    ensures
        match creation_plan(old(store)@, creator, approval, token, prize_amount) {
            Err(e) => res == Err::<(u64, Event), Error>(e) && final(store)@ == old(store)@,
            Ok(request) => exists|s: &mut Store, moved: bool|
                {
                    &&& (*s)@ == old(store)@.with_lock(true)
                    &&& #[trigger] call_ensures(pull, (s, request), moved)
                    &&& res == creation_result(
                        final(s)@.with_lock(false),
                        creator,
                        token,
                        prize_amount,
                        moved,
                    )
                    &&& final(store)@ == creation_state(
                        final(s)@.with_lock(false),
                        creator,
                        token,
                        prize_amount,
                        moved,
                    )
                },
        },
        final(store)@.locked == old(store)@.locked,
{
    let request = match plan_giveaway_creation(store, creator, approval, token, prize_amount) {
        Ok(request) => request,
        Err(e) => {
            return Err(e);
        },
    };
    match guarded_transfer(store, request, pull) {
        Ok(moved) => complete_giveaway_creation(store, creator, token, prize_amount, moved),
        Err(e) => Err(e),
    }
}

/// Why an entry is refused, if it is.
pub open spec fn entry_refused(
    s: StoreView,
    participant: Identity,
    approval: Option<Identity>,
    giveaway_id: u64,
) -> Option<Error> {
    if !authorizes(approval, participant) {
        Some(Error::Unauthorized)
    } else {
        match s.giveaways.get(giveaway_id) {
            None => Some(Error::NotFound),
            Some(g) => if g.status != GiveawayStatus::Open {
                Some(Error::InvalidState)
            } else if s.participants.contains((giveaway_id, participant)) {
                Some(Error::AlreadyEntered)
            } else if g.participant_count == u64::MAX {
                Some(Error::InvalidAmount)
            } else {
                None
            },
        }
    }
}

/// The store after `participant` has entered the giveaway `giveaway_id`: the
/// entry is marked and the giveaway counts one participant more.
pub open spec fn entry_state(s: StoreView, participant: Identity, giveaway_id: u64) -> StoreView {
    let g = s.giveaways[giveaway_id];
    StoreView {
        participants: s.participants.insert((giveaway_id, participant)),
        giveaways: s.giveaways.insert(
            giveaway_id,
            Giveaway { participant_count: (g.participant_count + 1) as u64, ..g },
        ),
        ..s
    }
}

/// Enters `participant` into the giveaway `giveaway_id`.
///
/// Fails with `Unauthorized` if the approval is not the participant's, with
/// `NotFound` if no giveaway has this id, with `InvalidState` if the giveaway
/// is not open, with `AlreadyEntered` if the participant has entered it
/// before, and with `InvalidAmount` if its participant count is used up; the
/// store is then left as it was. Otherwise the entry is marked, the giveaway
/// counts one participant more, and the `GiveawayEntered` fact is returned.
/// No value moves.
pub fn enter_giveaway(
    store: &mut Store,
    participant: Identity,
    approval: Option<Identity>,
    giveaway_id: u64,
) -> (res: Result<Event, Error>)
    ensures
        match entry_refused(old(store)@, participant, approval, giveaway_id) {
            Some(e) => res == Err::<Event, Error>(e) && final(store)@ == old(store)@,
            None => res == Ok::<Event, Error>(Event::GiveawayEntered { giveaway_id, participant })
                && final(store)@ == entry_state(old(store)@, participant, giveaway_id),
        },
{
    if !is_authorized(approval, participant) {
        return Err(Error::Unauthorized);
    }
    let giveaway = match store.giveaway(giveaway_id) {
        None => {
            return Err(Error::NotFound);
        },
        Some(g) => g,
    };
    if giveaway.status != GiveawayStatus::Open {
        return Err(Error::InvalidState);
    }
    if store.has_participant(giveaway_id, participant) {
        return Err(Error::AlreadyEntered);
    }
    if giveaway.participant_count == u64::MAX {
        return Err(Error::InvalidAmount);
    }
    store.add_participant(giveaway_id, participant);
    store.set_giveaway(
        giveaway_id,
        Giveaway { participant_count: giveaway.participant_count + 1, ..giveaway },
    );
    Ok(Event::GiveawayEntered { giveaway_id, participant })
}

/// What a settlement of the giveaway `giveaway_id` in favour of `winner` asks
/// of the token collaborator, or why the settlement is refused before
/// anything is moved.
pub open spec fn settlement_plan(s: StoreView, giveaway_id: u64, winner: Identity) -> Result<
    Disbursement,
    Error,
> {
    match s.giveaways.get(giveaway_id) {
        None => Err(Error::NotFound),
        Some(g) => if g.status != GiveawayStatus::Open {
            Err(Error::InvalidState)
        } else if !s.participants.contains((giveaway_id, winner)) {
            Err(Error::NotFound)
        } else {
            match (s.admin, s.fee_bps) {
                (Some(admin), Some(fee_bps)) => if g.prize_amount <= 0 || fee_bps > MAX_FEE_BPS {
                    Err(Error::InvalidAmount)
                } else if s.locked {
                    Err(Error::ReentrancyDetected)
                } else {
                    Ok(
                        Disbursement {
                            token: g.token,
                            admin,
                            fee: fee_of(g.prize_amount as int, fee_bps as int) as i128,
                            winner,
                            payout: payout_of(g.prize_amount as int, fee_bps as int) as i128,
                        },
                    )
                },
                _ => Err(Error::NotFound),
            }
        },
    }
}

/// The store on which the token collaborator works during a settlement: the
/// giveaway already stands as settled and the reentrancy flag is set.
pub open spec fn settling(s: StoreView, giveaway_id: u64) -> StoreView {
    StoreView {
        giveaways: s.giveaways.insert(
            giveaway_id,
            s.giveaways[giveaway_id].with_status(GiveawayStatus::Settled),
        ),
        locked: true,
        ..s
    }
}

/// What a settlement returns once the token collaborator has answered.
pub open spec fn settlement_result(
    s: StoreView,
    giveaway_id: u64,
    request: Disbursement,
    moved: bool,
) -> Result<Event, Error> {
    if !moved {
        Err(Error::TransferFailed)
    } else {
        match s.giveaways.get(giveaway_id) {
            None => Err(Error::NotFound),
            Some(g) => if g.status != GiveawayStatus::Settled {
                Err(Error::InvalidState)
            } else {
                Ok(
                    Event::GiveawaySettled {
                        giveaway_id,
                        winner: request.winner,
                        payout: request.payout,
                        fee: request.fee,
                    },
                )
            },
        }
    }
}

/// The store after a settlement, once the token collaborator has answered:
/// if nothing was moved, a giveaway that stands as settled is open again;
/// else nothing changes.
pub open spec fn settlement_state(s: StoreView, giveaway_id: u64, moved: bool) -> StoreView {
    match s.giveaways.get(giveaway_id) {
        Some(g) if !moved && g.status == GiveawayStatus::Settled => StoreView {
            giveaways: s.giveaways.insert(giveaway_id, g.with_status(GiveawayStatus::Open)),
            ..s
        },
        _ => s,
    }
}

/// Finishes the settlement of the giveaway `giveaway_id`, given whether the
/// token collaborator made the payments of `request`.
///
/// If it did, the giveaway must stand as settled: the `GiveawaySettled` fact
/// is returned and the store stays as it is (`NotFound` if there is no such
/// giveaway, `InvalidState` if it does not stand as settled). If it did not,
/// the call fails with `TransferFailed`, and a giveaway that stands as
/// settled is opened again, so that nothing of the settlement remains.
pub fn complete_settlement(
    store: &mut Store,
    giveaway_id: u64,
    request: Disbursement,
    moved: bool,
) -> (res: Result<Event, Error>)
    ensures
        res == settlement_result(old(store)@, giveaway_id, request, moved),
        final(store)@ == settlement_state(old(store)@, giveaway_id, moved),
{
    let found = store.giveaway(giveaway_id);
    if !moved {
        match found {
            Some(g) => {
                if g.status == GiveawayStatus::Settled {
                    store.set_giveaway(giveaway_id, Giveaway { status: GiveawayStatus::Open, ..g });
                }
            },
            None => {},
        }
        return Err(Error::TransferFailed);
    }
    match found {
        None => Err(Error::NotFound),
        Some(g) => {
            if g.status != GiveawayStatus::Settled {
                Err(Error::InvalidState)
            } else {
                Ok(
                    Event::GiveawaySettled {
                        giveaway_id,
                        winner: request.winner,
                        payout: request.payout,
                        fee: request.fee,
                    },
                )
            }
        },
    }
}

/// The giveaway `giveaway_id` as it is stored, and what its settlement in
/// favour of `winner` asks of the token collaborator; or why the settlement
/// is refused.
fn open_for_settlement(store: &Store, giveaway_id: u64, winner: Identity) -> (res: Result<
    (Giveaway, Disbursement),
    Error,
>)
    ensures
        match res {
            Ok((giveaway, request)) => {
                &&& settlement_plan(store@, giveaway_id, winner) == Ok::<Disbursement, Error>(
                    request,
                )
                &&& store@.giveaways.get(giveaway_id) == Some(giveaway)
            },
            Err(e) => settlement_plan(store@, giveaway_id, winner) == Err::<Disbursement, Error>(
                e,
            ),
        },
{
    let giveaway = match store.giveaway(giveaway_id) {
        None => {
            return Err(Error::NotFound);
        },
        Some(g) => g,
    };
    if giveaway.status != GiveawayStatus::Open {
        return Err(Error::InvalidState);
    }
    if !store.has_participant(giveaway_id, winner) {
        return Err(Error::NotFound);
    }
    let (admin, fee_bps) = match (store.admin(), store.fee_bps()) {
        (Some(admin), Some(fee_bps)) => (admin, fee_bps),
        _ => {
            return Err(Error::NotFound);
        },
    };
    let (fee, payout) = match split_prize(giveaway.prize_amount, fee_bps) {
        Ok(parts) => parts,
        Err(e) => {
            return Err(e);
        },
    };
    if store.is_locked() {
        return Err(Error::ReentrancyDetected);
    }
    Ok((giveaway, Disbursement { token: giveaway.token, admin, fee, winner, payout }))
}

/// Decides whether the giveaway `giveaway_id` can be settled in favour of
/// `winner`, and what to ask of the token collaborator for it. Changes
/// nothing.
///
/// Fails with `NotFound` if no giveaway has this id, with `InvalidState` if
/// the giveaway is not open, with `NotFound` if `winner` has not entered it
/// or no admin configuration is stored, with `InvalidAmount` if the stored
/// prize is not positive or the stored rate is over 100%, and with
/// `ReentrancyDetected` if a guarded operation is running. Otherwise returns
/// the request to pay `prize_amount * fee_bps / 10000`, rounded down, to the
/// admin and the rest of the prize to the winner.
pub fn plan_settlement(store: &Store, giveaway_id: u64, winner: Identity) -> (res: Result<
    Disbursement,
    Error,
>)
    ensures
        res == settlement_plan(store@, giveaway_id, winner),
{
    match open_for_settlement(store, giveaway_id, winner) {
        Ok((_, request)) => Ok(request),
        Err(e) => Err(e),
    }
}

/// Settles the giveaway `giveaway_id` in favour of `winner`, the participant
/// that the randomness collaborator has drawn: pays the protocol fee to the
/// admin and the rest of the prize to the winner.
///
/// Before anything is moved the call fails as [`plan_settlement`] does; the
/// store is then left as it was and `pay` is not called.
///
/// Otherwise the giveaway is stored as settled first, and then `pay`, the
/// token collaborator, is called once, under the reentrancy flag, with the
/// request to pay the fee to the admin and the payout to the winner. The
/// flag is removed, and the call ends as [`complete_settlement`] does on the
/// store that `pay` left, with the answer of `pay`.
pub fn settle_giveaway<F: FnOnce(&mut Store, Disbursement) -> bool>(
    store: &mut Store,
    giveaway_id: u64,
    winner: Identity,
    pay: F,
) -> (res: Result<Event, Error>)
    requires
        settlement_plan(old(store)@, giveaway_id, winner) matches Ok(request) ==> forall|
            s: &mut Store,
        |
            (*s)@ == settling(old(store)@, giveaway_id) ==> call_requires(pay, (s, request)),
    ensures
        match settlement_plan(old(store)@, giveaway_id, winner) {
            Err(e) => res == Err::<Event, Error>(e) && final(store)@ == old(store)@,
            Ok(request) => exists|s: &mut Store, moved: bool|
                {
                    &&& (*s)@ == settling(old(store)@, giveaway_id)
                    &&& #[trigger] call_ensures(pay, (s, request), moved)
                    &&& res == settlement_result(
                        final(s)@.with_lock(false),
                        giveaway_id,
                        request,
                        moved,
                    )
                    &&& final(store)@ == settlement_state(
                        final(s)@.with_lock(false),
                        giveaway_id,
                        moved,
                    )
                },
        },
        final(store)@.locked == old(store)@.locked,
{
    let (open, request) = match open_for_settlement(store, giveaway_id, winner) {
        Ok(parts) => parts,
        Err(e) => {
            return Err(e);
        },
    };
    store.set_giveaway(giveaway_id, Giveaway { status: GiveawayStatus::Settled, ..open });
    match guarded_transfer(store, request, pay) {
        Ok(moved) => complete_settlement(store, giveaway_id, request, moved),
        Err(e) => {
            // Not reached, as the flag was absent above; were it reached,
            // nothing of the settlement would remain.
            store.set_giveaway(giveaway_id, open);
            Err(e)
        },
    }
}

/// A settlement hands out the prize and nothing else: the fee is
/// `prize_amount * fee_bps / 10000`, rounded down, fee and payout are not
/// negative, and the two add up to the prize exactly.
pub proof fn lemma_settlement_conserves_prize(s: StoreView, giveaway_id: u64, winner: Identity)
    requires
        settlement_plan(s, giveaway_id, winner) is Ok,
    ensures
        ({
            let request = settlement_plan(s, giveaway_id, winner)->Ok_0;
            let g = s.giveaways[giveaway_id];
            &&& request.fee == fee_of(g.prize_amount as int, s.fee_bps->Some_0 as int)
            &&& request.payout == payout_of(g.prize_amount as int, s.fee_bps->Some_0 as int)
            &&& request.fee + request.payout == g.prize_amount
            &&& 0 <= request.fee <= g.prize_amount
            &&& 0 <= request.payout <= g.prize_amount
            &&& request.token == g.token
            &&& request.winner == winner
            &&& Some(request.admin) == s.admin
        }),
{
    let g = s.giveaways[giveaway_id];
    lemma_fee_bounds(g.prize_amount as int, s.fee_bps->Some_0 as int);
}

/// A settlement whose payout fails leaves no trace: the giveaway that was
/// stored as settled for the time of the payout is open again, and the store
/// is as it was before the settlement began.
pub proof fn lemma_failed_settlement_restores(s: StoreView, giveaway_id: u64, winner: Identity)
    requires
        settlement_plan(s, giveaway_id, winner) is Ok,
    ensures
        settlement_state(settling(s, giveaway_id).with_lock(false), giveaway_id, false) == s,
{
}

/// A settlement whose payout succeeds leaves the giveaway settled and the
/// rest of the store as it was.
pub proof fn lemma_settlement_settles(s: StoreView, giveaway_id: u64, winner: Identity)
    requires
        settlement_plan(s, giveaway_id, winner) is Ok,
    ensures
        ({
            let after = settlement_state(
                settling(s, giveaway_id).with_lock(false),
                giveaway_id,
                true,
            );
            let request = settlement_plan(s, giveaway_id, winner)->Ok_0;
            &&& after == (StoreView {
                giveaways: s.giveaways.insert(
                    giveaway_id,
                    s.giveaways[giveaway_id].with_status(GiveawayStatus::Settled),
                ),
                ..s
            })
            &&& settlement_result(after, giveaway_id, request, true) is Ok
        }),
{
}

/// A giveaway that is settled stays as it is: it takes no entry and no
/// further settlement.
pub proof fn lemma_settled_is_final(
    s: StoreView,
    giveaway_id: u64,
    who: Identity,
    approval: Option<Identity>,
)
    requires
        s.giveaways.contains_key(giveaway_id),
        s.giveaways[giveaway_id].status == GiveawayStatus::Settled,
    ensures
        entry_refused(s, who, approval, giveaway_id) is Some,
        settlement_plan(s, giveaway_id, who) == Err::<Disbursement, Error>(Error::InvalidState),
{
}

/// An identity enters a giveaway at most once: right after its entry, a
/// second one in its name is refused with `AlreadyEntered`, so that the
/// store, and with it the participant count, stays as the first entry left
/// it.
pub proof fn lemma_second_entry_refused(
    s: StoreView,
    participant: Identity,
    approval: Option<Identity>,
    giveaway_id: u64,
)
    requires
        entry_refused(s, participant, approval, giveaway_id) is None,
    ensures
        entry_refused(entry_state(s, participant, giveaway_id), participant, approval, giveaway_id)
            == Some(Error::AlreadyEntered),
        entry_state(s, participant, giveaway_id).giveaways[giveaway_id].participant_count
            == s.giveaways[giveaway_id].participant_count + 1,
{
}

/// Whatever else the store holds, an identity that is marked as a
/// participant of a giveaway cannot enter it again.
pub proof fn lemma_entry_at_most_once(
    s: StoreView,
    participant: Identity,
    approval: Option<Identity>,
    giveaway_id: u64,
)
    requires
        s.participants.contains((giveaway_id, participant)),
    ensures
        entry_refused(s, participant, approval, giveaway_id) is Some,
{
}

/// No operation on giveaways removes the mark of an entry.
pub proof fn lemma_entries_are_kept(
    s: StoreView,
    entry: (u64, Identity),
    who: Identity,
    token: Identity,
    giveaway_id: u64,
    prize_amount: i128,
    moved: bool,
)
    requires
        s.participants.contains(entry),
    ensures
        creation_state(s, who, token, prize_amount, moved).participants.contains(entry),
        entry_state(s, who, giveaway_id).participants.contains(entry),
        settling(s, giveaway_id).participants.contains(entry),
        settlement_state(s, giveaway_id, moved).participants.contains(entry),
{
}

/// While the reentrancy flag is set, no operation that moves value begins:
/// a creation and a settlement are refused, and the refusal is
/// `ReentrancyDetected` wherever the same call would have gone through
/// without the flag.
pub proof fn lemma_locked_refuses_giveaway_transfers(
    s: StoreView,
    who: Identity,
    approval: Option<Identity>,
    token: Identity,
    prize_amount: i128,
    giveaway_id: u64,
)
    requires
        s.locked,
    ensures
        creation_plan(s, who, approval, token, prize_amount) is Err,
        creation_plan(s.with_lock(false), who, approval, token, prize_amount) is Ok
            ==> creation_plan(s, who, approval, token, prize_amount) == Err::<Deposit, Error>(
            Error::ReentrancyDetected,
        ),
        settlement_plan(s, giveaway_id, who) is Err,
        settlement_plan(s.with_lock(false), giveaway_id, who) is Ok ==> settlement_plan(
            s,
            giveaway_id,
            who,
        ) == Err::<Disbursement, Error>(Error::ReentrancyDetected),
{
}

/// The operations on giveaways keep the invariant of the data.
pub proof fn lemma_giveaway_operations_keep_well_formed(
    s: StoreView,
    who: Identity,
    approval: Option<Identity>,
    token: Identity,
    prize_amount: i128,
    giveaway_id: u64,
    moved: bool,
)
    requires
        s.well_formed(),
    ensures
        creation_state(s, who, token, prize_amount, moved).well_formed(),
        entry_refused(s, who, approval, giveaway_id) is None ==> entry_state(
            s,
            who,
            giveaway_id,
        ).well_formed(),
        settlement_plan(s, giveaway_id, who) is Ok ==> settling(s, giveaway_id).well_formed(),
        settlement_state(s, giveaway_id, moved).well_formed(),
{
}

} // verus!
