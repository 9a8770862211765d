//! The facts that completed operations report.

use vstd::prelude::*;
use crate::identity::Identity;

verus! {

/// A fact about a completed operation, for the host to publish once the
/// store holds what the operation wrote.
#[derive(Clone, Copy, Debug, PartialEq, Eq, Structural)]
pub enum Event {
    /// The admin configuration was stored.
    ContractInitialized { admin: Identity, fee_bps: u32 },
    /// A giveaway was created and its prize is in custody.
    GiveawayCreated { giveaway_id: u64, creator: Identity, token: Identity, prize_amount: i128 },
    /// An identity has entered a giveaway.
    GiveawayEntered { giveaway_id: u64, participant: Identity },
    /// A giveaway was settled: `fee` went to the admin, `payout` to the winner.
    GiveawaySettled { giveaway_id: u64, winner: Identity, payout: i128, fee: i128 },
    /// A donation is in custody and counts towards its help request.
    DonationReceived { request_id: u64, donor: Identity, amount: i128 },
}

} // verus!
