//! The accounting core of a value-pooling contract: giveaways, in which a
//! creator locks a prize that one participant wins, and mutual-aid requests,
//! which donors fund up to a goal.
//!
//! The core decides and keeps the books; it moves no value itself. Every
//! operation works on a [`Store`], the typed key-value store of the contract,
//! and returns the fact to publish or the reason of its refusal. An operation
//! that moves value is handed the token collaborator as a closure: it plans
//! the movement, calls the collaborator once under the reentrancy flag, and
//! completes by recording the movement only if the collaborator reports it.
//! A refused operation changes nothing.
//!
//! Every contract is stated over [`StoreView`], the mathematical content of a
//! store. The laws of the operations are proof functions beside them, and the
//! laws of whole sequences of calls are in [`history`].

pub mod error;
pub mod events;
pub mod giveaway;
pub mod history;
pub mod identity;
pub mod init;
pub mod mutual_aid;
pub mod storage;
pub mod token;
pub mod utils;

pub use error::Error;
pub use events::Event;
pub use giveaway::{
    complete_giveaway_creation, complete_settlement, create_giveaway, enter_giveaway,
    plan_giveaway_creation, plan_settlement, settle_giveaway, split_prize, Giveaway,
    GiveawayStatus,
};
pub use history::{replay, Call};
pub use identity::{Identity, IdentityKind};
pub use init::init;
pub use mutual_aid::{
    complete_donation, create_help_request, donate, plan_donation, HelpRequest,
    HelpRequestStatus,
};
pub use storage::{DataKey, Store, StoreView, Tier};
pub use token::{Deposit, Disbursement};
pub use utils::with_reentrancy_guard;
