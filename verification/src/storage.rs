//! The typed key-value store of the contract and its mathematical content.

use vstd::prelude::*;
use std::collections::HashMap;
use crate::giveaway::{Giveaway, MAX_FEE_BPS};
use crate::identity::Identity;
use crate::mutual_aid::HelpRequest;

verus! {

broadcast use vstd::std_specs::hash::group_hash_axioms;

/// How long the host keeps what is stored under a key.
#[derive(Clone, Copy, Debug, PartialEq, Eq, Structural)]
pub enum Tier {
    /// Kept as long as the contract instance lives; holds the configuration
    /// and the counters.
    Instance,
    /// Kept per record, for as long as the record is needed.
    Persistent,
    /// Dropped soon; holds only the reentrancy flag.
    Temporary,
}

/// The keys of the store, one variant per kind of entry.
#[derive(Clone, Copy, Debug, PartialEq, Eq, Structural)]
pub enum DataKey {
    /// The admin identity.
    Admin,
    /// The fee rate in basis points.
    Fee,
    /// The number of giveaways created so far.
    GiveawayCount,
    /// The number of help requests created so far.
    HelpRequestCount,
    /// The giveaway with the given id.
    Giveaway(u64),
    /// The mark that an identity has entered the giveaway with the given id.
    Participant(u64, Identity),
    /// The help request with the given id.
    HelpRequest(u64),
    /// The reentrancy flag.
    Lock,
}

impl DataKey {
    /// The tier under which the host keeps the entry of this key.
    pub open spec fn spec_tier(self) -> Tier {
        match self {
            DataKey::Admin | DataKey::Fee | DataKey::GiveawayCount | DataKey::HelpRequestCount =>
                Tier::Instance,
            DataKey::Giveaway(_) | DataKey::Participant(_, _) | DataKey::HelpRequest(_) =>
                Tier::Persistent,
            DataKey::Lock => Tier::Temporary,
        }
    }

    /// The tier under which the host keeps the entry of this key.
    #[verifier::when_used_as_spec(spec_tier)]
    pub fn tier(self) -> (t: Tier)
        ensures
            t == self.spec_tier(),
    {
        match self {
            DataKey::Admin => Tier::Instance,
            DataKey::Fee => Tier::Instance,
            DataKey::GiveawayCount => Tier::Instance,
            DataKey::HelpRequestCount => Tier::Instance,
            DataKey::Giveaway(_) => Tier::Persistent,
            DataKey::Participant(_, _) => Tier::Persistent,
            DataKey::HelpRequest(_) => Tier::Persistent,
            DataKey::Lock => Tier::Temporary,
        }
    }
}

/// What a store holds, as mathematics: the model that every contract of this
/// crate is stated over.
#[verifier::ext_equal]
pub struct StoreView {
    /// The admin identity, once initialized.
    pub admin: Option<Identity>,
    /// The fee rate in basis points, once initialized.
    pub fee_bps: Option<u32>,
    /// The number of giveaways created so far; the last id handed out.
    pub giveaway_count: u64,
    /// The number of help requests created so far; the last id handed out.
    pub help_request_count: u64,
    /// The giveaways, by id.
    pub giveaways: Map<u64, Giveaway>,
    /// The pairs of giveaway id and identity that mark an entry.
    pub participants: Set<(u64, Identity)>,
    /// The help requests, by id.
    pub help_requests: Map<u64, HelpRequest>,
    /// Whether the reentrancy flag is present.
    pub locked: bool,
}

impl StoreView {
    /// The store that holds nothing.
    pub open spec fn empty() -> StoreView {
        StoreView {
            admin: None,
            fee_bps: None,
            giveaway_count: 0,
            help_request_count: 0,
            giveaways: Map::empty(),
            participants: Set::empty(),
            help_requests: Map::empty(),
            locked: false,
        }
    }

    /// Whether an entry is stored under `key`. A counter that was never
    /// written reads as zero and counts as absent.
    pub open spec fn has(self, key: DataKey) -> bool {
        match key {
            DataKey::Admin => self.admin.is_some(),
            DataKey::Fee => self.fee_bps.is_some(),
            DataKey::GiveawayCount => self.giveaway_count != 0,
            DataKey::HelpRequestCount => self.help_request_count != 0,
            DataKey::Giveaway(id) => self.giveaways.contains_key(id),
            DataKey::Participant(id, who) => self.participants.contains((id, who)),
            DataKey::HelpRequest(id) => self.help_requests.contains_key(id),
            DataKey::Lock => self.locked,
        }
    }

    /// This store with the reentrancy flag present or absent.
    pub open spec fn with_lock(self, locked: bool) -> StoreView {
        StoreView { locked, ..self }
    }

    /// The invariant of the data: every record is stored under its own id,
    /// ids come from the counters, every record is well formed, the fee rate
    /// is at most 100%, and only giveaways that exist have participants.
    pub open spec fn well_formed(self) -> bool {
        &&& self.admin.is_some() <==> self.fee_bps.is_some()
        &&& self.fee_bps matches Some(bps) ==> bps <= MAX_FEE_BPS
        &&& forall|id: u64| #[trigger]
            self.giveaways.contains_key(id) ==> {
                &&& 1 <= id <= self.giveaway_count
                &&& self.giveaways[id].id == id
                &&& self.giveaways[id].well_formed()
            }
        &&& forall|id: u64| #[trigger]
            self.help_requests.contains_key(id) ==> {
                &&& 1 <= id <= self.help_request_count
                &&& self.help_requests[id].id == id
                &&& self.help_requests[id].well_formed()
            }
        &&& forall|id: u64, who: Identity| #[trigger]
            self.participants.contains((id, who)) ==> self.giveaways.contains_key(id)
    }
}

/// The typed key-value store that the engines read and write: the admin
/// configuration, the counters, the records and the reentrancy flag.
#[derive(Clone, Debug, PartialEq, Eq)]
pub struct Store {
    admin: Option<Identity>,
    fee_bps: Option<u32>,
    giveaway_count: u64,
    help_request_count: u64,
    giveaways: HashMap<u64, Giveaway>,
    participants: Vec<(u64, Identity)>,
    help_requests: HashMap<u64, HelpRequest>,
    lock: bool,
}

impl View for Store {
    type V = StoreView;

    closed spec fn view(&self) -> StoreView {
        StoreView {
            admin: self.admin,
            fee_bps: self.fee_bps,
            giveaway_count: self.giveaway_count,
            help_request_count: self.help_request_count,
            giveaways: self.giveaways@,
            participants: self.participants@.to_set(),
            help_requests: self.help_requests@,
            locked: self.lock,
        }
    }
}

impl Store {
    /// A store that holds nothing.
    pub fn new() -> (store: Store)
        ensures
            store@ == StoreView::empty(),
    {
        let store = Store {
            admin: None,
            fee_bps: None,
            giveaway_count: 0,
            help_request_count: 0,
            giveaways: HashMap::new(),
            participants: Vec::new(),
            help_requests: HashMap::new(),
            lock: false,
        };
        store
    }

    /// Whether an entry is stored under `key`.
    pub fn has(&self, key: &DataKey) -> (present: bool)
        ensures
            present == self@.has(*key),
    {
        match *key {
            DataKey::Admin => self.admin.is_some(),
            DataKey::Fee => self.fee_bps.is_some(),
            DataKey::GiveawayCount => self.giveaway_count != 0,
            DataKey::HelpRequestCount => self.help_request_count != 0,
            DataKey::Giveaway(id) => self.giveaways.contains_key(&id),
            DataKey::Participant(id, who) => self.has_participant(id, who),
            DataKey::HelpRequest(id) => self.help_requests.contains_key(&id),
            DataKey::Lock => self.lock,
        }
    }

    /// The admin identity, if one is stored.
    pub fn admin(&self) -> (admin: Option<Identity>)
        ensures
            admin == self@.admin,
    {
        self.admin
    }

    /// Stores the admin identity.
    pub fn set_admin(&mut self, admin: Identity)
        ensures
            final(self)@ == (StoreView { admin: Some(admin), ..old(self)@ }),
    {
        self.admin = Some(admin);
    }

    /// The fee rate in basis points, if one is stored.
    pub fn fee_bps(&self) -> (fee_bps: Option<u32>)
        ensures
            fee_bps == self@.fee_bps,
    {
        self.fee_bps
    }

    /// Stores the fee rate.
    pub fn set_fee_bps(&mut self, fee_bps: u32)
        ensures
            final(self)@ == (StoreView { fee_bps: Some(fee_bps), ..old(self)@ }),
    {
        self.fee_bps = Some(fee_bps);
    }

    /// The number of giveaways created so far.
    pub fn giveaway_count(&self) -> (count: u64)
        ensures
            count == self@.giveaway_count,
    {
        self.giveaway_count
    }

    /// Stores the number of giveaways created so far.
    pub fn set_giveaway_count(&mut self, count: u64)
        ensures
            final(self)@ == (StoreView { giveaway_count: count, ..old(self)@ }),
    {
        self.giveaway_count = count;
    }

    /// The number of help requests created so far.
    pub fn help_request_count(&self) -> (count: u64)
        ensures
            count == self@.help_request_count,
    {
        self.help_request_count
    }

    /// Stores the number of help requests created so far.
    pub fn set_help_request_count(&mut self, count: u64)
        ensures
            final(self)@ == (StoreView { help_request_count: count, ..old(self)@ }),
    {
        self.help_request_count = count;
    }

    /// The giveaway stored under `id`, if there is one.
    pub fn giveaway(&self, id: u64) -> (found: Option<Giveaway>)
        ensures
            found == self@.giveaways.get(id),
    {
        match self.giveaways.get(&id) {
            Some(g) => Some(*g),
            None => None,
        }
    }

    /// Stores `giveaway` under `id`, in place of what was there.
    pub fn set_giveaway(&mut self, id: u64, giveaway: Giveaway)
        ensures
            final(self)@ == (StoreView {
                giveaways: old(self)@.giveaways.insert(id, giveaway),
                ..old(self)@
            }),
    {
        self.giveaways.insert(id, giveaway);
    }

    /// Whether `who` is marked as a participant of the giveaway `giveaway_id`.
    pub fn has_participant(&self, giveaway_id: u64, who: Identity) -> (present: bool)
        ensures
            present == self@.participants.contains((giveaway_id, who)),
    {
        let mut i: usize = 0;
        while i < self.participants.len()
            invariant
                i <= self.participants.len(),
                forall|j: int| 0 <= j < i ==> self.participants@[j] != (giveaway_id, who),
            decreases self.participants.len() - i,
        {
            let entry = self.participants[i];
            if entry.0 == giveaway_id && entry.1 == who {
                return true;
            }
            i += 1;
        }
        false
    }

    /// Marks `who` as a participant of the giveaway `giveaway_id`. A mark that
    /// is there already stays as it is.
    pub fn add_participant(&mut self, giveaway_id: u64, who: Identity)
        ensures
            final(self)@ == (StoreView {
                participants: old(self)@.participants.insert((giveaway_id, who)),
                ..old(self)@
            }),
    {
        if !self.has_participant(giveaway_id, who) {
            self.participants.push((giveaway_id, who));
            proof {
                old(self).participants@.lemma_push_to_set_commute((giveaway_id, who));
            }
        }
    }

    /// The help request stored under `id`, if there is one.
    pub fn help_request(&self, id: u64) -> (found: Option<HelpRequest>)
        ensures
            found == self@.help_requests.get(id),
    {
        match self.help_requests.get(&id) {
            Some(r) => Some(*r),
            None => None,
        }
    }

    /// Stores `request` under `id`, in place of what was there.
    pub fn set_help_request(&mut self, id: u64, request: HelpRequest)
        ensures
            final(self)@ == (StoreView {
                help_requests: old(self)@.help_requests.insert(id, request),
                ..old(self)@
            }),
    {
        self.help_requests.insert(id, request);
    }

    /// Whether the reentrancy flag is present.
    pub fn is_locked(&self) -> (locked: bool)
        ensures
            locked == self@.locked,
    {
        self.lock
    }

    /// Sets the reentrancy flag.
    pub fn set_lock(&mut self)
        ensures
            final(self)@ == old(self)@.with_lock(true),
    {
        self.lock = true;
    }

    /// Removes the reentrancy flag.
    pub fn clear_lock(&mut self)
        ensures
            final(self)@ == old(self)@.with_lock(false),
    {
        self.lock = false;
    }
}

} // verus!
