//! Per-participant farming records and the keyed store that holds them.
use std::collections::HashMap;
use vstd::prelude::*;
use vstd::std_specs::hash::group_hash_axioms;

verus! {

broadcast use group_hash_axioms;

/// One participant's farming record.
#[derive(Clone, Copy, Debug, PartialEq, Eq, Structural)]
pub struct Farmer {
    /// The participant this record belongs to.
    pub address: u64,
    /// Reward credited to the participant.
    pub kale_balance: i128,
    /// Lifetime reward sum.
    pub total_earned: i128,
    /// Session index assigned when the participant planted.
    pub farm_index: u32,
    /// Time of planting; zero means not planted.
    pub planted_at: u64,
    pub worked: bool,
    pub harvested: bool,
    /// Proof-of-work solution recorded by a successful work step.
    pub nonce: u64,
    /// Work quality claimed by a successful work step.
    pub zeros: u32,
}

/// The record of a participant that never planted.
pub open spec fn unplanted_record(address: u64) -> Farmer {
    Farmer {
        address,
        kale_balance: 0,
        total_earned: 0,
        farm_index: 0,
        planted_at: 0,
        worked: false,
        harvested: false,
        nonce: 0,
        zeros: 0,
    }
}

/// The fresh record written when a participant plants.
pub open spec fn planted_record(address: u64, farm_index: u32, now: u64) -> Farmer {
    Farmer { farm_index, planted_at: now, ..unplanted_record(address) }
}

impl Farmer {
    /// Balance and lifetime earnings agree, nothing is credited before the
    /// harvest, and a harvest only follows work.
    pub open spec fn wf(self) -> bool {
        &&& self.kale_balance == self.total_earned
        &&& !self.harvested ==> self.kale_balance == 0
        &&& self.harvested ==> self.worked
        &&& self.kale_balance >= 0
    }

    /// `(planted, worked, harvested)`.
    pub open spec fn status(self) -> (bool, bool, bool) {
        (self.planted_at > 0, self.worked, self.harvested)
    }

    /// Tells whether the record is well formed (see `wf`).
    pub fn is_consistent(&self) -> (r: bool)
        ensures
            r == self.wf(),
    {
        self.kale_balance == self.total_earned && (self.harvested || self.kale_balance == 0)
            && (!self.harvested || self.worked) && self.kale_balance >= 0
    }

    pub fn unplanted(address: u64) -> (r: Farmer)
        ensures
            r == unplanted_record(address),
    {
        Farmer {
            address,
            kale_balance: 0,
            total_earned: 0,
            farm_index: 0,
            planted_at: 0,
            worked: false,
            harvested: false,
            nonce: 0,
            zeros: 0,
        }
    }

    pub fn planted(address: u64, farm_index: u32, now: u64) -> (r: Farmer)
        ensures
            r == planted_record(address, farm_index, now),
            r.wf(),
    {
        Farmer { farm_index, planted_at: now, ..Farmer::unplanted(address) }
    }
}

/// Records keyed by participant.
pub struct FarmerLedger {
    records: HashMap<u64, Farmer>,
}

impl View for FarmerLedger {
    type V = Map<u64, Farmer>;

    closed spec fn view(&self) -> Map<u64, Farmer> {
        self.records@
    }
}

/// The stored record of `address`, or the unplanted record when none is stored.
pub open spec fn record_or_default(m: Map<u64, Farmer>, address: u64) -> Farmer {
    if m.contains_key(address) {
        m[address]
    } else {
        unplanted_record(address)
    }
}

impl FarmerLedger {
    pub fn new() -> (r: FarmerLedger)
        ensures
            r@ == Map::<u64, Farmer>::empty(),
    {
        FarmerLedger { records: HashMap::new() }
    }

    /// The stored record of `address`, if any.
    pub fn get(&self, address: u64) -> (r: Option<Farmer>)
        ensures
            r == (if self@.contains_key(address) {
                Some(self@[address])
            } else {
                None::<Farmer>
            }),
    {
        match self.records.get(&address) {
            Some(f) => Some(*f),
            None => None,
        }
    }

    /// The stored record of `address`, or the unplanted record.
    pub fn get_or_default(&self, address: u64) -> (r: Farmer)
        ensures
            r == record_or_default(self@, address),
    {
        match self.get(address) {
            Some(f) => f,
            None => Farmer::unplanted(address),
        }
    }

    /// Stores `record` under `address`, replacing any earlier record.
    pub fn put(&mut self, address: u64, record: Farmer)
        ensures
            final(self)@ == old(self)@.insert(address, record),
    {
        self.records.insert(address, record);
    }
}

} // verus!
