//! The plant → work → harvest state machine and its two global counters.
use vstd::prelude::*;
use crate::digest::{count_leading_zeros, digest_of, generate_hash, zero_run};
use crate::ledger::{planted_record, record_or_default, Farmer, FarmerLedger};
use crate::reward::{compute_reward, reward_of};

verus! {

/// The abstract state of a farm: the session counter, the total stake and
/// the record of each participant that planted.
pub ghost struct FarmView {
    pub farm_index: nat,
    pub total_kale: int,
    pub farmers: Map<u64, Farmer>,
}

impl FarmView {
    /// The state of a farm that nobody used yet.
    pub open spec fn empty() -> FarmView {
        FarmView { farm_index: 0, total_kale: 0, farmers: Map::empty() }
    }

    /// Every stored record is filed under its own participant and is well formed.
    pub open spec fn wf(self) -> bool {
        forall|a: u64| #[trigger]
            self.farmers.contains_key(a) ==> self.farmers[a].address == a
                && self.farmers[a].wf()
    }

    pub open spec fn record_of(self, farmer: u64) -> Farmer {
        record_or_default(self.farmers, farmer)
    }

    /// Whether a plant step keeps both counters within their machine types.
    pub open spec fn can_plant(self, stake_amount: i128) -> bool {
        &&& self.farm_index < u32::MAX
        &&& i128::MIN <= self.total_kale + stake_amount <= i128::MAX
    }

    /// Both counters set back to zero; the records stay.
    pub open spec fn initialize(self) -> FarmView {
        FarmView { farm_index: 0, total_kale: 0, ..self }
    }

    /// A new session for `farmer`: the counter advances, the stake is added,
    /// and a fresh record replaces any earlier one.
    pub open spec fn plant(self, farmer: u64, stake_amount: i128, now: u64) -> FarmView {
        FarmView {
            farm_index: self.farm_index + 1,
            total_kale: self.total_kale + stake_amount,
            farmers: self.farmers.insert(
                farmer,
                planted_record(farmer, (self.farm_index + 1) as u32, now),
            ),
        }
    }

    /// A work attempt: it succeeds on a planted, not yet worked record whose
    /// digest has a zero run of at least `zeros`, and then records the
    /// claimed solution.
    pub open spec fn work(self, farmer: u64, nonce: u64, zeros: u32, entropy: u64) -> (
        FarmView,
        bool,
    ) {
        let f = self.farmers[farmer];
        if !self.farmers.contains_key(farmer) || f.worked {
            (self, false)
        } else if zero_run(digest_of(f.farm_index, nonce, entropy)) >= zeros {
            (
                FarmView {
                    farmers: self.farmers.insert(
                        farmer,
                        Farmer { worked: true, nonce, zeros, ..f },
                    ),
                    ..self
                },
                true,
            )
        } else {
            (self, false)
        }
    }

    /// The time a harvest at `now` counts from planting; a clock that went
    /// back counts as no time at all.
    pub open spec fn harvest_time(planted_at: u64, now: u64) -> u64 {
        if now >= planted_at {
            now
        } else {
            planted_at
        }
    }

    /// A harvest: it pays on a worked, not yet harvested record, credits the
    /// reward to balance and lifetime earnings, and marks the record.
    pub open spec fn harvest(self, farmer: u64, now: u64) -> (FarmView, int) {
        let f = self.record_of(farmer);
        if f.harvested || !f.worked {
            (self, 0)
        } else {
            let reward = reward_of(f.zeros, f.planted_at, FarmView::harvest_time(f.planted_at, now));
            (
                FarmView {
                    farmers: self.farmers.insert(
                        farmer,
                        Farmer {
                            kale_balance: (f.kale_balance + reward) as i128,
                            total_earned: (f.total_earned + reward) as i128,
                            harvested: true,
                            ..f
                        },
                    ),
                    ..self
                },
                reward,
            )
        }
    }
}

/// The farm: a session counter, the total stake and the participants' records.
pub struct KaleFarmContract {
    farm_index: u32,
    total_kale: i128,
    farmers: FarmerLedger,
}

impl View for KaleFarmContract {
    type V = FarmView;

    closed spec fn view(&self) -> FarmView {
        FarmView {
            farm_index: self.farm_index as nat,
            total_kale: self.total_kale as int,
            farmers: self.farmers@,
        }
    }
}

impl KaleFarmContract {
    pub open spec fn wf(&self) -> bool {
        self@.wf()
    }

    /// A farm with both counters at zero and no records.
    pub fn new() -> (r: KaleFarmContract)
        ensures
            r@ == FarmView::empty(),
            r.wf(),
    {
        KaleFarmContract { farm_index: 0, total_kale: 0, farmers: FarmerLedger::new() }
    }

    /// A farm rebuilt from counters and records kept elsewhere.
    pub fn restore(farm_index: u32, total_kale: i128, farmers: FarmerLedger) -> (r:
        KaleFarmContract)
        ensures
            r@ == (FarmView {
                farm_index: farm_index as nat,
                total_kale: total_kale as int,
                farmers: farmers@,
            }),
    {
        KaleFarmContract { farm_index, total_kale, farmers }
    }

    /// The stored record of `farmer`, if any.
    pub fn record(&self, farmer: u64) -> (r: Option<Farmer>)
        ensures
            r == (if self@.farmers.contains_key(farmer) {
                Some(self@.farmers[farmer])
            } else {
                None::<Farmer>
            }),
    {
        self.farmers.get(farmer)
    }

    /// Sets the session counter and the total stake to zero.
    pub fn initialize(&mut self)
        ensures
            final(self)@ == old(self)@.initialize(),
            old(self).wf() ==> final(self).wf(),
    {
        self.farm_index = 0;
        self.total_kale = 0;
        assert(self@.farmers == old(self)@.farmers);
    }

    /// Starts a session for `farmer` at time `now` with `stake_amount`, and
    /// returns the new session index.
    pub fn plant(&mut self, farmer: u64, stake_amount: i128, now: u64) -> (r: u32)
        requires
            old(self)@.can_plant(stake_amount),
        ensures
            final(self)@ == old(self)@.plant(farmer, stake_amount, now),
            r as nat == final(self)@.farm_index,
            r as nat == old(self)@.farm_index + 1,
            old(self).wf() ==> final(self).wf(),
    {
        self.farm_index = self.farm_index + 1;
        let farmer_data = Farmer::planted(farmer, self.farm_index, now);
        self.farmers.put(farmer, farmer_data);
        self.total_kale = self.total_kale + stake_amount;
        self.farm_index
    }

    /// Checks `farmer`'s proof of work for `nonce` against the claimed
    /// quality `zeros`, with `entropy` supplied by the host.
    pub fn work(&mut self, farmer: u64, nonce: u64, zeros: u32, entropy: u64) -> (r: bool)
        requires
            old(self)@.farmers.contains_key(farmer),
        ensures
            (final(self)@, r) == old(self)@.work(farmer, nonce, zeros, entropy),
            old(self).wf() ==> final(self).wf(),
    {
        let farmer_data = match self.farmers.get(farmer) {
            Some(f) => f,
            None => {
                return false;
            },
        };
        if farmer_data.worked {
            return false;
        }
        let hash = generate_hash(farmer_data.farm_index, nonce, entropy, farmer);
        let calculated_zeros = count_leading_zeros(&hash);
        if calculated_zeros >= zeros {
            let updated = Farmer { worked: true, nonce, zeros, ..farmer_data };
            self.farmers.put(farmer, updated);
            true
        } else {
            false
        }
    }

    /// Pays `farmer` for a worked session harvested at `now`, and returns the
    /// reward, or 0 when there is nothing to pay. `farm_index` is accepted
    /// and not compared with the stored session.
    #[allow(unused_variables)]
    pub fn harvest(&mut self, farmer: u64, farm_index: u32, now: u64) -> (r: i128)
        requires
            old(self).wf(),
        ensures
            (final(self)@, r as int) == old(self)@.harvest(farmer, now),
            final(self).wf(),
    {
        let farmer_data = self.farmers.get_or_default(farmer);
        if farmer_data.harvested || !farmer_data.worked {
            return 0;
        }
        assert(self@.farmers.contains_key(farmer));
        assert(farmer_data.wf());
        let harvest_time = if now >= farmer_data.planted_at {
            now
        } else {
            farmer_data.planted_at
        };
        let total_reward = compute_reward(farmer_data.zeros, farmer_data.planted_at, harvest_time);
        let updated = Farmer {
            kale_balance: farmer_data.kale_balance + total_reward,
            total_earned: farmer_data.total_earned + total_reward,
            harvested: true,
            ..farmer_data
        };
        self.farmers.put(farmer, updated);
        total_reward
    }

    /// The balance of `farmer`, 0 for one that never planted.
    pub fn get_kale_balance(&self, farmer: u64) -> (r: i128)
        ensures
            r == self@.record_of(farmer).kale_balance,
    {
        self.farmers.get_or_default(farmer).kale_balance
    }

    /// The lifetime earnings of `farmer`, 0 for one that never planted.
    pub fn get_total_earned(&self, farmer: u64) -> (r: i128)
        ensures
            r == self@.record_of(farmer).total_earned,
    {
        self.farmers.get_or_default(farmer).total_earned
    }

    /// `(planted, worked, harvested)` for `farmer`.
    pub fn get_farmer_status(&self, farmer: u64) -> (r: (bool, bool, bool))
        ensures
            r == self@.record_of(farmer).status(),
    {
        let farmer_data = self.farmers.get_or_default(farmer);
        (farmer_data.planted_at > 0, farmer_data.worked, farmer_data.harvested)
    }

    /// The sum of all stakes planted since the last initialization.
    pub fn get_total_kale(&self) -> (r: i128)
        ensures
            r as int == self@.total_kale,
    {
        self.total_kale
    }

    /// The index of the latest session.
    pub fn get_farm_index(&self) -> (r: u32)
        ensures
            r as nat == self@.farm_index,
    {
        self.farm_index
    }
}

} // verus!
