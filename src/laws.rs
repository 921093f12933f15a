//! Properties of the farm that relate several operations.
use vstd::prelude::*;
use crate::digest::{digest_of, zero_run};
use crate::farm::FarmView;
use crate::ledger::unplanted_record;

verus! {

/// One call into the farm, with the values the host supplied to it.
pub ghost enum FarmOp {
    Initialize,
    Plant { farmer: u64, stake_amount: i128, now: u64 },
    Work { farmer: u64, nonce: u64, zeros: u32, entropy: u64 },
    Harvest { farmer: u64, now: u64 },
}

/// The state after one call.
pub open spec fn apply(s: FarmView, op: FarmOp) -> FarmView {
    match op {
        FarmOp::Initialize => s.initialize(),
        FarmOp::Plant { farmer, stake_amount, now } => s.plant(farmer, stake_amount, now),
        FarmOp::Work { farmer, nonce, zeros, entropy } => s.work(farmer, nonce, zeros, entropy).0,
        FarmOp::Harvest { farmer, now } => s.harvest(farmer, now).0,
    }
}

/// The state after a sequence of calls, in order.
pub open spec fn run(s: FarmView, ops: Seq<FarmOp>) -> FarmView
    decreases ops.len(),
{
    if ops.len() == 0 {
        s
    } else {
        apply(run(s, ops.drop_last()), ops.last())
    }
}

/// Whether `op` plants for `farmer`.
pub open spec fn plants_for(op: FarmOp, farmer: u64) -> bool {
    match op {
        FarmOp::Plant { farmer: f, .. } => f == farmer,
        _ => false,
    }
}

/// A participant that no call planted for has the unplanted status
/// `(false, false, false)`, a zero balance and zero lifetime earnings,
/// whatever else happened on the farm.
pub proof fn lemma_never_planted(ops: Seq<FarmOp>, farmer: u64)
    requires
        forall|i: int| 0 <= i < ops.len() ==> !plants_for(#[trigger] ops[i], farmer),
    ensures
        !run(FarmView::empty(), ops).farmers.contains_key(farmer),
        run(FarmView::empty(), ops).record_of(farmer) == unplanted_record(farmer),
        run(FarmView::empty(), ops).record_of(farmer).status() == (false, false, false),
        run(FarmView::empty(), ops).record_of(farmer).kale_balance == 0,
        run(FarmView::empty(), ops).record_of(farmer).total_earned == 0,
    decreases ops.len(),
{
    if ops.len() > 0 {
        let init = ops.drop_last();
        assert forall|i: int| 0 <= i < init.len() implies !plants_for(#[trigger] init[i], farmer) by {
            assert(init[i] == ops[i]);
        }
        lemma_never_planted(init, farmer);
        assert(!plants_for(ops[ops.len() - 1], farmer));
    }
}

/// Plant calls as `(farmer, stake_amount, now)`.
pub open spec fn plant_all(s: FarmView, calls: Seq<(u64, i128, u64)>) -> FarmView
    decreases calls.len(),
{
    if calls.len() == 0 {
        s
    } else {
        let c = calls.last();
        plant_all(s, calls.drop_last()).plant(c.0, c.1, c.2)
    }
}

/// The sum of the stakes of a sequence of plant calls.
pub open spec fn stake_sum(calls: Seq<(u64, i128, u64)>) -> int
    decreases calls.len(),
{
    if calls.len() == 0 {
        0
    } else {
        stake_sum(calls.drop_last()) + calls.last().1
    }
}

/// From zeroed counters, `n` plant calls leave the session counter at `n`,
/// the `i`-th call (from 0) returns session `i + 1` and files its record
/// under it, and the total stake is the sum of the stakes.
pub proof fn lemma_plant_sequence(s: FarmView, calls: Seq<(u64, i128, u64)>)
    requires
        s.farm_index == 0,
        s.total_kale == 0,
    ensures
        plant_all(s, calls).farm_index == calls.len(),
        plant_all(s, calls).total_kale == stake_sum(calls),
        forall|i: int|
            0 <= i < calls.len() ==> #[trigger] plant_all(s, calls.take(i + 1)).farm_index == i
                + 1,
        forall|i: int|
            0 <= i < calls.len() && calls.len() <= u32::MAX ==> #[trigger] plant_all(
                s,
                calls.take(i + 1),
            ).farmers[calls[i].0].farm_index == i + 1,
    decreases calls.len(),
{
    if calls.len() > 0 {
        let init = calls.drop_last();
        lemma_plant_sequence(s, init);
        assert forall|i: int| 0 <= i < calls.len() implies #[trigger] plant_all(
            s,
            calls.take(i + 1),
        ).farm_index == i + 1 && (calls.len() <= u32::MAX ==> plant_all(
            s,
            calls.take(i + 1),
        ).farmers[calls[i].0].farm_index == i + 1) by {
            if i < calls.len() - 1 {
                assert(calls.take(i + 1) =~= init.take(i + 1));
                assert(calls[i] == init[i]);
            } else {
                assert(calls.take(i + 1) =~= calls);
                assert(calls.drop_last() =~= init);
                assert(calls.last() == calls[i]);
                assert(plant_all(s, init).farm_index == init.len());
            }
        }
        assert forall|i: int|
            0 <= i < calls.len() && calls.len() <= u32::MAX implies #[trigger] plant_all(
            s,
            calls.take(i + 1),
        ).farmers[calls[i].0].farm_index == i + 1 by {
            assert(plant_all(s, calls.take(i + 1)).farm_index == i + 1);
        }
    }
}

/// A work attempt right after planting at a time after zero, whose digest
/// has a zero run of at least the claimed quality, succeeds and leaves the
/// participant planted and worked but not harvested.
pub proof fn lemma_plant_then_work(
    s: FarmView,
    farmer: u64,
    stake_amount: i128,
    now: u64,
    nonce: u64,
    zeros: u32,
    entropy: u64,
)
    requires
        s.farm_index < u32::MAX,
        now > 0,
        zero_run(digest_of((s.farm_index + 1) as u32, nonce, entropy)) >= zeros,
    ensures
        s.plant(farmer, stake_amount, now).work(farmer, nonce, zeros, entropy).1,
        s.plant(farmer, stake_amount, now).work(farmer, nonce, zeros, entropy).0.record_of(
            farmer,
        ).status() == (true, true, false),
{
}

/// After planting at `now` and a successful work step claiming `zeros`, a
/// harvest `t` seconds later pays exactly `1000 + 100 * zeros + t / 60`,
/// and the balance and the lifetime earnings both equal that reward.
pub proof fn lemma_harvest_reward(
    s: FarmView,
    farmer: u64,
    stake_amount: i128,
    now: u64,
    nonce: u64,
    zeros: u32,
    entropy: u64,
    t: u64,
)
    requires
        s.plant(farmer, stake_amount, now).work(farmer, nonce, zeros, entropy).1,
        now + t <= u64::MAX,
    ensures
        ({
            let worked = s.plant(farmer, stake_amount, now).work(farmer, nonce, zeros, entropy).0;
            let (harvested, reward) = worked.harvest(farmer, (now + t) as u64);
            &&& reward == 1000 + 100 * zeros + t / 60
            &&& harvested.record_of(farmer).kale_balance == reward
            &&& harvested.record_of(farmer).total_earned == reward
        }),
{
    let worked = s.plant(farmer, stake_amount, now).work(farmer, nonce, zeros, entropy).0;
    let reward = worked.harvest(farmer, (now + t) as u64).1;
    assert(0 < reward < 0x1_0000_0000_0000_0000_0000);
}

/// Once a work step succeeded, a second one on the same participant fails
/// and changes nothing, so the recorded nonce and quality stay.
pub proof fn lemma_work_twice(
    s: FarmView,
    farmer: u64,
    nonce: u64,
    zeros: u32,
    entropy: u64,
    nonce2: u64,
    zeros2: u32,
    entropy2: u64,
)
    requires
        s.work(farmer, nonce, zeros, entropy).1,
    ensures
        ({
            let first = s.work(farmer, nonce, zeros, entropy).0;
            let (second, ok) = first.work(farmer, nonce2, zeros2, entropy2);
            &&& !ok
            &&& second == first
            &&& second.farmers[farmer].nonce == nonce
            &&& second.farmers[farmer].zeros == zeros
        }),
{
}

/// A second harvest pays 0 and changes nothing, so the balance stays.
pub proof fn lemma_harvest_twice(s: FarmView, farmer: u64, now: u64, now2: u64)
    ensures
        ({
            let first = s.harvest(farmer, now).0;
            let (second, reward) = first.harvest(farmer, now2);
            &&& reward == 0
            &&& second == first
            &&& second.record_of(farmer).kale_balance == first.record_of(farmer).kale_balance
        }),
{
}

} // verus!
