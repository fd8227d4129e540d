//! The idle sweep: of all torrents in the registry, those that are complete
//! and still seeding are stopped. Nothing else is touched.

use crate::snapshot::Snapshot;
use vstd::prelude::*;

verus! {

/// The time between two sweeps, in milliseconds.
pub const SWEEP_INTERVAL_MILLIS: u64 = 1000;

/// The IDs of the torrents to stop, given one reading of each torrent in
/// the registry: those of the readings that are complete and seeding, in
/// the order of the readings.
pub open spec fn stop_targets(readings: Seq<Snapshot>) -> Seq<i32>
    decreases readings.len(),
{
    if readings.len() == 0 {
        Seq::empty()
    } else if readings.last().is_idle_seeder() {
        stop_targets(readings.drop_last()).push(readings.last().id)
    } else {
        stop_targets(readings.drop_last())
    }
}

/// Plans one sweep: returns the IDs of the torrents to stop. The caller
/// issues one stop command for each, and goes on where a command fails.
pub fn seed_buster(readings: &Vec<Snapshot>) -> (targets: Vec<i32>)
    ensures
        targets@ == stop_targets(readings@),
{
    let mut targets: Vec<i32> = Vec::new();
    let mut i: usize = 0;
    while i < readings.len()
        invariant
            i <= readings.len(),
            targets@ == stop_targets(readings@.take(i as int)),
        decreases readings.len() - i,
    {
        proof {
            assert(readings@.take(i + 1).drop_last() =~= readings@.take(i as int));
        }
        if readings[i].idle_seeder() {
            targets.push(readings[i].id);
        }
        i += 1;
    }
    proof {
        assert(readings@.take(i as int) =~= readings@);
    }
    targets
}

/// A torrent is stopped by a sweep exactly where one of its readings is
/// complete and seeding.
pub proof fn lemma_stop_targets_are_idle_seeders(readings: Seq<Snapshot>, id: i32)
    ensures
        stop_targets(readings).contains(id) <==> exists|i: int|
            0 <= i < readings.len() && #[trigger] readings[i].id == id
                && readings[i].is_idle_seeder(),
    decreases readings.len(),
{
    if readings.len() > 0 {
        let earlier = readings.drop_last();
        lemma_stop_targets_are_idle_seeders(earlier, id);
        let last = readings.last();
        if stop_targets(readings).contains(id) {
            if !(last.is_idle_seeder() && last.id == id) {
                if last.is_idle_seeder() {
                    let k = choose|k: int|
                        0 <= k < stop_targets(readings).len() && stop_targets(readings)[k] == id;
                    assert(stop_targets(earlier)[k] == id);
                }
                assert(stop_targets(earlier).contains(id));
            }
        }
        if exists|i: int|
            0 <= i < readings.len() && #[trigger] readings[i].id == id
                && readings[i].is_idle_seeder() {
            let i = choose|i: int|
                0 <= i < readings.len() && #[trigger] readings[i].id == id
                    && readings[i].is_idle_seeder();
            if i < earlier.len() {
                assert(earlier[i].id == id);
                assert(stop_targets(earlier).contains(id));
                let k = choose|k: int|
                    0 <= k < stop_targets(earlier).len() && stop_targets(earlier)[k] == id;
                assert(stop_targets(readings)[k] == id);
            } else {
                assert(stop_targets(readings)[stop_targets(readings).len() - 1] == id);
            }
        }
    }
}

/// A torrent that is not seeding, one that is already stopped among them,
/// is never stopped by a sweep, however often it is scanned.
pub proof fn lemma_stopped_torrent_is_left_alone(readings: Seq<Snapshot>, id: i32)
    requires
        forall|i: int|
            0 <= i < readings.len() && #[trigger] readings[i].id == id
                ==> !readings[i].state.is_seeding(),
    ensures
        !stop_targets(readings).contains(id),
{
    lemma_stop_targets_are_idle_seeders(readings, id);
}

} // verus!
