//! The orchestrator: one tick advances the world by one year.

use crate::aging::{simulate_aging, spec_aged};
use crate::mate::{simulate_finding_mate, spec_apply_mates, spec_mate_pairs};
use crate::world::SimulationData;
use vstd::prelude::*;

verus! {

/// Advances the world by a year and simulates everything that happened: the
/// mating pass runs first and commits its relations, then the aging pass
/// commits stage transitions and deaths, then the date advances by exactly
/// one year. Mating is evaluated against each character's pre-aging life
/// stage: a character cannot both grow into a reproduction-capable stage and
/// be matched within the same tick.
pub fn simulate_year(data: &mut SimulationData)
    requires
        old(data).wf(),
        old(data).date@ < u32::MAX,
    ensures
        final(data).race_manager == old(data).race_manager,
        final(data).date@ == old(data).date@ + 1,
        final(data).relation_manager@ == spec_apply_mates(
            old(data).relation_manager@,
            spec_mate_pairs(*old(data)),
        ),
        final(data).character_manager@.len() == old(data).character_manager@.len(),
        forall|i: int|
            0 <= i < old(data).character_manager@.len()
                ==> (#[trigger] final(data).character_manager@[i])@ == spec_aged(
                old(data).character_manager@[i]@,
                old(data).race_manager@[old(data).character_manager@[i]@.race_id as int]@.stages,
                old(data).date@,
            ),
        final(data).wf(),
{
    simulate_finding_mate(data);
    simulate_aging(data);
    data.date.increase_year();
    proof {
        assert(data.wf());
    }
}

} // verus!
