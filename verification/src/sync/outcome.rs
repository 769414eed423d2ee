//! What a reconciliation does to the two snapshots once its commands are
//! carried out.

use crate::keyed::upsert;
use crate::sync::entity::SyncEntity;
use crate::sync::reconcile::{Side, SyncPlan, SyncStep};
use crate::sync::snapshot::Snapshot;
use vstd::prelude::*;

verus! {

/// The records of the side `side` after `step` has been carried out: the
/// payload is stored there if the command writes to that side.
pub open spec fn apply_step<E: SyncEntity>(
    records: Seq<E::V>,
    step: SyncStep<E::V>,
    side: Side,
) -> Seq<E::V> {
    if step.side() == side {
        upsert::<E>(records, step.payload())
    } else {
        records
    }
}

/// The records of the side `side` after all of `steps` have been carried
/// out, in order.
pub open spec fn after_steps<E: SyncEntity>(
    records: Seq<E::V>,
    steps: Seq<SyncStep<E::V>>,
    side: Side,
) -> Seq<E::V>
    decreases steps.len(),
{
    if steps.len() == 0 {
        records
    } else {
        apply_step::<E>(after_steps::<E>(records, steps.drop_last(), side), steps.last(), side)
    }
}

impl<E: SyncEntity> SyncPlan<E> {
    /// Carries the commands out on two snapshots held in memory: each
    /// command stores its record on the side it writes to.
    pub fn carry_out(&self, local: &mut Snapshot<E>, remote: &mut Snapshot<E>)
        ensures
            final(local)@ == after_steps::<E>(old(local)@, self@, Side::Local),
            final(remote)@ == after_steps::<E>(old(remote)@, self@, Side::Remote),
    {
        let mut i: usize = 0;
        assert(self@.take(0) =~= Seq::empty());
        while i < self.steps.len()
            invariant
                i <= self.steps.len(),
                self@.len() == self.steps.len(),
                local@ == after_steps::<E>(old(local)@, self@.take(i as int), Side::Local),
                remote@ == after_steps::<E>(old(remote)@, self@.take(i as int), Side::Remote),
            decreases self.steps.len() - i,
        {
            assert(self@.take(i + 1).drop_last() =~= self@.take(i as int));
            assert(self@.take(i + 1).last() == self.steps[i as int]@);
            let step = &self.steps[i];
            match step.target() {
                Side::Local => local.store(step.record().duplicate()),
                Side::Remote => remote.store(step.record().duplicate()),
            }
            i += 1;
        }
        assert(self@.take(self@.len() as int) =~= self@);
    }
}

} // verus!
