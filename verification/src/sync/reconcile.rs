//! The entity reconciler: from the two snapshots of one collection to the
//! commands that bring both sides to the same records.

use crate::keyed::{has_id, lookup};
use crate::sync::entity::SyncEntity;
use crate::sync::snapshot::Snapshot;
use vstd::prelude::*;

verus! {

/// The side that a command is carried out on.
#[derive(Clone, Copy, Debug, PartialEq, Eq, Structural)]
pub enum Side {
    /// The local store.
    Local,
    /// The remote peer.
    Remote,
}

/// One command of a reconciliation, carrying the record to write.
#[derive(Debug)]
pub enum SyncStep<T> {
    /// The remote copy is newer: overwrite the local copy with it.
    UpdateLocal(T),
    /// Both copies carry the same timestamp and differ: the remote copy wins
    /// and overwrites the local one.
    ResolveConflict(T),
    /// Only the remote side has the record: create it locally.
    CreateLocal(T),
    /// The local copy is newer: upload it over the remote copy.
    UpdateRemote(T),
    /// Only the local side has the record: upload it as a new one.
    CreateRemote(T),
}

impl<T> SyncStep<T> {
    /// The record that the command writes.
    pub open spec fn payload(self) -> T {
        match self {
            SyncStep::UpdateLocal(t) => t,
            SyncStep::ResolveConflict(t) => t,
            SyncStep::CreateLocal(t) => t,
            SyncStep::UpdateRemote(t) => t,
            SyncStep::CreateRemote(t) => t,
        }
    }

    /// The side that the command writes to.
    pub open spec fn side(self) -> Side {
        if self is UpdateRemote || self is CreateRemote {
            Side::Remote
        } else {
            Side::Local
        }
    }

    /// The command settles a conflict.
    pub open spec fn settles_conflict(self) -> bool {
        self is ResolveConflict
    }

    /// The record that the command writes.
    pub fn record(&self) -> (t: &T)
        ensures
            *t == self.payload(),
    {
        match self {
            SyncStep::UpdateLocal(t) => t,
            SyncStep::ResolveConflict(t) => t,
            SyncStep::CreateLocal(t) => t,
            SyncStep::UpdateRemote(t) => t,
            SyncStep::CreateRemote(t) => t,
        }
    }

    /// The side that the command writes to: the local store, or the remote
    /// peer.
    pub fn target(&self) -> (side: Side)
        ensures
            side == self.side(),
    {
        match self {
            SyncStep::UpdateLocal(_) => Side::Local,
            SyncStep::ResolveConflict(_) => Side::Local,
            SyncStep::CreateLocal(_) => Side::Local,
            SyncStep::UpdateRemote(_) => Side::Remote,
            SyncStep::CreateRemote(_) => Side::Remote,
        }
    }

    /// Whether the command settles a conflict.
    pub fn is_conflict(&self) -> (conflict: bool)
        ensures
            conflict == self.settles_conflict(),
    {
        match self {
            SyncStep::ResolveConflict(_) => true,
            _ => false,
        }
    }
}

impl<E: SyncEntity> View for SyncStep<E> {
    type V = SyncStep<E::V>;

    open spec fn view(&self) -> SyncStep<E::V> {
        match *self {
            SyncStep::UpdateLocal(e) => SyncStep::UpdateLocal(e@),
            SyncStep::ResolveConflict(e) => SyncStep::ResolveConflict(e@),
            SyncStep::CreateLocal(e) => SyncStep::CreateLocal(e@),
            SyncStep::UpdateRemote(e) => SyncStep::UpdateRemote(e@),
            SyncStep::CreateRemote(e) => SyncStep::CreateRemote(e@),
        }
    }
}

/// What one identifier needs, given the copy that each side holds of it.
///
/// A record on one side only is created on the other. Of two copies the one
/// with the later timestamp overwrites the other. With equal timestamps,
/// equal copies need nothing, and differing copies are a conflict, which the
/// remote copy wins.
pub open spec fn verdict<E: SyncEntity>(local: Option<E::V>, remote: Option<E::V>) -> Option<
    SyncStep<E::V>,
> {
    match (local, remote) {
        (None, None) => None,
        (Some(l), None) => Some(SyncStep::CreateRemote(l)),
        (None, Some(r)) => Some(SyncStep::CreateLocal(r)),
        (Some(l), Some(r)) => if E::modified_of(r).later_than(E::modified_of(l)) {
            Some(SyncStep::UpdateLocal(r))
        } else if E::modified_of(l).later_than(E::modified_of(r)) {
            Some(SyncStep::UpdateRemote(l))
        } else if l == r {
            None
        } else {
            Some(SyncStep::ResolveConflict(r))
        },
    }
}

/// The command, if any, for the remote record `r` against the local snapshot.
pub open spec fn remote_verdict<E: SyncEntity>(local: Seq<E::V>, r: E::V) -> Option<
    SyncStep<E::V>,
> {
    verdict::<E>(lookup::<E>(local, E::id_of(r)), Some(r))
}

/// The command, if any, for the local record `l` once the remote records have
/// been gone through: an upload if the remote snapshot lacks its identifier.
pub open spec fn local_verdict<E: SyncEntity>(remote: Seq<E::V>, l: E::V) -> Option<
    SyncStep<E::V>,
> {
    if has_id::<E>(remote, E::id_of(l)) {
        None
    } else {
        Some(SyncStep::CreateRemote(l))
    }
}

/// The sequence with the value of `step`, or the empty one.
pub open spec fn step_seq<T>(step: Option<SyncStep<T>>) -> Seq<SyncStep<T>> {
    match step {
        Some(s) => seq![s],
        None => Seq::empty(),
    }
}

/// The commands for the remote records, in the order of `remote`.
pub open spec fn remote_pass<E: SyncEntity>(local: Seq<E::V>, remote: Seq<E::V>) -> Seq<
    SyncStep<E::V>,
>
    decreases remote.len(),
{
    if remote.len() == 0 {
        Seq::empty()
    } else {
        remote_pass::<E>(local, remote.drop_last()) + step_seq(
            remote_verdict::<E>(local, remote.last()),
        )
    }
}

/// The uploads of the records of `local` that `remote` lacks, in the order
/// of `local`.
pub open spec fn local_pass<E: SyncEntity>(local: Seq<E::V>, remote: Seq<E::V>) -> Seq<
    SyncStep<E::V>,
>
    decreases local.len(),
{
    if local.len() == 0 {
        Seq::empty()
    } else {
        local_pass::<E>(local.drop_last(), remote) + step_seq(
            local_verdict::<E>(remote, local.last()),
        )
    }
}

/// The commands that reconcile the two snapshots: those for the remote
/// records, then the uploads of what only the local side has.
pub open spec fn sync_plan<E: SyncEntity>(local: Seq<E::V>, remote: Seq<E::V>) -> Seq<
    SyncStep<E::V>,
> {
    remote_pass::<E>(local, remote) + local_pass::<E>(local, remote)
}

/// How many of `steps` count as synced records: every command but the
/// settling of a conflict.
pub open spec fn synced_count<T>(steps: Seq<SyncStep<T>>) -> nat
    decreases steps.len(),
{
    if steps.len() == 0 {
        0
    } else {
        synced_count(steps.drop_last()) + if steps.last().settles_conflict() {
            0nat
        } else {
            1nat
        }
    }
}

/// How many of `steps` settle a conflict.
pub open spec fn conflict_count<T>(steps: Seq<SyncStep<T>>) -> nat
    decreases steps.len(),
{
    if steps.len() == 0 {
        0
    } else {
        conflict_count(steps.drop_last()) + if steps.last().settles_conflict() {
            1nat
        } else {
            0nat
        }
    }
}

/// The views of `steps`, in order.
pub open spec fn steps_view<E: SyncEntity>(steps: Seq<SyncStep<E>>) -> Seq<SyncStep<E::V>> {
    steps.map_values(|s: SyncStep<E>| s@)
}

/// The commands of one reconciliation, in the order in which they are to be
/// carried out.
pub struct SyncPlan<E: SyncEntity> {
    pub steps: Vec<SyncStep<E>>,
}

impl<E: SyncEntity> View for SyncPlan<E> {
    type V = Seq<SyncStep<E::V>>;

    open spec fn view(&self) -> Seq<SyncStep<E::V>> {
        steps_view::<E>(self.steps@)
    }
}

/// The counts of a reconciliation that was carried out in part or in whole.
#[derive(Clone, Copy, Debug, PartialEq, Eq, Structural)]
pub struct Tally {
    /// Records created or updated, on either side.
    pub synced: u32,
    /// Conflicts settled.
    pub conflicts: u32,
}

impl<E: SyncEntity> SyncPlan<E> {
    /// The number of commands.
    pub fn len(&self) -> (n: usize)
        ensures
            n == self@.len(),
    {
        self.steps.len()
    }

    /// The counts after the first `applied` commands have been carried out
    /// and none of the others.
    pub fn tally(&self, applied: usize) -> (counts: Tally)
        requires
            applied <= self@.len(),
            applied <= u32::MAX,
        ensures
            counts.synced == synced_count(self@.take(applied as int)),
            counts.conflicts == conflict_count(self@.take(applied as int)),
    {
        let mut synced: u32 = 0;
        let mut conflicts: u32 = 0;
        let mut i: usize = 0;
        assert(self@.take(0) =~= Seq::empty());
        while i < applied
            invariant
                i <= applied <= self.steps.len(),
                applied <= u32::MAX,
                self@.len() == self.steps.len(),
                synced + conflicts == i,
                synced == synced_count(self@.take(i as int)),
                conflicts == conflict_count(self@.take(i as int)),
            decreases applied - i,
        {
            assert(self@.take(i + 1).drop_last() =~= self@.take(i as int));
            assert(self@.take(i + 1).last() == self.steps[i as int]@);
            if self.steps[i].is_conflict() {
                conflicts += 1;
            } else {
                synced += 1;
            }
            i += 1;
        }
        Tally { synced, conflicts }
    }
}

/// Reconciles the two snapshots of one collection.
///
/// Every remote record is held against the local record with its identifier,
/// in the order of `remote`; then every local record that `remote` lacks is
/// uploaded, in the order of `local`. Nothing but the two snapshots enters.
pub fn reconcile<E: SyncEntity>(local: &Snapshot<E>, remote: &Snapshot<E>) -> (plan: SyncPlan<E>)
    ensures
        plan@ == sync_plan::<E>(local@, remote@),
{
    let mut steps: Vec<SyncStep<E>> = Vec::new();
    let mut i: usize = 0;
    assert(remote@.take(0) =~= Seq::empty());
    assert(steps_view::<E>(steps@) =~= Seq::empty());
    while i < remote.len()
        invariant
            i <= remote@.len(),
            steps_view::<E>(steps@) == remote_pass::<E>(local@, remote@.take(i as int)),
        decreases remote@.len() - i,
    {
        let r = remote.entity_at(i);
        let ghost before = steps@;
        assert(remote@.take(i + 1).drop_last() =~= remote@.take(i as int));
        assert(remote@.take(i + 1).last() == r@);
        match local.get(r.entity_id()) {
            Some(l) => {
                if r.last_modified().is_after(&l.last_modified()) {
                    steps.push(SyncStep::UpdateLocal(r.duplicate()));
                } else if l.last_modified().is_after(&r.last_modified()) {
                    steps.push(SyncStep::UpdateRemote(l.duplicate()));
                } else if !l.same_content(r) {
                    steps.push(SyncStep::ResolveConflict(r.duplicate()));
                }
            },
            None => {
                steps.push(SyncStep::CreateLocal(r.duplicate()));
            },
        }
        assert(steps_view::<E>(steps@) =~= steps_view::<E>(before) + step_seq(
            remote_verdict::<E>(local@, r@),
        ));
        i += 1;
    }
    assert(remote@.take(remote@.len() as int) =~= remote@);
    let ghost first = steps@;
    let mut j: usize = 0;
    assert(local@.take(0) =~= Seq::empty());
    assert(steps_view::<E>(steps@) =~= steps_view::<E>(first) + Seq::empty());
    while j < local.len()
        invariant
            j <= local@.len(),
            steps_view::<E>(first) == remote_pass::<E>(local@, remote@),
            steps_view::<E>(steps@) == steps_view::<E>(first) + local_pass::<E>(
                local@.take(j as int),
                remote@,
            ),
        decreases local@.len() - j,
    {
        let l = local.entity_at(j);
        let ghost before = steps@;
        assert(local@.take(j + 1).drop_last() =~= local@.take(j as int));
        assert(local@.take(j + 1).last() == l@);
        if !remote.contains(l.entity_id()) {
            steps.push(SyncStep::CreateRemote(l.duplicate()));
        }
        assert(steps_view::<E>(steps@) =~= steps_view::<E>(before) + step_seq(
            local_verdict::<E>(remote@, l@),
        ));
        j += 1;
    }
    assert(local@.take(local@.len() as int) =~= local@);
    SyncPlan { steps }
}

} // verus!
