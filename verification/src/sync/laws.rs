//! What holds of every reconciliation.

use crate::keyed::{
    has_id, ids_distinct, lemma_lookup_at, lemma_lookup_id, lemma_remove_distinct,
    lemma_upsert_lookup, lookup, position_of, upsert,
};
use crate::sync::entity::SyncEntity;
use crate::sync::outcome::after_steps;
use crate::sync::reconcile::{
    conflict_count, local_pass, local_verdict, remote_pass, remote_verdict, step_seq, sync_plan,
    synced_count, verdict, Side, SyncStep,
};
use crate::time::lemma_later_than_total;
use vstd::prelude::*;

verus! {

/// The identifier that `step` is about.
pub open spec fn step_id<E: SyncEntity>(step: SyncStep<E::V>) -> Seq<char> {
    E::id_of(step.payload())
}

/// None of `steps` is about `id`.
pub open spec fn no_step_for<E: SyncEntity>(steps: Seq<SyncStep<E::V>>, id: Seq<char>) -> bool {
    forall|k: int| 0 <= k < steps.len() ==> step_id::<E>(#[trigger] steps[k]) != id
}

/// `steps[at]` is `step`, and it is the only one of `steps` about `id`.
pub open spec fn only_step_at<E: SyncEntity>(
    steps: Seq<SyncStep<E::V>>,
    id: Seq<char>,
    step: SyncStep<E::V>,
    at: int,
) -> bool {
    &&& 0 <= at < steps.len()
    &&& steps[at] == step
    &&& step_id::<E>(step) == id
    &&& forall|k: int|
        0 <= k < steps.len() && k != at ==> step_id::<E>(#[trigger] steps[k]) != id
}

/// Exactly one of `steps` is about `id`, and it is `step`.
pub open spec fn only_step_for<E: SyncEntity>(
    steps: Seq<SyncStep<E::V>>,
    id: Seq<char>,
    step: SyncStep<E::V>,
) -> bool {
    exists|at: int| only_step_at::<E>(steps, id, step, at)
}

/// `steps` holds for `id` exactly what `wanted` says: that one command and
/// no other about `id`, or none about `id`.
pub open spec fn holds_for<E: SyncEntity>(
    steps: Seq<SyncStep<E::V>>,
    id: Seq<char>,
    wanted: Option<SyncStep<E::V>>,
) -> bool {
    match wanted {
        Some(step) => only_step_for::<E>(steps, id, step),
        None => no_step_for::<E>(steps, id),
    }
}

/// The record that a side holds under an identifier once the command
/// `wanted` for that identifier, if any, has been carried out.
pub open spec fn copy_after<E: SyncEntity>(
    before: Option<E::V>,
    wanted: Option<SyncStep<E::V>>,
    side: Side,
) -> Option<E::V> {
    match wanted {
        Some(step) => if step.side() == side {
            Some(step.payload())
        } else {
            before
        },
        None => before,
    }
}

proof fn lemma_holds_for_concat<E: SyncEntity>(
    a: Seq<SyncStep<E::V>>,
    b: Seq<SyncStep<E::V>>,
    id: Seq<char>,
    wanted_a: Option<SyncStep<E::V>>,
    wanted_b: Option<SyncStep<E::V>>,
)
    requires
        holds_for::<E>(a, id, wanted_a),
        holds_for::<E>(b, id, wanted_b),
        wanted_a is None || wanted_b is None,
    ensures
        holds_for::<E>(
            a + b,
            id,
            if wanted_a is Some {
                wanted_a
            } else {
                wanted_b
            },
        ),
{
    let ab = a + b;
    assert forall|k: int| 0 <= k < ab.len() implies #[trigger] ab[k] == if k < a.len() {
        a[k]
    } else {
        b[k - a.len()]
    } by {}
    match wanted_a {
        Some(step) => {
            let at = choose|at: int| only_step_at::<E>(a, id, step, at);
            assert(only_step_at::<E>(ab, id, step, at)) by {
                assert(ab[at] == a[at]);
                assert forall|k: int| 0 <= k < ab.len() && k != at implies step_id::<E>(
                    #[trigger] ab[k],
                ) != id by {
                    if k < a.len() {
                        assert(ab[k] == a[k]);
                    } else {
                        assert(ab[k] == b[k - a.len()]);
                    }
                }
            }
        },
        None => {
            match wanted_b {
                Some(step) => {
                    let at = choose|at: int| only_step_at::<E>(b, id, step, at);
                    assert(only_step_at::<E>(ab, id, step, a.len() + at)) by {
                        assert(ab[a.len() + at] == b[at]);
                        assert forall|k: int|
                            0 <= k < ab.len() && k != a.len() + at implies step_id::<E>(
                            #[trigger] ab[k],
                        ) != id by {
                            if k < a.len() {
                                assert(ab[k] == a[k]);
                            } else {
                                assert(ab[k] == b[k - a.len()]);
                            }
                        }
                    }
                },
                None => {
                    assert forall|k: int| 0 <= k < ab.len() implies step_id::<E>(
                        #[trigger] ab[k],
                    ) != id by {
                        if k < a.len() {
                            assert(ab[k] == a[k]);
                        } else {
                            assert(ab[k] == b[k - a.len()]);
                        }
                    }
                },
            }
        },
    }
}

proof fn lemma_holds_for_single<E: SyncEntity>(
    step: Option<SyncStep<E::V>>,
    about: Seq<char>,
    id: Seq<char>,
)
    requires
        step matches Some(s) ==> step_id::<E>(s) == about,
    ensures
        holds_for::<E>(
            step_seq(step),
            id,
            if about == id {
                step
            } else {
                None
            },
        ),
{
    let steps = step_seq(step);
    match step {
        Some(s) => {
            if about == id {
                assert(only_step_at::<E>(steps, id, s, 0));
            }
        },
        None => {},
    }
}

/// Looking `id` up in a snapshot without its last record.
proof fn lemma_lookup_drop_last<E: SyncEntity>(records: Seq<E::V>, id: Seq<char>)
    requires
        ids_distinct::<E>(records),
        records.len() > 0,
    ensures
        ids_distinct::<E>(records.drop_last()),
        E::id_of(records.last()) == id ==> !has_id::<E>(records.drop_last(), id) && lookup::<E>(
            records,
            id,
        ) == Some(records.last()),
        E::id_of(records.last()) != id ==> lookup::<E>(records.drop_last(), id) == lookup::<E>(
            records,
            id,
        ),
{
    let front = records.drop_last();
    let last = records.len() - 1;
    assert forall|i: int, j: int| 0 <= i < j < front.len() implies E::id_of(#[trigger] front[i])
        != E::id_of(#[trigger] front[j]) by {
        assert(front[i] == records[i] && front[j] == records[j]);
    }
    if E::id_of(records.last()) == id {
        lemma_lookup_at::<E>(records, last);
        if has_id::<E>(front, id) {
            let p = position_of::<E>(front, id);
            assert(0 <= p < front.len() && E::id_of(front[p]) == id);
            assert(front[p] == records[p]);
            assert(false);
        }
    } else {
        if has_id::<E>(front, id) {
            let p = position_of::<E>(front, id);
            assert(0 <= p < front.len() && E::id_of(front[p]) == id);
            assert(front[p] == records[p]);
            lemma_lookup_at::<E>(front, p);
            lemma_lookup_at::<E>(records, p);
        } else if has_id::<E>(records, id) {
            let p = position_of::<E>(records, id);
            assert(0 <= p < records.len() && E::id_of(records[p]) == id);
            assert(p != last);
            assert(front[p] == records[p]);
            assert(false);
        }
    }
}

/// What the commands for the remote records hold for one identifier.
proof fn lemma_remote_pass_for<E: SyncEntity>(local: Seq<E::V>, remote: Seq<E::V>, id: Seq<char>)
    requires
        ids_distinct::<E>(remote),
    ensures
        holds_for::<E>(
            remote_pass::<E>(local, remote),
            id,
            if has_id::<E>(remote, id) {
                verdict::<E>(lookup::<E>(local, id), lookup::<E>(remote, id))
            } else {
                None
            },
        ),
    decreases remote.len(),
{
    if remote.len() > 0 {
        let front = remote.drop_last();
        let r = remote.last();
        lemma_lookup_drop_last::<E>(remote, id);
        lemma_remote_pass_for::<E>(local, front, id);
        lemma_lookup_id::<E>(local, E::id_of(r));
        lemma_lookup_id::<E>(remote, id);
        lemma_lookup_id::<E>(front, id);
        let step = remote_verdict::<E>(local, r);
        lemma_holds_for_single::<E>(step, E::id_of(r), id);
        let wanted_front = if has_id::<E>(front, id) {
            verdict::<E>(lookup::<E>(local, id), lookup::<E>(front, id))
        } else {
            None
        };
        let wanted_last = if E::id_of(r) == id {
            step
        } else {
            None
        };
        lemma_holds_for_concat::<E>(
            remote_pass::<E>(local, front),
            step_seq(step),
            id,
            wanted_front,
            wanted_last,
        );
    }
}

/// What the uploads of the local-only records hold for one identifier.
proof fn lemma_local_pass_for<E: SyncEntity>(local: Seq<E::V>, remote: Seq<E::V>, id: Seq<char>)
    requires
        ids_distinct::<E>(local),
    ensures
        holds_for::<E>(
            local_pass::<E>(local, remote),
            id,
            if has_id::<E>(local, id) && !has_id::<E>(remote, id) {
                verdict::<E>(lookup::<E>(local, id), None)
            } else {
                None
            },
        ),
    decreases local.len(),
{
    if local.len() > 0 {
        let front = local.drop_last();
        let l = local.last();
        lemma_lookup_drop_last::<E>(local, id);
        lemma_local_pass_for::<E>(front, remote, id);
        lemma_lookup_id::<E>(local, id);
        lemma_lookup_id::<E>(front, id);
        let step = local_verdict::<E>(remote, l);
        lemma_holds_for_single::<E>(step, E::id_of(l), id);
        let wanted_front = if has_id::<E>(front, id) && !has_id::<E>(remote, id) {
            verdict::<E>(lookup::<E>(front, id), None)
        } else {
            None
        };
        let wanted_last = if E::id_of(l) == id {
            step
        } else {
            None
        };
        lemma_holds_for_concat::<E>(
            local_pass::<E>(front, remote),
            step_seq(step),
            id,
            wanted_front,
            wanted_last,
        );
    }
}

/// Each identifier is handled in isolation: the plan holds for it the one
/// command that the two copies under it call for and no other, or none where
/// they call for none. The order of the records in the snapshots does not
/// enter.
pub proof fn law_one_verdict_per_identifier<E: SyncEntity>(
    local: Seq<E::V>,
    remote: Seq<E::V>,
    id: Seq<char>,
)
    requires
        ids_distinct::<E>(local),
        ids_distinct::<E>(remote),
    ensures
        holds_for::<E>(
            sync_plan::<E>(local, remote),
            id,
            verdict::<E>(lookup::<E>(local, id), lookup::<E>(remote, id)),
        ),
{
    lemma_remote_pass_for::<E>(local, remote, id);
    lemma_local_pass_for::<E>(local, remote, id);
    lemma_lookup_id::<E>(local, id);
    lemma_lookup_id::<E>(remote, id);
    let wanted_remote = if has_id::<E>(remote, id) {
        verdict::<E>(lookup::<E>(local, id), lookup::<E>(remote, id))
    } else {
        None
    };
    let wanted_local = if has_id::<E>(local, id) && !has_id::<E>(remote, id) {
        verdict::<E>(lookup::<E>(local, id), None)
    } else {
        None
    };
    lemma_holds_for_concat::<E>(
        remote_pass::<E>(local, remote),
        local_pass::<E>(local, remote),
        id,
        wanted_remote,
        wanted_local,
    );
}

/// A side on which `steps` holds for `id` what `wanted` says ends with the
/// copy that `wanted` leaves there.
proof fn lemma_after_steps_lookup<E: SyncEntity>(
    records: Seq<E::V>,
    steps: Seq<SyncStep<E::V>>,
    side: Side,
    id: Seq<char>,
    wanted: Option<SyncStep<E::V>>,
)
    requires
        ids_distinct::<E>(records),
        holds_for::<E>(steps, id, wanted),
    ensures
        ids_distinct::<E>(after_steps::<E>(records, steps, side)),
        lookup::<E>(after_steps::<E>(records, steps, side), id) == copy_after::<E>(
            lookup::<E>(records, id),
            wanted,
            side,
        ),
    decreases steps.len(),
{
    if steps.len() == 0 {
        if let Some(step) = wanted {
            let at = choose|at: int| only_step_at::<E>(steps, id, step, at);
            assert(false);
        }
    } else {
        let front = steps.drop_last();
        let last = steps.last();
        let end = steps.len() - 1;
        assert(steps[end] == last);
        let wanted_front = if step_id::<E>(last) == id {
            None
        } else {
            wanted
        };
        assert(holds_for::<E>(front, id, wanted_front)) by {
            match wanted {
                Some(step) => {
                    let at = choose|at: int| only_step_at::<E>(steps, id, step, at);
                    if step_id::<E>(last) == id {
                        assert(at == end);
                        assert forall|k: int| 0 <= k < front.len() implies step_id::<E>(
                            #[trigger] front[k],
                        ) != id by {
                            assert(front[k] == steps[k]);
                        }
                    } else {
                        assert(at != end);
                        assert(only_step_at::<E>(front, id, step, at)) by {
                            assert(front[at] == steps[at]);
                            assert forall|k: int|
                                0 <= k < front.len() && k != at implies step_id::<E>(
                                #[trigger] front[k],
                            ) != id by {
                                assert(front[k] == steps[k]);
                            }
                        }
                    }
                },
                None => {
                    assert forall|k: int| 0 <= k < front.len() implies step_id::<E>(
                        #[trigger] front[k],
                    ) != id by {
                        assert(front[k] == steps[k]);
                    }
                },
            }
        }
        lemma_after_steps_lookup::<E>(records, front, side, id, wanted_front);
        let mid = after_steps::<E>(records, front, side);
        lemma_upsert_lookup::<E>(mid, last.payload(), id);
        if step_id::<E>(last) == id {
            match wanted {
                Some(step) => {
                    let at = choose|at: int| only_step_at::<E>(steps, id, step, at);
                    assert(at == end);
                },
                None => {
                    assert(false);
                },
            }
        }
    }
}

/// Once the plan has been carried out, each side holds under `id` what the
/// verdict for `id` leaves there.
pub proof fn lemma_copies_after_plan<E: SyncEntity>(
    local: Seq<E::V>,
    remote: Seq<E::V>,
    id: Seq<char>,
)
    requires
        ids_distinct::<E>(local),
        ids_distinct::<E>(remote),
    ensures
        ({
            let plan = sync_plan::<E>(local, remote);
            let wanted = verdict::<E>(lookup::<E>(local, id), lookup::<E>(remote, id));
            &&& ids_distinct::<E>(after_steps::<E>(local, plan, Side::Local))
            &&& ids_distinct::<E>(after_steps::<E>(remote, plan, Side::Remote))
            &&& lookup::<E>(after_steps::<E>(local, plan, Side::Local), id) == copy_after::<E>(
                lookup::<E>(local, id),
                wanted,
                Side::Local,
            )
            &&& lookup::<E>(after_steps::<E>(remote, plan, Side::Remote), id) == copy_after::<E>(
                lookup::<E>(remote, id),
                wanted,
                Side::Remote,
            )
        }),
{
    let plan = sync_plan::<E>(local, remote);
    let wanted = verdict::<E>(lookup::<E>(local, id), lookup::<E>(remote, id));
    law_one_verdict_per_identifier::<E>(local, remote, id);
    lemma_after_steps_lookup::<E>(local, plan, Side::Local, id, wanted);
    lemma_after_steps_lookup::<E>(remote, plan, Side::Remote, id, wanted);
}

/// Once the plan has been carried out, the two sides hold the same record
/// under every identifier.
pub proof fn law_sides_converge<E: SyncEntity>(local: Seq<E::V>, remote: Seq<E::V>, id: Seq<char>)
    requires
        ids_distinct::<E>(local),
        ids_distinct::<E>(remote),
    ensures
        ({
            let plan = sync_plan::<E>(local, remote);
            lookup::<E>(after_steps::<E>(local, plan, Side::Local), id) == lookup::<E>(
                after_steps::<E>(remote, plan, Side::Remote),
                id,
            )
        }),
{
    lemma_copies_after_plan::<E>(local, remote, id);
    lemma_lookup_id::<E>(local, id);
    lemma_lookup_id::<E>(remote, id);
    if let (Some(l), Some(r)) = (lookup::<E>(local, id), lookup::<E>(remote, id)) {
        lemma_later_than_total(E::modified_of(l), E::modified_of(r));
    }
}

proof fn lemma_remote_pass_empty<E: SyncEntity>(local: Seq<E::V>, remote: Seq<E::V>)
    requires
        forall|i: int|
            0 <= i < remote.len() ==> remote_verdict::<E>(local, #[trigger] remote[i]) is None,
    ensures
        remote_pass::<E>(local, remote) =~= Seq::empty(),
    decreases remote.len(),
{
    if remote.len() > 0 {
        let front = remote.drop_last();
        assert forall|i: int| 0 <= i < front.len() implies remote_verdict::<E>(
            local,
            #[trigger] front[i],
        ) is None by {
            assert(front[i] == remote[i]);
        }
        lemma_remote_pass_empty::<E>(local, front);
        assert(remote.last() == remote[remote.len() - 1]);
    }
}

proof fn lemma_local_pass_empty<E: SyncEntity>(local: Seq<E::V>, remote: Seq<E::V>)
    requires
        forall|i: int|
            0 <= i < local.len() ==> local_verdict::<E>(remote, #[trigger] local[i]) is None,
    ensures
        local_pass::<E>(local, remote) =~= Seq::empty(),
    decreases local.len(),
{
    if local.len() > 0 {
        let front = local.drop_last();
        assert forall|i: int| 0 <= i < front.len() implies local_verdict::<E>(
            remote,
            #[trigger] front[i],
        ) is None by {
            assert(front[i] == local[i]);
        }
        lemma_local_pass_empty::<E>(front, remote);
        assert(local.last() == local[local.len() - 1]);
    }
}

/// Idempotence: once a plan has been carried out, reconciling the two
/// snapshots again finds nothing to do: no command, no record synced, no
/// conflict.
pub proof fn law_second_run_finds_nothing<E: SyncEntity>(local: Seq<E::V>, remote: Seq<E::V>)
    requires
        ids_distinct::<E>(local),
        ids_distinct::<E>(remote),
    ensures
        ({
            let plan = sync_plan::<E>(local, remote);
            let again = sync_plan::<E>(
                after_steps::<E>(local, plan, Side::Local),
                after_steps::<E>(remote, plan, Side::Remote),
            );
            &&& again == Seq::<SyncStep<E::V>>::empty()
            &&& synced_count(again) == 0
            &&& conflict_count(again) == 0
        }),
{
    let plan = sync_plan::<E>(local, remote);
    let local2 = after_steps::<E>(local, plan, Side::Local);
    let remote2 = after_steps::<E>(remote, plan, Side::Remote);
    lemma_copies_after_plan::<E>(local, remote, Seq::empty());
    assert forall|i: int| 0 <= i < remote2.len() implies remote_verdict::<E>(
        local2,
        #[trigger] remote2[i],
    ) is None by {
        let id = E::id_of(remote2[i]);
        law_sides_converge::<E>(local, remote, id);
        lemma_lookup_at::<E>(remote2, i);
        lemma_later_than_total(E::modified_of(remote2[i]), E::modified_of(remote2[i]));
    }
    assert forall|i: int| 0 <= i < local2.len() implies local_verdict::<E>(
        remote2,
        #[trigger] local2[i],
    ) is None by {
        let id = E::id_of(local2[i]);
        law_sides_converge::<E>(local, remote, id);
        lemma_lookup_at::<E>(local2, i);
        lemma_lookup_id::<E>(remote2, id);
    }
    lemma_remote_pass_empty::<E>(local2, remote2);
    lemma_local_pass_empty::<E>(local2, remote2);
}

/// Taking one command out of `steps` takes its contribution out of the
/// counts, and nothing else.
proof fn lemma_counts_without<T>(steps: Seq<SyncStep<T>>, at: int)
    requires
        0 <= at < steps.len(),
    ensures
        conflict_count(steps) == conflict_count(steps.remove(at)) + if steps[at].settles_conflict() {
            1nat
        } else {
            0nat
        },
        synced_count(steps) == synced_count(steps.remove(at)) + if steps[at].settles_conflict() {
            0nat
        } else {
            1nat
        },
    decreases steps.len(),
{
    if at == steps.len() - 1 {
        assert(steps.remove(at) =~= steps.drop_last());
    } else {
        lemma_counts_without(steps.drop_last(), at);
        assert(steps.remove(at).drop_last() =~= steps.drop_last().remove(at));
        assert(steps.remove(at).last() == steps.last());
    }
}

/// Tie-break: two copies with one identifier and one timestamp that differ
/// in anything else give exactly one command for that identifier, the
/// settling of the conflict with the remote copy. It adds one to the count
/// of conflicts and nothing to the count of synced records, and once it is
/// carried out both sides hold the remote copy.
pub proof fn law_tie_resolves_to_remote<E: SyncEntity>(
    local: Seq<E::V>,
    remote: Seq<E::V>,
    l: E::V,
    r: E::V,
)
    requires
        ids_distinct::<E>(local),
        ids_distinct::<E>(remote),
        lookup::<E>(local, E::id_of(r)) == Some(l),
        lookup::<E>(remote, E::id_of(r)) == Some(r),
        E::modified_of(l) == E::modified_of(r),
        l != r,
    ensures
        ({
            let plan = sync_plan::<E>(local, remote);
            let id = E::id_of(r);
            &&& exists|at: int|
                {
                    &&& #[trigger] only_step_at::<E>(plan, id, SyncStep::ResolveConflict(r), at)
                    &&& conflict_count(plan) == conflict_count(plan.remove(at)) + 1
                    &&& synced_count(plan) == synced_count(plan.remove(at))
                }
            &&& lookup::<E>(after_steps::<E>(local, plan, Side::Local), id) == Some(r)
            &&& lookup::<E>(after_steps::<E>(remote, plan, Side::Remote), id) == Some(r)
        }),
{
    let plan = sync_plan::<E>(local, remote);
    let id = E::id_of(r);
    lemma_later_than_total(E::modified_of(l), E::modified_of(r));
    law_one_verdict_per_identifier::<E>(local, remote, id);
    lemma_copies_after_plan::<E>(local, remote, id);
    let at = choose|at: int| only_step_at::<E>(plan, id, SyncStep::ResolveConflict(r), at);
    lemma_counts_without(plan, at);
}

/// Convergence on the newer copy: wherever the remote copy of a record is
/// the newer one, the plan holds exactly one command for its identifier,
/// the overwriting of the local copy, and once the plan has been carried
/// out both sides hold the remote copy. What either side then holds under
/// any other identifier goes by the two copies under that identifier alone.
pub proof fn law_remote_newer_converges<E: SyncEntity>(
    local: Seq<E::V>,
    remote: Seq<E::V>,
    l: E::V,
    r: E::V,
)
    requires
        ids_distinct::<E>(local),
        ids_distinct::<E>(remote),
        lookup::<E>(local, E::id_of(r)) == Some(l),
        lookup::<E>(remote, E::id_of(r)) == Some(r),
        E::modified_of(r).later_than(E::modified_of(l)),
    ensures
        ({
            let plan = sync_plan::<E>(local, remote);
            let local2 = after_steps::<E>(local, plan, Side::Local);
            let remote2 = after_steps::<E>(remote, plan, Side::Remote);
            &&& only_step_for::<E>(plan, E::id_of(r), SyncStep::UpdateLocal(r))
            &&& lookup::<E>(local2, E::id_of(r)) == Some(r)
            &&& lookup::<E>(remote2, E::id_of(r)) == Some(r)
            &&& forall|other: Seq<char>|
                other != E::id_of(r) ==> #[trigger] lookup::<E>(local2, other) == copy_after::<E>(
                    lookup::<E>(local, other),
                    verdict::<E>(lookup::<E>(local, other), lookup::<E>(remote, other)),
                    Side::Local,
                )
            &&& forall|other: Seq<char>|
                other != E::id_of(r) ==> #[trigger] lookup::<E>(remote2, other) == copy_after::<E>(
                    lookup::<E>(remote, other),
                    verdict::<E>(lookup::<E>(local, other), lookup::<E>(remote, other)),
                    Side::Remote,
                )
        }),
{
    let plan = sync_plan::<E>(local, remote);
    let id = E::id_of(r);
    law_one_verdict_per_identifier::<E>(local, remote, id);
    lemma_copies_after_plan::<E>(local, remote, id);
    let local2 = after_steps::<E>(local, plan, Side::Local);
    let remote2 = after_steps::<E>(remote, plan, Side::Remote);
    assert forall|other: Seq<char>| other != id implies #[trigger] lookup::<E>(local2, other)
        == copy_after::<E>(
        lookup::<E>(local, other),
        verdict::<E>(lookup::<E>(local, other), lookup::<E>(remote, other)),
        Side::Local,
    ) by {
        lemma_copies_after_plan::<E>(local, remote, other);
    }
    assert forall|other: Seq<char>| other != id implies #[trigger] lookup::<E>(remote2, other)
        == copy_after::<E>(
        lookup::<E>(remote, other),
        verdict::<E>(lookup::<E>(local, other), lookup::<E>(remote, other)),
        Side::Remote,
    ) by {
        lemma_copies_after_plan::<E>(local, remote, other);
    }
}

/// Monotonic convergence: where the remote copy of one record is the newer
/// one and every other identifier leads to the same record on both sides,
/// the plan is the one command that overwrites the local copy with the
/// remote one. Once it is carried out the local copy equals the remote copy,
/// every other local record is what it was, and the remote snapshot is
/// untouched.
pub proof fn law_single_remote_newer<E: SyncEntity>(
    local: Seq<E::V>,
    remote: Seq<E::V>,
    l: E::V,
    r: E::V,
)
    requires
        ids_distinct::<E>(local),
        ids_distinct::<E>(remote),
        lookup::<E>(local, E::id_of(r)) == Some(l),
        lookup::<E>(remote, E::id_of(r)) == Some(r),
        E::modified_of(r).later_than(E::modified_of(l)),
        forall|other: Seq<char>|
            other != E::id_of(r) ==> #[trigger] lookup::<E>(local, other) == lookup::<E>(
                remote,
                other,
            ),
    ensures
        ({
            let plan = sync_plan::<E>(local, remote);
            let local2 = after_steps::<E>(local, plan, Side::Local);
            &&& plan == seq![SyncStep::UpdateLocal(r)]
            &&& synced_count(plan) == 1
            &&& conflict_count(plan) == 0
            &&& lookup::<E>(local2, E::id_of(r)) == Some(r)
            &&& forall|other: Seq<char>|
                other != E::id_of(r) ==> #[trigger] lookup::<E>(local2, other) == lookup::<E>(
                    local,
                    other,
                )
            &&& after_steps::<E>(remote, plan, Side::Remote) == remote
        }),
{
    let plan = sync_plan::<E>(local, remote);
    let id = E::id_of(r);
    let step = SyncStep::UpdateLocal(r);
    law_one_verdict_per_identifier::<E>(local, remote, id);
    let at = choose|at: int| only_step_at::<E>(plan, id, step, at);
    assert forall|k: int| 0 <= k < plan.len() implies step_id::<E>(#[trigger] plan[k]) == id by {
        let other = step_id::<E>(plan[k]);
        if other != id {
            law_one_verdict_per_identifier::<E>(local, remote, other);
            let same = lookup::<E>(local, other);
            assert(same == lookup::<E>(remote, other));
            if let Some(v) = same {
                lemma_later_than_total(E::modified_of(v), E::modified_of(v));
            }
            assert(false);
        }
    }
    if plan.len() != 1 {
        let k = if at == 0 {
            1int
        } else {
            0int
        };
        assert(step_id::<E>(plan[k]) == id);
        assert(false);
    }
    assert(plan =~= seq![step]);
    let none = plan.drop_last();
    assert(none =~= Seq::empty());
    assert(plan.last() == step);
    assert(synced_count(none) == 0 && conflict_count(none) == 0);
    assert(after_steps::<E>(local, none, Side::Local) == local);
    assert(after_steps::<E>(remote, none, Side::Remote) == remote);
    let local2 = after_steps::<E>(local, plan, Side::Local);
    assert(local2 == upsert::<E>(local, r));
    lemma_upsert_lookup::<E>(local, r, id);
    assert forall|other: Seq<char>| other != id implies #[trigger] lookup::<E>(local2, other)
        == lookup::<E>(local, other) by {
        lemma_upsert_lookup::<E>(local, r, other);
    }
}

/// Discovery goes both ways: an identifier that only the local side knows
/// gives exactly one command for it, the upload of the local record as a new
/// one; an identifier that only the remote side knows gives exactly one, the
/// local creation of the remote record.
pub proof fn law_discovery_goes_both_ways<E: SyncEntity>(
    local: Seq<E::V>,
    remote: Seq<E::V>,
    id: Seq<char>,
)
    requires
        ids_distinct::<E>(local),
        ids_distinct::<E>(remote),
    ensures
        !has_id::<E>(remote, id) ==> (lookup::<E>(local, id) matches Some(l) ==> only_step_for::<E>(
            sync_plan::<E>(local, remote),
            id,
            SyncStep::CreateRemote(l),
        )),
        !has_id::<E>(local, id) ==> (lookup::<E>(remote, id) matches Some(r) ==> only_step_for::<E>(
            sync_plan::<E>(local, remote),
            id,
            SyncStep::CreateLocal(r),
        )),
{
    law_one_verdict_per_identifier::<E>(local, remote, id);
    lemma_lookup_id::<E>(local, id);
    lemma_lookup_id::<E>(remote, id);
}

/// The two snapshots keep the same record under every identifier: they
/// differ at most in the order of their records.
pub open spec fn same_records<E: SyncEntity>(a: Seq<E::V>, b: Seq<E::V>) -> bool {
    forall|id: Seq<char>| #[trigger] lookup::<E>(a, id) == lookup::<E>(b, id)
}

/// Looking `id` up in a snapshot without the record at `at`.
proof fn lemma_lookup_remove<E: SyncEntity>(records: Seq<E::V>, at: int, id: Seq<char>)
    requires
        ids_distinct::<E>(records),
        0 <= at < records.len(),
    ensures
        ids_distinct::<E>(records.remove(at)),
        lookup::<E>(records.remove(at), id) == if id == E::id_of(records[at]) {
            None
        } else {
            lookup::<E>(records, id)
        },
{
    let rest = records.remove(at);
    lemma_remove_distinct::<E>(records, at);
    if has_id::<E>(rest, id) {
        let p = position_of::<E>(rest, id);
        assert(0 <= p < rest.len() && E::id_of(rest[p]) == id);
        let origin = if p < at {
            p
        } else {
            p + 1
        };
        assert(rest[p] == records[origin]);
        lemma_lookup_at::<E>(rest, p);
        lemma_lookup_at::<E>(records, origin);
        if id == E::id_of(records[at]) {
            assert(false);
        }
    } else if id != E::id_of(records[at]) && has_id::<E>(records, id) {
        let q = position_of::<E>(records, id);
        assert(0 <= q < records.len() && E::id_of(records[q]) == id);
        let q1 = if q < at {
            q
        } else {
            q - 1
        };
        assert(rest[q1] == records[q]);
        assert(false);
    }
}

/// The counts of two runs of commands, one after the other, add up.
proof fn lemma_counts_concat<T>(a: Seq<SyncStep<T>>, b: Seq<SyncStep<T>>)
    ensures
        synced_count(a + b) == synced_count(a) + synced_count(b),
        conflict_count(a + b) == conflict_count(a) + conflict_count(b),
    decreases b.len(),
{
    if b.len() == 0 {
        assert(a + b =~= a);
    } else {
        lemma_counts_concat(a, b.drop_last());
        assert((a + b).drop_last() =~= a + b.drop_last());
        assert((a + b).last() == b.last());
    }
}

/// What one command, or none, adds to the count of synced records.
pub open spec fn synced_by<T>(step: Option<SyncStep<T>>) -> nat {
    match step {
        Some(s) => if s.settles_conflict() {
            0
        } else {
            1
        },
        None => 0,
    }
}

/// What one command, or none, adds to the count of conflicts.
pub open spec fn conflicts_by<T>(step: Option<SyncStep<T>>) -> nat {
    match step {
        Some(s) => if s.settles_conflict() {
            1
        } else {
            0
        },
        None => 0,
    }
}

proof fn lemma_counts_single<T>(step: Option<SyncStep<T>>)
    ensures
        synced_count(step_seq(step)) == synced_by(step),
        conflict_count(step_seq(step)) == conflicts_by(step),
{
    let steps = step_seq(step);
    if steps.len() > 0 {
        assert(steps.drop_last() =~= Seq::empty());
        assert(synced_count(steps.drop_last()) == 0);
        assert(conflict_count(steps.drop_last()) == 0);
    }
}

/// The commands for the remote records without one of them count what
/// that record's command counts less.
proof fn lemma_remote_pass_without<E: SyncEntity>(local: Seq<E::V>, remote: Seq<E::V>, at: int)
    requires
        0 <= at < remote.len(),
    ensures
        synced_count(remote_pass::<E>(local, remote)) == synced_count(
            remote_pass::<E>(local, remote.remove(at)),
        ) + synced_by(remote_verdict::<E>(local, remote[at])),
        conflict_count(remote_pass::<E>(local, remote)) == conflict_count(
            remote_pass::<E>(local, remote.remove(at)),
        ) + conflicts_by(remote_verdict::<E>(local, remote[at])),
    decreases remote.len(),
{
    let front = remote.drop_last();
    let last = remote_verdict::<E>(local, remote.last());
    lemma_counts_concat(remote_pass::<E>(local, front), step_seq(last));
    lemma_counts_single(last);
    if at == remote.len() - 1 {
        assert(remote.remove(at) =~= front);
    } else {
        lemma_remote_pass_without::<E>(local, front, at);
        let rest = remote.remove(at);
        assert(rest.drop_last() =~= front.remove(at));
        assert(rest.last() == remote.last());
        lemma_counts_concat(remote_pass::<E>(local, rest.drop_last()), step_seq(last));
    }
}

/// The uploads of the local-only records without one local record count
/// what that record's upload counts less.
proof fn lemma_local_pass_without<E: SyncEntity>(local: Seq<E::V>, remote: Seq<E::V>, at: int)
    requires
        0 <= at < local.len(),
    ensures
        synced_count(local_pass::<E>(local, remote)) == synced_count(
            local_pass::<E>(local.remove(at), remote),
        ) + synced_by(local_verdict::<E>(remote, local[at])),
        conflict_count(local_pass::<E>(local, remote)) == conflict_count(
            local_pass::<E>(local.remove(at), remote),
        ) + conflicts_by(local_verdict::<E>(remote, local[at])),
    decreases local.len(),
{
    let front = local.drop_last();
    let last = local_verdict::<E>(remote, local.last());
    lemma_counts_concat(local_pass::<E>(front, remote), step_seq(last));
    lemma_counts_single(last);
    if at == local.len() - 1 {
        assert(local.remove(at) =~= front);
    } else {
        lemma_local_pass_without::<E>(front, remote, at);
        let rest = local.remove(at);
        assert(rest.drop_last() =~= front.remove(at));
        assert(rest.last() == local.last());
        lemma_counts_concat(local_pass::<E>(rest.drop_last(), remote), step_seq(last));
    }
}

/// Two snapshots with the same records are both empty or both not.
proof fn lemma_same_records_empty<E: SyncEntity>(a: Seq<E::V>, b: Seq<E::V>)
    requires
        ids_distinct::<E>(a),
        ids_distinct::<E>(b),
        same_records::<E>(a, b),
        a.len() == 0,
    ensures
        b.len() == 0,
{
    if b.len() > 0 {
        lemma_lookup_at::<E>(b, 0);
        let id = E::id_of(b[0]);
        assert(lookup::<E>(a, id) == lookup::<E>(b, id));
        lemma_lookup_id::<E>(a, id);
        if has_id::<E>(a, id) {
            let p = position_of::<E>(a, id);
            assert(0 <= p < a.len());
        }
    }
}

/// Taking the last record of one snapshot out of both leaves two snapshots
/// with the same records.
proof fn lemma_same_records_step<E: SyncEntity>(a: Seq<E::V>, b: Seq<E::V>) -> (at: int)
    requires
        ids_distinct::<E>(a),
        ids_distinct::<E>(b),
        same_records::<E>(a, b),
        a.len() > 0,
    ensures
        0 <= at < b.len(),
        b[at] == a.last(),
        ids_distinct::<E>(a.drop_last()),
        ids_distinct::<E>(b.remove(at)),
        same_records::<E>(a.drop_last(), b.remove(at)),
{
    let last = a.last();
    let id = E::id_of(last);
    lemma_lookup_drop_last::<E>(a, id);
    assert(lookup::<E>(a, id) == lookup::<E>(b, id));
    lemma_lookup_id::<E>(b, id);
    let at = position_of::<E>(b, id);
    assert(0 <= at < b.len() && E::id_of(b[at]) == id);
    lemma_lookup_at::<E>(b, at);
    lemma_lookup_remove::<E>(b, at, id);
    assert forall|other: Seq<char>| #[trigger]
        lookup::<E>(a.drop_last(), other) == lookup::<E>(b.remove(at), other) by {
        lemma_lookup_drop_last::<E>(a, other);
        lemma_lookup_remove::<E>(b, at, other);
        assert(lookup::<E>(a, other) == lookup::<E>(b, other));
    }
    at
}

/// The commands for the remote records count the same in whatever order
/// the remote records stand.
proof fn lemma_remote_pass_counts<E: SyncEntity>(local: Seq<E::V>, a: Seq<E::V>, b: Seq<E::V>)
    requires
        ids_distinct::<E>(a),
        ids_distinct::<E>(b),
        same_records::<E>(a, b),
    ensures
        synced_count(remote_pass::<E>(local, a)) == synced_count(remote_pass::<E>(local, b)),
        conflict_count(remote_pass::<E>(local, a)) == conflict_count(remote_pass::<E>(local, b)),
    decreases a.len(),
{
    if a.len() == 0 {
        lemma_same_records_empty::<E>(a, b);
    } else {
        let at = lemma_same_records_step::<E>(a, b);
        lemma_remote_pass_counts::<E>(local, a.drop_last(), b.remove(at));
        lemma_remote_pass_without::<E>(local, b, at);
        lemma_remote_pass_without::<E>(local, a, a.len() - 1);
        assert(a.remove(a.len() - 1) =~= a.drop_last());
        assert(a[a.len() - 1] == a.last());
    }
}

/// The uploads of the local-only records count the same in whatever order
/// the local records stand.
proof fn lemma_local_pass_counts<E: SyncEntity>(a: Seq<E::V>, b: Seq<E::V>, remote: Seq<E::V>)
    requires
        ids_distinct::<E>(a),
        ids_distinct::<E>(b),
        same_records::<E>(a, b),
    ensures
        synced_count(local_pass::<E>(a, remote)) == synced_count(local_pass::<E>(b, remote)),
        conflict_count(local_pass::<E>(a, remote)) == conflict_count(local_pass::<E>(b, remote)),
    decreases a.len(),
{
    if a.len() == 0 {
        lemma_same_records_empty::<E>(a, b);
    } else {
        let at = lemma_same_records_step::<E>(a, b);
        lemma_local_pass_counts::<E>(a.drop_last(), b.remove(at), remote);
        lemma_local_pass_without::<E>(b, remote, at);
        lemma_local_pass_without::<E>(a, remote, a.len() - 1);
        assert(a.remove(a.len() - 1) =~= a.drop_last());
        assert(a[a.len() - 1] == a.last());
    }
}

/// The commands for the remote records are the same against two local
/// snapshots with the same records.
proof fn lemma_remote_pass_same_local<E: SyncEntity>(
    local: Seq<E::V>,
    local2: Seq<E::V>,
    remote: Seq<E::V>,
)
    requires
        same_records::<E>(local, local2),
    ensures
        remote_pass::<E>(local, remote) == remote_pass::<E>(local2, remote),
    decreases remote.len(),
{
    if remote.len() > 0 {
        lemma_remote_pass_same_local::<E>(local, local2, remote.drop_last());
        let id = E::id_of(remote.last());
        assert(lookup::<E>(local, id) == lookup::<E>(local2, id));
    }
}

/// The uploads of the local-only records are the same against two remote
/// snapshots with the same records.
proof fn lemma_local_pass_same_remote<E: SyncEntity>(
    local: Seq<E::V>,
    remote: Seq<E::V>,
    remote2: Seq<E::V>,
)
    requires
        same_records::<E>(remote, remote2),
    ensures
        local_pass::<E>(local, remote) == local_pass::<E>(local, remote2),
    decreases local.len(),
{
    if local.len() > 0 {
        lemma_local_pass_same_remote::<E>(local.drop_last(), remote, remote2);
        let id = E::id_of(local.last());
        assert(lookup::<E>(remote, id) == lookup::<E>(remote2, id));
        lemma_lookup_id::<E>(remote, id);
        lemma_lookup_id::<E>(remote2, id);
    }
}

/// The order of the records does not enter the counts: two pairs of
/// snapshots that keep the same records under the same identifiers, in
/// whatever order, give the same number of synced records and of conflicts.
pub proof fn law_counts_ignore_order<E: SyncEntity>(
    local: Seq<E::V>,
    remote: Seq<E::V>,
    local2: Seq<E::V>,
    remote2: Seq<E::V>,
)
    requires
        ids_distinct::<E>(local),
        ids_distinct::<E>(remote),
        ids_distinct::<E>(local2),
        ids_distinct::<E>(remote2),
        same_records::<E>(local, local2),
        same_records::<E>(remote, remote2),
    ensures
        synced_count(sync_plan::<E>(local, remote)) == synced_count(
            sync_plan::<E>(local2, remote2),
        ),
        conflict_count(sync_plan::<E>(local, remote)) == conflict_count(
            sync_plan::<E>(local2, remote2),
        ),
{
    lemma_counts_concat(remote_pass::<E>(local, remote), local_pass::<E>(local, remote));
    lemma_counts_concat(remote_pass::<E>(local2, remote2), local_pass::<E>(local2, remote2));
    lemma_remote_pass_same_local::<E>(local, local2, remote);
    lemma_remote_pass_counts::<E>(local2, remote, remote2);
    lemma_local_pass_same_remote::<E>(local, remote, remote2);
    lemma_local_pass_counts::<E>(local, local2, remote2);
}

/// The order of the records does not enter the outcome: once the plans of
/// two pairs of snapshots that keep the same records have been carried
/// out, each side holds the same record under every identifier in both.
pub proof fn law_outcome_ignores_order<E: SyncEntity>(
    local: Seq<E::V>,
    remote: Seq<E::V>,
    local2: Seq<E::V>,
    remote2: Seq<E::V>,
)
    requires
        ids_distinct::<E>(local),
        ids_distinct::<E>(remote),
        ids_distinct::<E>(local2),
        ids_distinct::<E>(remote2),
        same_records::<E>(local, local2),
        same_records::<E>(remote, remote2),
    ensures
        same_records::<E>(
            after_steps::<E>(local, sync_plan::<E>(local, remote), Side::Local),
            after_steps::<E>(local2, sync_plan::<E>(local2, remote2), Side::Local),
        ),
        same_records::<E>(
            after_steps::<E>(remote, sync_plan::<E>(local, remote), Side::Remote),
            after_steps::<E>(remote2, sync_plan::<E>(local2, remote2), Side::Remote),
        ),
{
    let end1 = after_steps::<E>(local, sync_plan::<E>(local, remote), Side::Local);
    let end2 = after_steps::<E>(local2, sync_plan::<E>(local2, remote2), Side::Local);
    let far1 = after_steps::<E>(remote, sync_plan::<E>(local, remote), Side::Remote);
    let far2 = after_steps::<E>(remote2, sync_plan::<E>(local2, remote2), Side::Remote);
    assert forall|id: Seq<char>| #[trigger] lookup::<E>(end1, id) == lookup::<E>(end2, id) by {
        lemma_copies_after_plan::<E>(local, remote, id);
        lemma_copies_after_plan::<E>(local2, remote2, id);
        assert(lookup::<E>(local, id) == lookup::<E>(local2, id));
        assert(lookup::<E>(remote, id) == lookup::<E>(remote2, id));
    }
    assert forall|id: Seq<char>| #[trigger] lookup::<E>(far1, id) == lookup::<E>(far2, id) by {
        lemma_copies_after_plan::<E>(local, remote, id);
        lemma_copies_after_plan::<E>(local2, remote2, id);
        assert(lookup::<E>(local, id) == lookup::<E>(local2, id));
        assert(lookup::<E>(remote, id) == lookup::<E>(remote2, id));
    }
}

/// The engine makes no record of its own, it only copies across: every
/// command of a plan is the verdict for the identifier it is about, so a
/// command that writes to the local store carries the remote record of
/// that identifier, and a command sent to the remote peer carries the local
/// one.
pub proof fn law_plan_only_copies<E: SyncEntity>(local: Seq<E::V>, remote: Seq<E::V>, at: int)
    requires
        ids_distinct::<E>(local),
        ids_distinct::<E>(remote),
        0 <= at < sync_plan::<E>(local, remote).len(),
    ensures
        ({
            let step = sync_plan::<E>(local, remote)[at];
            let id = step_id::<E>(step);
            &&& Some(step) == verdict::<E>(lookup::<E>(local, id), lookup::<E>(remote, id))
            &&& step.side() == Side::Local ==> lookup::<E>(remote, id) == Some(step.payload())
            &&& step.side() == Side::Remote ==> lookup::<E>(local, id) == Some(step.payload())
        }),
{
    let plan = sync_plan::<E>(local, remote);
    let step = plan[at];
    let id = step_id::<E>(step);
    law_one_verdict_per_identifier::<E>(local, remote, id);
    let wanted = verdict::<E>(lookup::<E>(local, id), lookup::<E>(remote, id));
    match wanted {
        Some(s) => {
            let k = choose|k: int| only_step_at::<E>(plan, id, s, k);
            assert(k == at);
        },
        None => {
            assert(false);
        },
    }
}

/// A conflict is recorded for an identifier if and only if both sides hold
/// a copy under it, the two copies carry the same timestamp, and they
/// differ.
pub proof fn law_conflict_if_and_only_if_tie<E: SyncEntity>(
    local: Seq<E::V>,
    remote: Seq<E::V>,
    id: Seq<char>,
)
    requires
        ids_distinct::<E>(local),
        ids_distinct::<E>(remote),
    ensures
        (exists|at: int|
            0 <= at < sync_plan::<E>(local, remote).len() && step_id::<E>(
                #[trigger] sync_plan::<E>(local, remote)[at],
            ) == id && sync_plan::<E>(local, remote)[at].settles_conflict()) <==> ({
            &&& lookup::<E>(local, id) matches Some(l)
            &&& lookup::<E>(remote, id) matches Some(r)
            &&& E::modified_of(l) == E::modified_of(r)
            &&& l != r
        }),
{
    let plan = sync_plan::<E>(local, remote);
    law_one_verdict_per_identifier::<E>(local, remote, id);
    let wanted = verdict::<E>(lookup::<E>(local, id), lookup::<E>(remote, id));
    if let (Some(l), Some(r)) = (lookup::<E>(local, id), lookup::<E>(remote, id)) {
        lemma_later_than_total(E::modified_of(l), E::modified_of(r));
    }
    match wanted {
        Some(s) => {
            let k = choose|k: int| only_step_at::<E>(plan, id, s, k);
            assert(plan[k] == s);
            if exists|at: int|
                0 <= at < plan.len() && step_id::<E>(#[trigger] plan[at]) == id
                    && plan[at].settles_conflict() {
                let at = choose|at: int|
                    0 <= at < plan.len() && step_id::<E>(#[trigger] plan[at]) == id
                        && plan[at].settles_conflict();
                assert(at == k);
            }
        },
        None => {},
    }
}

/// No timestamp is rolled back: once the plan has been carried out, the
/// copy that a side holds under an identifier is not older than the copy
/// that it held before.
pub proof fn law_timestamps_never_go_back<E: SyncEntity>(
    local: Seq<E::V>,
    remote: Seq<E::V>,
    id: Seq<char>,
)
    requires
        ids_distinct::<E>(local),
        ids_distinct::<E>(remote),
    ensures
        ({
            let plan = sync_plan::<E>(local, remote);
            let local2 = after_steps::<E>(local, plan, Side::Local);
            let remote2 = after_steps::<E>(remote, plan, Side::Remote);
            &&& lookup::<E>(local, id) matches Some(before) ==> lookup::<E>(local2, id) matches Some(
                after,
            ) && !E::modified_of(before).later_than(E::modified_of(after))
            &&& lookup::<E>(remote, id) matches Some(before) ==> lookup::<E>(
                remote2,
                id,
            ) matches Some(after) && !E::modified_of(before).later_than(E::modified_of(after))
        }),
{
    lemma_copies_after_plan::<E>(local, remote, id);
    if let Some(l) = lookup::<E>(local, id) {
        lemma_later_than_total(E::modified_of(l), E::modified_of(l));
        if let Some(r) = lookup::<E>(remote, id) {
            lemma_later_than_total(E::modified_of(l), E::modified_of(r));
        }
    }
    if let Some(r) = lookup::<E>(remote, id) {
        lemma_later_than_total(E::modified_of(r), E::modified_of(r));
    }
}

} // verus!
