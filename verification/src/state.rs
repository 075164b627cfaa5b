//! A ghost model of the slice of cluster state this controller owns, and the
//! effect of a plan on it. The transport performs a plan's operations in
//! order and stops at the first failure; the lemmas here state what any
//! completed plan does to that state: applies are idempotent, cleanup leaves
//! no child behind before the marker is released, and a plan for one object
//! never disturbs the children of another.

use vstd::prelude::*;

use crate::controller::{
    spec_apply_ops, spec_cleanup_ops, spec_delete_event, spec_reconcile_plan, ClusterEventView,
    OperationView,
};
use crate::manifest::{ServiceView, StatefulSetView};
use crate::minecraft::{spec_child_name, MinecraftView};

verus! {

/// The children this controller manages, keyed by namespace and name, plus
/// the parent's finalizer marker and the published events.
#[verifier::ext_equal]
pub struct ClusterState {
    pub workloads: Map<(Seq<char>, Seq<char>), StatefulSetView>,
    pub services: Map<(Seq<char>, Seq<char>), ServiceView>,
    pub finalizer_present: bool,
    pub events: Seq<ClusterEventView>,
}

/// The key both children of the given parent live under.
pub open spec fn child_key(m: MinecraftView) -> (Seq<char>, Seq<char>) {
    (m.metadata.namespace, spec_child_name(m))
}

/// Effect of one operation. A server-side apply upserts the manifest; a
/// delete removes the child and is a no-op when it is already absent, which
/// is what makes re-deleting an already-deleted child harmless.
pub open spec fn step_operation(s: ClusterState, op: OperationView) -> ClusterState {
    match op {
        OperationView::ApplyWorkload { namespace, name, manifest, .. } => (ClusterState {
            workloads: s.workloads.insert((namespace, name), manifest),
            services: s.services,
            finalizer_present: s.finalizer_present,
            events: s.events,
        }),
        OperationView::ApplyService { namespace, name, manifest, .. } => (ClusterState {
            workloads: s.workloads,
            services: s.services.insert((namespace, name), manifest),
            finalizer_present: s.finalizer_present,
            events: s.events,
        }),
        OperationView::DeleteService { namespace, name } => (ClusterState {
            workloads: s.workloads,
            services: s.services.remove((namespace, name)),
            finalizer_present: s.finalizer_present,
            events: s.events,
        }),
        OperationView::DeleteWorkload { namespace, name } => (ClusterState {
            workloads: s.workloads.remove((namespace, name)),
            services: s.services,
            finalizer_present: s.finalizer_present,
            events: s.events,
        }),
        OperationView::PublishEvent { event } => (ClusterState {
            workloads: s.workloads,
            services: s.services,
            finalizer_present: s.finalizer_present,
            events: s.events.push(event),
        }),
        OperationView::AttachFinalizer => (ClusterState {
            workloads: s.workloads,
            services: s.services,
            finalizer_present: true,
            events: s.events,
        }),
        OperationView::RemoveFinalizer => (ClusterState {
            workloads: s.workloads,
            services: s.services,
            finalizer_present: false,
            events: s.events,
        }),
    }
}

/// Effect of a whole plan, first operation first.
pub open spec fn run_plan(s: ClusterState, ops: Seq<OperationView>) -> ClusterState
    decreases ops.len(),
{
    if ops.len() == 0 {
        s
    } else {
        run_plan(step_operation(s, ops[0]), ops.drop_first())
    }
}

/// Whether an operation creates or updates a child resource.
pub open spec fn is_child_apply(op: OperationView) -> bool {
    op is ApplyWorkload || op is ApplyService
}

/// Whether an operation writes the workload stored under the key.
pub open spec fn touches_workload(op: OperationView, k: (Seq<char>, Seq<char>)) -> bool {
    match op {
        OperationView::ApplyWorkload { namespace, name, .. } => (namespace, name) == k,
        OperationView::DeleteWorkload { namespace, name } => (namespace, name) == k,
        _ => false,
    }
}

/// Whether an operation writes the service stored under the key.
pub open spec fn touches_service(op: OperationView, k: (Seq<char>, Seq<char>)) -> bool {
    match op {
        OperationView::ApplyService { namespace, name, .. } => (namespace, name) == k,
        OperationView::DeleteService { namespace, name } => (namespace, name) == k,
        _ => false,
    }
}

/// Applying the apply path twice in a row with an unchanged spec mutates
/// nothing on the second pass: the manifests are equal, so the second
/// server-side apply of each child stores exactly what is already there.
pub proof fn lemma_apply_plan_idempotent(s: ClusterState, m: MinecraftView)
    ensures
        run_plan(run_plan(s, spec_apply_ops(m)), spec_apply_ops(m)) == run_plan(
            s,
            spec_apply_ops(m),
        ),
{
    let p = spec_apply_ops(m);
    let s1 = step_operation(s, p[0]);
    let s2 = step_operation(s1, p[1]);
    assert(p.drop_first()[0] == p[1]);
    assert(p.drop_first().drop_first().len() == 0);
    assert(run_plan(s, p) == run_plan(s1, p.drop_first()));
    assert(run_plan(s1, p.drop_first()) == run_plan(s2, p.drop_first().drop_first()));
    assert(run_plan(s, p) == s2);

    let t1 = step_operation(s2, p[0]);
    let t2 = step_operation(t1, p[1]);
    assert(run_plan(s2, p) == run_plan(t1, p.drop_first()));
    assert(run_plan(t1, p.drop_first()) == run_plan(t2, p.drop_first().drop_first()));
    assert(run_plan(s2, p) == t2);
    assert(t2.workloads =~= s2.workloads);
    assert(t2.services =~= s2.services);
    assert(t2 =~= s2);
}

/// The finalizer ordering invariant. A plan contains a child apply only for
/// an object observed with the marker already durably attached; and wherever
/// a plan removes the marker, deletes of the service and of the workload
/// stand earlier in the same plan.
pub proof fn lemma_finalizer_ordering(m: MinecraftView)
    ensures
        forall|i: int|
            0 <= i < spec_reconcile_plan(m).ops.len() && is_child_apply(
                #[trigger] spec_reconcile_plan(m).ops[i],
            ) ==> m.metadata.finalizer_present && !m.metadata.deletion_pending,
        forall|i: int|
            0 <= i < spec_reconcile_plan(m).ops.len() && #[trigger] spec_reconcile_plan(
                m,
            ).ops[i] is RemoveFinalizer ==> (exists|j: int|
                0 <= j < i && spec_reconcile_plan(m).ops[j] is DeleteService),
        forall|i: int|
            0 <= i < spec_reconcile_plan(m).ops.len() && #[trigger] spec_reconcile_plan(
                m,
            ).ops[i] is RemoveFinalizer ==> (exists|j: int|
                0 <= j < i && spec_reconcile_plan(m).ops[j] is DeleteWorkload),
{
    let ops = spec_reconcile_plan(m).ops;
    if m.metadata.deletion_pending && m.metadata.finalizer_present {
        assert forall|i: int|
            0 <= i < ops.len() && #[trigger] ops[i] is RemoveFinalizer implies (exists|j: int|
            0 <= j < i && ops[j] is DeleteService) && (exists|j: int|
            0 <= j < i && ops[j] is DeleteWorkload) by {
            assert(i == 3);
            assert(0 <= 0 < i && ops[0] is DeleteService);
            assert(0 <= 1 < i && ops[1] is DeleteWorkload);
        }
    }
}

/// A completed cleanup leaves no child behind: both children are absent,
/// exactly one event was appended, and only at the end is the marker
/// released.
pub proof fn lemma_cleanup_effect(s: ClusterState, m: MinecraftView)
    ensures
        !run_plan(s, spec_cleanup_ops(m)).workloads.contains_key(child_key(m)),
        !run_plan(s, spec_cleanup_ops(m)).services.contains_key(child_key(m)),
        !run_plan(s, spec_cleanup_ops(m)).finalizer_present,
        run_plan(s, spec_cleanup_ops(m)).events == s.events.push(spec_delete_event(m)),
{
    let p = spec_cleanup_ops(m);
    let s1 = step_operation(s, p[0]);
    let s2 = step_operation(s1, p[1]);
    let s3 = step_operation(s2, p[2]);
    let s4 = step_operation(s3, p[3]);
    assert(p.drop_first()[0] == p[1]);
    assert(p.drop_first().drop_first()[0] == p[2]);
    assert(p.drop_first().drop_first().drop_first()[0] == p[3]);
    assert(p.drop_first().drop_first().drop_first().drop_first().len() == 0);
    assert(run_plan(s, p) == run_plan(s1, p.drop_first()));
    assert(run_plan(s1, p.drop_first()) == run_plan(s2, p.drop_first().drop_first()));
    assert(run_plan(s2, p.drop_first().drop_first()) == run_plan(
        s3,
        p.drop_first().drop_first().drop_first(),
    ));
    assert(run_plan(s3, p.drop_first().drop_first().drop_first()) == run_plan(
        s4,
        p.drop_first().drop_first().drop_first().drop_first(),
    ));
    assert(run_plan(s, p) == s4);
}

/// Concatenation with a fixed prefix is injective.
proof fn lemma_prefix_injective(p: Seq<char>, x: Seq<char>, y: Seq<char>)
    requires
        p + x == p + y,
    ensures
        x == y,
{
    assert((p + x).len() == p.len() + x.len());
    assert((p + y).len() == p.len() + y.len());
    assert(x.len() == y.len());
    assert forall|i: int| 0 <= i < x.len() implies x[i] == y[i] by {
        assert((p + x)[p.len() + i] == x[i]);
        assert((p + y)[p.len() + i] == y[i]);
    }
    assert(x =~= y);
}

/// Distinct parent identities give distinct child keys.
pub proof fn lemma_child_keys_distinct(a: MinecraftView, b: MinecraftView)
    requires
        a.metadata.namespace != b.metadata.namespace || a.metadata.name != b.metadata.name,
    ensures
        child_key(a) != child_key(b),
{
    if a.metadata.namespace == b.metadata.namespace {
        if spec_child_name(a) == spec_child_name(b) {
            lemma_prefix_injective("minecraft-"@, a.metadata.name, b.metadata.name);
        }
    }
}

/// Running any plan leaves every workload and service key it does not touch
/// exactly as it was.
pub proof fn lemma_run_plan_frame(
    s: ClusterState,
    ops: Seq<OperationView>,
    k: (Seq<char>, Seq<char>),
)
    requires
        forall|i: int| 0 <= i < ops.len() ==> !touches_workload(#[trigger] ops[i], k),
        forall|i: int| 0 <= i < ops.len() ==> !touches_service(#[trigger] ops[i], k),
    ensures
        run_plan(s, ops).workloads.contains_key(k) == s.workloads.contains_key(k),
        s.workloads.contains_key(k) ==> run_plan(s, ops).workloads[k] == s.workloads[k],
        run_plan(s, ops).services.contains_key(k) == s.services.contains_key(k),
        s.services.contains_key(k) ==> run_plan(s, ops).services[k] == s.services[k],
    decreases ops.len(),
{
    if ops.len() > 0 {
        let s1 = step_operation(s, ops[0]);
        assert(forall|i: int|
            0 <= i < ops.drop_first().len() ==> #[trigger] ops.drop_first()[i] == ops[i + 1]);
        lemma_run_plan_frame(s1, ops.drop_first(), k);
    }
}

/// Failure isolation. However much of one object's plan ran before a
/// failure stopped it, the children of any object of a different identity
/// are exactly as they were: a whole plan leaves them untouched, and so does
/// every prefix of one.
pub proof fn lemma_reconcile_isolation(s: ClusterState, a: MinecraftView, b: MinecraftView)
    requires
        a.metadata.namespace != b.metadata.namespace || a.metadata.name != b.metadata.name,
    ensures
        run_plan(s, spec_reconcile_plan(a).ops).workloads.contains_key(child_key(b))
            == s.workloads.contains_key(child_key(b)),
        s.workloads.contains_key(child_key(b)) ==> run_plan(
            s,
            spec_reconcile_plan(a).ops,
        ).workloads[child_key(b)] == s.workloads[child_key(b)],
        run_plan(s, spec_reconcile_plan(a).ops).services.contains_key(child_key(b))
            == s.services.contains_key(child_key(b)),
        s.services.contains_key(child_key(b)) ==> run_plan(
            s,
            spec_reconcile_plan(a).ops,
        ).services[child_key(b)] == s.services[child_key(b)],
{
    lemma_child_keys_distinct(a, b);
    let ops = spec_reconcile_plan(a).ops;
    let kb = child_key(b);
    assert forall|i: int| 0 <= i < ops.len() implies !touches_workload(#[trigger] ops[i], kb)
        && !touches_service(ops[i], kb) by {
        assert(child_key(a) != kb);
    }
    lemma_run_plan_frame(s, ops, kb);
}

} // verus!
