//! The control-loop body. One watch notification for one custom-resource
//! instance is turned into a plan: the ordered operations the transport must
//! perform against the platform, plus a scheduling directive. The finalizer
//! state machine selects the branch; the surrounding loop performs the
//! operations in order and stops at the first failure, which `error_policy`
//! maps to the uniform retry action.

use vstd::prelude::*;
use vstd::string::StringExecFns;

use crate::manifest::{Service, ServiceView, StatefulSet, StatefulSetView};
use crate::minecraft::{
    spec_build_service, spec_build_statefulset, spec_child_name, Minecraft, MinecraftView,
};
use crate::Error;

verus! {

/// Fixed requeue delay, in seconds, after a completed apply and after any
/// failure: drift is self-healed even without new watch events.
pub const REQUEUE_SECONDS: u64 = 5 * 60;

/// Scheduling directive handed back to the control loop.
#[derive(Debug, Clone, Copy, PartialEq, Eq, Structural)]
pub enum Action {
    /// Reconsider the object after the given number of seconds.
    Requeue { seconds: u64 },
    /// Wait for the next watch notification.
    AwaitChange,
}

/// Severity of a published cluster event.
#[derive(Debug, Clone, Copy, PartialEq, Eq, Structural)]
pub enum EventType {
    Normal,
    Warning,
}

/// One event published to the cluster's event stream.
#[derive(Debug, Clone, PartialEq)]
pub struct ClusterEvent {
    pub type_: EventType,
    pub reason: String,
    pub note: Option<String>,
    pub action: String,
}

#[verifier::ext_equal]
pub struct ClusterEventView {
    pub type_: EventType,
    pub reason: Seq<char>,
    pub note: Option<Seq<char>>,
    pub action: Seq<char>,
}

impl View for ClusterEvent {
    type V = ClusterEventView;

    open spec fn view(&self) -> ClusterEventView {
        ClusterEventView {
            type_: self.type_,
            reason: self.reason@,
            note: match self.note {
                Option::Some(n) => Option::Some(n@),
                Option::None => Option::None,
            },
            action: self.action@,
        }
    }
}

/// One operation the transport performs against the platform on behalf of a
/// reconciliation. Applies are server-side merges attributed to the fixed
/// field manager; deletes are best-effort and tolerate absence.
#[derive(Debug, Clone, PartialEq)]
pub enum Operation {
    ApplyWorkload { namespace: String, name: String, field_manager: String, manifest: StatefulSet },
    ApplyService { namespace: String, name: String, field_manager: String, manifest: Service },
    DeleteService { namespace: String, name: String },
    DeleteWorkload { namespace: String, name: String },
    PublishEvent { event: ClusterEvent },
    /// Attach the finalizer marker to the parent object.
    AttachFinalizer,
    /// Remove the finalizer marker, releasing the parent for deletion.
    RemoveFinalizer,
}

#[verifier::ext_equal]
pub enum OperationView {
    ApplyWorkload {
        namespace: Seq<char>,
        name: Seq<char>,
        field_manager: Seq<char>,
        manifest: StatefulSetView,
    },
    ApplyService {
        namespace: Seq<char>,
        name: Seq<char>,
        field_manager: Seq<char>,
        manifest: ServiceView,
    },
    DeleteService { namespace: Seq<char>, name: Seq<char> },
    DeleteWorkload { namespace: Seq<char>, name: Seq<char> },
    PublishEvent { event: ClusterEventView },
    AttachFinalizer,
    RemoveFinalizer,
}

impl View for Operation {
    type V = OperationView;

    open spec fn view(&self) -> OperationView {
        match self {
            Operation::ApplyWorkload { namespace, name, field_manager, manifest } => (
            OperationView::ApplyWorkload {
                namespace: namespace@,
                name: name@,
                field_manager: field_manager@,
                manifest: manifest@,
            }),
            Operation::ApplyService { namespace, name, field_manager, manifest } => (
            OperationView::ApplyService {
                namespace: namespace@,
                name: name@,
                field_manager: field_manager@,
                manifest: manifest@,
            }),
            Operation::DeleteService { namespace, name } => (OperationView::DeleteService {
                namespace: namespace@,
                name: name@,
            }),
            Operation::DeleteWorkload { namespace, name } => (OperationView::DeleteWorkload {
                namespace: namespace@,
                name: name@,
            }),
            Operation::PublishEvent { event } => (OperationView::PublishEvent { event: event@ }),
            Operation::AttachFinalizer => OperationView::AttachFinalizer,
            Operation::RemoveFinalizer => OperationView::RemoveFinalizer,
        }
    }
}

/// The view of an operation list.
pub open spec fn ops_view(l: Seq<Operation>) -> Seq<OperationView> {
    l.map_values(|o: Operation| o@)
}

/// The plan for one notification: operations in the order the transport must
/// perform them, and the directive for when to look at the object again.
#[derive(Debug, Clone, PartialEq)]
pub struct ReconcileOutcome {
    pub ops: Vec<Operation>,
    pub action: Action,
}

#[verifier::ext_equal]
pub struct ReconcileOutcomeView {
    pub ops: Seq<OperationView>,
    pub action: Action,
}

impl View for ReconcileOutcome {
    type V = ReconcileOutcomeView;

    open spec fn view(&self) -> ReconcileOutcomeView {
        ReconcileOutcomeView { ops: ops_view(self.ops@), action: self.action }
    }
}

// ---------------------------------------------------------------------------
// The plans
// ---------------------------------------------------------------------------

/// The fixed field-manager identity all applies are attributed to, so
/// repeated applies from this controller never fight manual edits to
/// unrelated fields.
pub open spec fn spec_field_manager() -> Seq<char> {
    "minecraft-operator"@
}

/// The apply path: upsert the workload, then the service. The storage claim
/// is templated inside the workload and not applied independently.
pub open spec fn spec_apply_ops(m: MinecraftView) -> Seq<OperationView> {
    seq![
        OperationView::ApplyWorkload {
            namespace: m.metadata.namespace,
            name: spec_child_name(m),
            field_manager: spec_field_manager(),
            manifest: spec_build_statefulset(m),
        },
        OperationView::ApplyService {
            namespace: m.metadata.namespace,
            name: spec_child_name(m),
            field_manager: spec_field_manager(),
            manifest: spec_build_service(m),
        },
    ]
}

/// Deleting the service child.
pub open spec fn spec_delete_service_op(m: MinecraftView) -> OperationView {
    OperationView::DeleteService { namespace: m.metadata.namespace, name: spec_child_name(m) }
}

/// Deleting the workload child.
pub open spec fn spec_delete_workload_op(m: MinecraftView) -> OperationView {
    OperationView::DeleteWorkload { namespace: m.metadata.namespace, name: spec_child_name(m) }
}

/// The one normal-severity event recording a completed cleanup.
pub open spec fn spec_delete_event(m: MinecraftView) -> ClusterEventView {
    ClusterEventView {
        type_: EventType::Normal,
        reason: "DeleteMinecraft"@,
        note: Option::Some("Delete `"@ + m.metadata.name + "`"@),
        action: "Reconciling"@,
    }
}

/// The cleanup path: delete the service, then the workload, publish the
/// event, and only at the very end release the finalizer marker.
pub open spec fn spec_cleanup_ops(m: MinecraftView) -> Seq<OperationView> {
    seq![
        spec_delete_service_op(m),
        spec_delete_workload_op(m),
        OperationView::PublishEvent { event: spec_delete_event(m) },
        OperationView::RemoveFinalizer,
    ]
}

/// The full plan, selected by the finalizer state machine from what was
/// observed of the object: attach the marker first on a fresh object, apply
/// while it is active, clean up while it is terminating, do nothing once it
/// is finalized.
pub open spec fn spec_reconcile_plan(m: MinecraftView) -> ReconcileOutcomeView {
    if m.metadata.deletion_pending {
        if m.metadata.finalizer_present {
            ReconcileOutcomeView { ops: spec_cleanup_ops(m), action: Action::AwaitChange }
        } else {
            ReconcileOutcomeView { ops: Seq::<OperationView>::empty(), action: Action::AwaitChange }
        }
    } else {
        if m.metadata.finalizer_present {
            ReconcileOutcomeView {
                ops: spec_apply_ops(m),
                action: Action::Requeue { seconds: REQUEUE_SECONDS },
            }
        } else {
            ReconcileOutcomeView {
                ops: seq![OperationView::AttachFinalizer],
                action: Action::AwaitChange,
            }
        }
    }
}

// ---------------------------------------------------------------------------
// Diagnostics and metrics
// ---------------------------------------------------------------------------

#[verifier::external_type_specification]
#[verifier::external_body]
pub struct ExSystemTime(std::time::SystemTime);

/// Relies on std::time::SystemTime::now for the raw clock reading; nothing
/// is assumed of the value.
pub assume_specification[ std::time::SystemTime::now ]() -> (r: std::time::SystemTime);

/// Relies on std::time::SystemTime::duration_since, measured against the
/// Unix epoch: `Some` carries the whole milliseconds since the epoch, and a
/// clock standing before the epoch comes back as `None` rather than as a
/// failure.
#[verifier::external_body]
fn millis_since_epoch(t: std::time::SystemTime) -> (r: Option<u128>) {
    match t.duration_since(std::time::UNIX_EPOCH) {
        Ok(d) => Some(d.as_millis()),
        Err(_) => None,
    }
}

/// Folds one clock reading into the stored timestamp: a clock standing
/// before the epoch reads as the epoch itself, and one beyond the storable
/// range clamps to that range's end, so no clock state can stop a
/// reconciliation.
fn clamp_reading(reading: Option<u128>) -> (ts: i64)
    ensures
        ts == (match reading {
            Option::None => 0i64,
            Option::Some(ms) => if ms > (i64::MAX as u128) {
                i64::MAX
            } else {
                ms as i64
            },
        }),
{
    match reading {
        Option::None => 0,
        Option::Some(ms) => {
            if ms > (i64::MAX as u128) {
                i64::MAX
            } else {
                ms as i64
            }
        },
    }
}

/// One wall-clock reading, in milliseconds since the epoch, clamped to the
/// storable range.
fn current_timestamp_millis() -> i64 {
    clamp_reading(millis_since_epoch(std::time::SystemTime::now()))
}

/// Snapshot of last-reconcile metadata, read by the status endpoint and
/// written by every reconcile and cleanup invocation.
#[derive(Debug, Clone, PartialEq)]
pub struct Diagnostics {
    /// Wall-clock reading, in milliseconds since the epoch, of the most
    /// recent reconcile or cleanup.
    pub last_event: i64,
    /// Stable identity used for event attribution.
    pub reporter: String,
}

impl Diagnostics {
    /// A fresh snapshot carrying the fixed reporter identity.
    pub fn new() -> (r: Diagnostics)
        ensures
            r.reporter@ == spec_field_manager(),
    {
        Diagnostics {
            last_event: current_timestamp_millis(),
            reporter: String::from_str("minecraft-operator"),
        }
    }

    /// Records the given wall-clock reading as the last reconcile.
    pub fn record_event_at(&mut self, ts: i64)
        ensures
            final(self).last_event == ts,
            final(self).reporter == old(self).reporter,
    {
        self.last_event = ts;
    }

    /// Stamps the current wall-clock reading as the last reconcile.
    pub fn record_event(&mut self)
        ensures
            final(self).reporter == old(self).reporter,
    {
        let ts = current_timestamp_millis();
        self.record_event_at(ts);
    }
}

/// Metric handles exposed over the status surface; none are registered.
#[derive(Debug, Clone, Copy, PartialEq, Eq, Structural)]
pub struct Metrics {}

impl Metrics {
    pub fn new() -> (r: Metrics)
        ensures
            r == (Metrics {  }),
    {
        Metrics {  }
    }
}

// ---------------------------------------------------------------------------
// The reconciler
// ---------------------------------------------------------------------------

impl Minecraft {
    /// The apply path's operations: upsert the workload, then the service,
    /// both attributed to the fixed field manager.
    pub fn sync(&self) -> (r: Vec<Operation>)
        ensures
            ops_view(r@) == spec_apply_ops(self@),
    {
        let name = self.name();
        let mut ops: Vec<Operation> = Vec::new();
        ops.push(
            Operation::ApplyWorkload {
                namespace: self.metadata.namespace.clone(),
                name: name.clone(),
                field_manager: String::from_str("minecraft-operator"),
                manifest: self.build_statefulset(),
            },
        );
        ops.push(
            Operation::ApplyService {
                namespace: self.metadata.namespace.clone(),
                name,
                field_manager: String::from_str("minecraft-operator"),
                manifest: self.build_service(),
            },
        );
        proof {
            assert(ops_view(ops@) =~~= spec_apply_ops(self@));
        }
        ops
    }

    /// The delete of the workload child.
    pub fn delete_statefulset(&self) -> (r: Operation)
        ensures
            r@ == spec_delete_workload_op(self@),
    {
        Operation::DeleteWorkload {
            namespace: self.metadata.namespace.clone(),
            name: self.name(),
        }
    }

    /// The delete of the service child.
    pub fn delete_service(&self) -> (r: Operation)
        ensures
            r@ == spec_delete_service_op(self@),
    {
        Operation::DeleteService { namespace: self.metadata.namespace.clone(), name: self.name() }
    }

    /// The event recording this object's cleanup.
    pub fn delete_event(&self) -> (r: ClusterEvent)
        ensures
            r@ == spec_delete_event(self@),
    {
        ClusterEvent {
            type_: EventType::Normal,
            reason: String::from_str("DeleteMinecraft"),
            note: Option::Some(
                String::from_str("Delete `").concat(self.metadata.name.as_str()).concat("`"),
            ),
            action: String::from_str("Reconciling"),
        }
    }

    /// The apply branch: records the diagnostics timestamp, plans the apply
    /// operations in creation order, and asks to be reconsidered after the
    /// fixed interval so out-of-band drift is healed.
    pub fn reconcile(&self, diag: &mut Diagnostics) -> (r: ReconcileOutcome)
        ensures
            r@.ops == spec_apply_ops(self@),
            r@.action == (Action::Requeue { seconds: REQUEUE_SECONDS }),
            final(diag).reporter == old(diag).reporter,
    {
        diag.record_event();
        let ops = self.sync();
        ReconcileOutcome { ops, action: Action::Requeue { seconds: REQUEUE_SECONDS } }
    }

    /// The cleanup branch: records the diagnostics timestamp, deletes the
    /// service then the workload, publishes one event, and releases the
    /// finalizer marker only after both deletes.
    pub fn cleanup(&self, diag: &mut Diagnostics) -> (r: ReconcileOutcome)
        ensures
            r@.ops == spec_cleanup_ops(self@),
            r@.action == Action::AwaitChange,
            final(diag).reporter == old(diag).reporter,
    {
        diag.record_event();
        let mut ops: Vec<Operation> = Vec::new();
        ops.push(self.delete_service());
        ops.push(self.delete_statefulset());
        ops.push(Operation::PublishEvent { event: self.delete_event() });
        ops.push(Operation::RemoveFinalizer);
        proof {
            assert(ops_view(ops@) =~~= spec_cleanup_ops(self@));
        }
        ReconcileOutcome { ops, action: Action::AwaitChange }
    }
}

/// One reconciliation of one observed object: the finalizer state machine
/// picks the branch, and the returned plan is what the transport performs.
/// The marker is attached before any child is ever planned, and removed only
/// at the tail of a successful cleanup.
pub fn reconcile(mc: &Minecraft, diag: &mut Diagnostics) -> (r: ReconcileOutcome)
    ensures
        r@ == spec_reconcile_plan(mc@),
        final(diag).reporter == old(diag).reporter,
{
    if mc.metadata.deletion_pending {
        if mc.metadata.finalizer_present {
            let r = mc.cleanup(diag);
            proof {
                assert(r@ =~~= spec_reconcile_plan(mc@));
            }
            r
        } else {
            let r = ReconcileOutcome { ops: Vec::new(), action: Action::AwaitChange };
            proof {
                assert(r@ =~~= spec_reconcile_plan(mc@));
            }
            r
        }
    } else {
        if mc.metadata.finalizer_present {
            let r = mc.reconcile(diag);
            proof {
                assert(r@ =~~= spec_reconcile_plan(mc@));
            }
            r
        } else {
            let mut ops: Vec<Operation> = Vec::new();
            ops.push(Operation::AttachFinalizer);
            let r = ReconcileOutcome { ops, action: Action::AwaitChange };
            proof {
                assert(r@ =~~= spec_reconcile_plan(mc@));
            }
            r
        }
    }
}

/// Maps any reconciliation failure to the uniform action: a fixed-delay
/// requeue. No failure is fatal to the process, so one object's trouble
/// never stops another's reconciliation.
pub fn error_policy(_mc: &Minecraft, _error: &Error) -> (r: Action)
    ensures
        r == (Action::Requeue { seconds: REQUEUE_SECONDS }),
{
    Action::Requeue { seconds: REQUEUE_SECONDS }
}

/// What the transport reported for one delete call.
#[derive(Debug, Clone, PartialEq)]
pub enum DeleteStatus {
    /// The child existed and its deletion was accepted.
    Deleted,
    /// The child was already absent.
    AlreadyAbsent,
    /// A genuine connectivity or authorization failure, with its message.
    Failed(String),
}

/// Folds one delete outcome into the reconciliation result: deletes are
/// idempotent, so a child already absent counts as success, and only a
/// genuine transport failure becomes an error.
pub fn finish_delete(status: DeleteStatus) -> (r: Result<(), Error>)
    ensures
        r is Ok <==> !(status is Failed),
        (match status {
            DeleteStatus::Failed(m) => r == Err::<(), Error>(Error::FinalizerError(m)),
            _ => r == Ok::<(), Error>(()),
        }),
{
    match status {
        DeleteStatus::Deleted => Ok(()),
        DeleteStatus::AlreadyAbsent => Ok(()),
        DeleteStatus::Failed(m) => Err(Error::FinalizerError(m)),
    }
}

} // verus!
