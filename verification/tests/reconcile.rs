use minecraft_operator::controller::{
    error_policy, finish_delete, reconcile, Action, DeleteStatus, Diagnostics, EventType, Metrics,
    Operation, REQUEUE_SECONDS,
};
use minecraft_operator::minecraft::{
    GameMode, Minecraft, MinecraftSpec, MinecraftStorage, ParentMeta, Server,
};
use minecraft_operator::Error;

fn observed(name: &str, deletion_pending: bool, finalizer_present: bool) -> Minecraft {
    Minecraft {
        metadata: ParentMeta {
            name: name.to_string(),
            namespace: "default".to_string(),
            uid: "uid-1234".to_string(),
            deletion_pending,
            finalizer_present,
        },
        spec: MinecraftSpec {
            image: "itzg/minecraft-server".to_string(),
            server: Server {
                motd: "world".to_string(),
                game_mode: GameMode::Survival,
                env: None,
            },
            storage: MinecraftStorage {
                size: "10Gi".to_string(),
                mount_path: "/data".to_string(),
                storage_class_name: "standard".to_string(),
            },
            enable_node_port: false,
        },
    }
}

#[test]
fn fresh_object_gets_the_marker_before_any_child() {
    let mc = observed("mc1", false, false);
    let mut diag = Diagnostics::new();
    let out = reconcile(&mc, &mut diag);
    assert_eq!(out.ops, vec![Operation::AttachFinalizer]);
    assert_eq!(out.action, Action::AwaitChange);
}

#[test]
fn apply_branch_upserts_workload_then_service() {
    let mc = observed("mc1", false, true);
    let mut diag = Diagnostics::new();
    let out = reconcile(&mc, &mut diag);
    assert_eq!(out.ops.len(), 2);
    match &out.ops[0] {
        Operation::ApplyWorkload { namespace, name, field_manager, manifest } => {
            assert_eq!(namespace, "default");
            assert_eq!(name, "minecraft-mc1");
            assert_eq!(field_manager, "minecraft-operator");
            assert_eq!(*manifest, mc.build_statefulset());
        }
        other => panic!("expected a workload apply first, got {:?}", other),
    }
    match &out.ops[1] {
        Operation::ApplyService { namespace, name, field_manager, manifest } => {
            assert_eq!(namespace, "default");
            assert_eq!(name, "minecraft-mc1");
            assert_eq!(field_manager, "minecraft-operator");
            assert_eq!(*manifest, mc.build_service());
        }
        other => panic!("expected a service apply second, got {:?}", other),
    }
    assert_eq!(out.action, Action::Requeue { seconds: REQUEUE_SECONDS });
    assert_eq!(out.action, Action::Requeue { seconds: 300 });
}

#[test]
fn applying_twice_with_unchanged_spec_plans_identical_manifests() {
    let mc = observed("mc1", false, true);
    let mut diag = Diagnostics::new();
    let first = reconcile(&mc, &mut diag);
    let second = reconcile(&mc, &mut diag);
    assert_eq!(first.ops, second.ops);
    assert_eq!(first.action, second.action);
}

#[test]
fn cleanup_deletes_service_then_workload_then_reports_then_releases() {
    let mc = observed("mc1", true, true);
    let mut diag = Diagnostics::new();
    let out = reconcile(&mc, &mut diag);
    assert_eq!(out.ops.len(), 4);
    assert_eq!(
        out.ops[0],
        Operation::DeleteService {
            namespace: "default".to_string(),
            name: "minecraft-mc1".to_string(),
        }
    );
    assert_eq!(
        out.ops[1],
        Operation::DeleteWorkload {
            namespace: "default".to_string(),
            name: "minecraft-mc1".to_string(),
        }
    );
    match &out.ops[2] {
        Operation::PublishEvent { event } => {
            assert_eq!(event.type_, EventType::Normal);
            assert_eq!(event.reason, "DeleteMinecraft".to_string());
            assert_eq!(event.note, Some("Delete `mc1`".to_string()));
            assert_eq!(event.action, "Reconciling".to_string());
        }
        other => panic!("expected the cleanup event third, got {:?}", other),
    }
    assert_eq!(out.ops[3], Operation::RemoveFinalizer);
    assert_eq!(out.action, Action::AwaitChange);
}

#[test]
fn finalized_object_needs_nothing() {
    let mc = observed("mc1", true, false);
    let mut diag = Diagnostics::new();
    let out = reconcile(&mc, &mut diag);
    assert!(out.ops.is_empty());
    assert_eq!(out.action, Action::AwaitChange);
}

#[test]
fn redeleting_an_absent_child_is_success() {
    assert_eq!(finish_delete(DeleteStatus::Deleted), Ok(()));
    assert_eq!(finish_delete(DeleteStatus::AlreadyAbsent), Ok(()));
}

#[test]
fn transport_failure_surfaces_as_finalizer_error() {
    let r = finish_delete(DeleteStatus::Failed("connection refused".to_string()));
    assert_eq!(r, Err(Error::FinalizerError("connection refused".to_string())));
}

#[test]
fn every_failure_maps_to_the_fixed_requeue() {
    let mc = observed("mc1", false, true);
    let transport = Error::FinalizerError("boom".to_string());
    let marshal = Error::SerializationError("bad field".to_string());
    assert_eq!(error_policy(&mc, &transport), Action::Requeue { seconds: 300 });
    assert_eq!(error_policy(&mc, &marshal), Action::Requeue { seconds: 300 });
}

#[test]
fn failure_on_one_object_leaves_another_unaffected() {
    let a = observed("alpha", false, true);
    let b = observed("beta", false, true);
    let mut diag = Diagnostics::new();

    let b_before = reconcile(&b, &mut diag);

    // Object a's reconciliation fails in the transport; the policy only
    // schedules a retry for a, and b's next plan is exactly what it was.
    let failure = Error::FinalizerError("simulated transport error".to_string());
    assert_eq!(error_policy(&a, &failure), Action::Requeue { seconds: 300 });

    let b_after = reconcile(&b, &mut diag);
    assert_eq!(b_before.ops, b_after.ops);
    assert_eq!(b_before.action, b_after.action);
}

#[test]
fn plans_of_distinct_objects_target_distinct_children() {
    let a = observed("alpha", false, true);
    let b = observed("beta", false, true);
    let mut diag = Diagnostics::new();
    let pa = reconcile(&a, &mut diag);
    let pb = reconcile(&b, &mut diag);
    match (&pa.ops[0], &pb.ops[0]) {
        (
            Operation::ApplyWorkload { name: na, .. },
            Operation::ApplyWorkload { name: nb, .. },
        ) => assert_ne!(na, nb),
        other => panic!("expected two workload applies, got {:?}", other),
    }
}

#[test]
fn diagnostics_carry_the_reporter_identity() {
    let diag = Diagnostics::new();
    assert_eq!(diag.reporter, "minecraft-operator".to_string());
}

#[test]
fn recording_an_event_keeps_the_reporter() {
    let mut diag = Diagnostics::new();
    diag.record_event_at(42);
    assert_eq!(diag.last_event, 42);
    assert_eq!(diag.reporter, "minecraft-operator".to_string());
    diag.record_event();
    assert_eq!(diag.reporter, "minecraft-operator".to_string());
}

#[test]
fn metrics_start_empty() {
    assert_eq!(Metrics::new(), Metrics {});
}
