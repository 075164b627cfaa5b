use minecraft_operator::manifest::{EnvVar, EnvVarSource, KeySelector};
use minecraft_operator::minecraft::{
    GameMode, Minecraft, MinecraftSpec, MinecraftStorage, ParentMeta, Server,
};

fn sample(enable_node_port: bool) -> Minecraft {
    Minecraft {
        metadata: ParentMeta {
            name: "mc1".to_string(),
            namespace: "default".to_string(),
            uid: "uid-1234".to_string(),
            deletion_pending: false,
            finalizer_present: true,
        },
        spec: MinecraftSpec {
            image: "itzg/minecraft-server".to_string(),
            server: Server {
                motd: "world".to_string(),
                game_mode: GameMode::Survival,
                env: None,
            },
            storage: MinecraftStorage {
                size: "10Gi".to_string(),
                mount_path: "/data".to_string(),
                storage_class_name: "standard".to_string(),
            },
            enable_node_port,
        },
    }
}

#[test]
fn child_name_is_prefixed_parent_name() {
    let mc = sample(false);
    assert_eq!(mc.name(), "minecraft-mc1".to_string());
}

#[test]
fn default_labels_select_the_app() {
    let mc = sample(false);
    let labels = mc.default_labels();
    assert_eq!(labels, vec![("app".to_string(), "minecraft".to_string())]);
}

#[test]
fn owner_reference_points_back_at_parent() {
    let mc = sample(false);
    let or = mc.controller_owner_ref();
    assert_eq!(or.api_version, "guni.dev/v1".to_string());
    assert_eq!(or.kind, "Minecraft".to_string());
    assert_eq!(or.name, "mc1".to_string());
    assert_eq!(or.uid, "uid-1234".to_string());
    assert!(or.controller);
}

#[test]
fn workload_matches_declared_spec() {
    let mc = sample(false);
    let sts = mc.build_statefulset();

    assert_eq!(sts.metadata.name, "minecraft-mc1".to_string());
    assert_eq!(sts.metadata.labels, mc.default_labels());
    assert_eq!(sts.metadata.owner_references.len(), 1);

    assert_eq!(sts.spec.replicas, 1);
    assert_eq!(sts.spec.service_name, "minecraft-mc1".to_string());
    assert_eq!(sts.spec.selector, mc.default_labels());

    assert_eq!(sts.spec.template.containers.len(), 1);
    let c = &sts.spec.template.containers[0];
    assert_eq!(c.name, "minecraft-server".to_string());
    assert_eq!(c.image, "itzg/minecraft-server".to_string());
    assert_eq!(c.env, None);
    assert_eq!(c.ports.len(), 3);
    assert_eq!(c.volume_mounts.len(), 1);
    assert_eq!(c.volume_mounts[0].name, "minecraft-mc1-data".to_string());
    assert_eq!(c.volume_mounts[0].mount_path, "/data".to_string());
    assert!(!c.volume_mounts[0].read_only);
}

#[test]
fn storage_claim_is_sized_and_classed_per_spec() {
    let mc = sample(false);
    let sts = mc.build_statefulset();

    assert_eq!(sts.spec.volume_claim_templates.len(), 1);
    let claim = &sts.spec.volume_claim_templates[0];
    assert_eq!(claim.metadata.name, "minecraft-mc1-data".to_string());
    assert_eq!(claim.metadata.labels, mc.default_labels());
    assert!(claim.metadata.owner_references.is_empty());
    assert_eq!(claim.access_modes, vec!["ReadWriteOnce".to_string()]);
    assert_eq!(claim.storage_class_name, "standard".to_string());
    assert_eq!(claim.storage_request, "10Gi".to_string());
}

#[test]
fn container_port_table_is_fixed() {
    let mc = sample(false);
    let ports = mc.default_ports();
    assert_eq!(ports.len(), 3);
    assert_eq!(ports[0].name, "minecraft-tcp".to_string());
    assert_eq!(ports[0].container_port, 25565);
    assert_eq!(ports[0].protocol, "TCP".to_string());
    assert_eq!(ports[1].name, "minecraft-udp".to_string());
    assert_eq!(ports[1].container_port, 25565);
    assert_eq!(ports[1].protocol, "UDP".to_string());
    assert_eq!(ports[2].name, "minecraft-rcon".to_string());
    assert_eq!(ports[2].container_port, 25575);
    assert_eq!(ports[2].protocol, "UDP".to_string());
}

#[test]
fn internal_service_has_no_node_ports() {
    let mc = sample(false);
    let svc = mc.build_service();
    assert_eq!(svc.type_, "ClusterIP".to_string());
    assert_eq!(svc.selector, mc.default_labels());
    assert_eq!(svc.ports.len(), 3);
    for p in &svc.ports {
        assert_eq!(p.node_port, None);
    }
    assert_eq!(svc.ports[0].port, 25565);
    assert_eq!(svc.ports[0].target_port, 25565);
    assert_eq!(svc.ports[0].protocol, "TCP".to_string());
    assert_eq!(svc.ports[1].port, 25565);
    assert_eq!(svc.ports[1].protocol, "UDP".to_string());
    assert_eq!(svc.ports[2].port, 25575);
    assert_eq!(svc.ports[2].target_port, 25575);
    assert_eq!(svc.ports[2].protocol, "UDP".to_string());
}

#[test]
fn exposed_service_carries_fixed_node_ports() {
    let mc = sample(true);
    let svc = mc.build_service();
    assert_eq!(svc.type_, "NodePort".to_string());
    assert_eq!(svc.ports.len(), 3);
    assert_eq!(svc.ports[0].node_port, Some(30565));
    assert_eq!(svc.ports[1].node_port, Some(30565));
    assert_eq!(svc.ports[2].node_port, Some(30575));
}

#[test]
fn exposure_flip_changes_only_the_service() {
    let internal = sample(false);
    let exposed = sample(true);
    assert_eq!(internal.build_statefulset(), exposed.build_statefulset());
    assert_ne!(internal.build_service(), exposed.build_service());
    assert_eq!(exposed.build_service().type_, "NodePort".to_string());
}

#[test]
fn builders_are_deterministic() {
    let mc = sample(true);
    assert_eq!(mc.build_statefulset(), mc.build_statefulset());
    assert_eq!(mc.build_service(), mc.build_service());
    assert_eq!(
        mc.volume_claim(&mc.name()),
        mc.volume_claim(&mc.name())
    );
}

#[test]
fn environment_overrides_are_carried_into_the_container() {
    let mut mc = sample(false);
    mc.spec.server.env = Some(vec![
        EnvVar { name: "EULA".to_string(), value: Some("TRUE".to_string()), value_from: None },
        EnvVar { name: "MOTD".to_string(), value: None, value_from: None },
    ]);
    let sts = mc.build_statefulset();
    let env = sts.spec.template.containers[0].env.as_ref().unwrap();
    assert_eq!(env.len(), 2);
    assert_eq!(env[0].name, "EULA".to_string());
    assert_eq!(env[0].value, Some("TRUE".to_string()));
    assert_eq!(env[1].name, "MOTD".to_string());
    assert_eq!(env[1].value, None);
}

#[test]
fn environment_source_references_are_carried_untouched() {
    let mut mc = sample(false);
    let source = EnvVarSource {
        config_map_key_ref: None,
        field_ref: None,
        file_key_ref: None,
        resource_field_ref: None,
        secret_key_ref: Some(KeySelector {
            key: "password".to_string(),
            name: "rcon-secret".to_string(),
            optional: Some(false),
        }),
    };
    mc.spec.server.env = Some(vec![EnvVar {
        name: "RCON_PASSWORD".to_string(),
        value: None,
        value_from: Some(source.clone()),
    }]);
    let sts = mc.build_statefulset();
    let env = sts.spec.template.containers[0].env.as_ref().unwrap();
    assert_eq!(env.len(), 1);
    assert_eq!(env[0].name, "RCON_PASSWORD".to_string());
    assert_eq!(env[0].value, None);
    assert_eq!(env[0].value_from, Some(source));
}
