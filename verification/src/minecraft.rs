//! The declared custom resource and the manifest builder: pure functions
//! deriving the desired child manifests (stateful workload, network service,
//! storage claim) from one observed custom-resource instance. Child names,
//! labels and the port table are fixed by rule; only the exposure flag and
//! the declared spec values vary the output.

use vstd::prelude::*;
use vstd::string::StringExecFns;

use crate::manifest::{
    Container, ContainerPort, ContainerPortView, ContainerView, EnvVar, EnvVarSource, EnvVarView,
    FileKeySelector, KeySelector, ObjectFieldSelector, ObjectMeta, ObjectMetaView, OwnerReference,
    OwnerReferenceView, PersistentVolumeClaim, PersistentVolumeClaimView, PodTemplateSpec,
    PodTemplateSpecView, ResourceFieldSelector, Service, ServicePort, ServicePortView,
    ServiceView, StatefulSet, StatefulSetSpec, StatefulSetSpecView, StatefulSetView, VolumeMount,
    VolumeMountView,
};

verus! {

/// The declared game mode of the server world.
#[derive(Debug, Clone, Copy, PartialEq, Eq, Structural)]
pub enum GameMode {
    Survival,
    Crative,
    Adventure,
    Spectator,
}

/// Server configuration inside the declared spec.
#[derive(Debug, Clone, PartialEq)]
pub struct Server {
    /// The world name shown as the server's message of the day.
    pub motd: String,
    pub game_mode: GameMode,
    /// Optional environment variable overrides for the container.
    pub env: Option<Vec<EnvVar>>,
}

/// The view of an optional environment list.
pub open spec fn env_view(e: Option<Vec<EnvVar>>) -> Option<Seq<EnvVarView>> {
    match e {
        Option::Some(vs) => Option::Some(vs@.map_values(|x: EnvVar| x@)),
        Option::None => Option::None,
    }
}

#[verifier::ext_equal]
pub struct ServerView {
    pub motd: Seq<char>,
    pub game_mode: GameMode,
    pub env: Option<Seq<EnvVarView>>,
}

impl View for Server {
    type V = ServerView;

    open spec fn view(&self) -> ServerView {
        ServerView { motd: self.motd@, game_mode: self.game_mode, env: env_view(self.env) }
    }
}

/// Declared data storage for the server.
#[derive(Debug, Clone, PartialEq)]
pub struct MinecraftStorage {
    /// Storage capacity, written as a quantity such as `10Gi`.
    pub size: String,
    /// Path the data volume is mounted at inside the container.
    pub mount_path: String,
    /// Name of the storage class the claim is bound to.
    pub storage_class_name: String,
}

#[verifier::ext_equal]
pub struct MinecraftStorageView {
    pub size: Seq<char>,
    pub mount_path: Seq<char>,
    pub storage_class_name: Seq<char>,
}

impl View for MinecraftStorage {
    type V = MinecraftStorageView;

    open spec fn view(&self) -> MinecraftStorageView {
        MinecraftStorageView {
            size: self.size@,
            mount_path: self.mount_path@,
            storage_class_name: self.storage_class_name@,
        }
    }
}

/// The declared desired state: immutable input to reconciliation.
#[derive(Debug, Clone, PartialEq)]
pub struct MinecraftSpec {
    pub image: String,
    pub server: Server,
    pub storage: MinecraftStorage,
    /// Whether the service exposes node-level ports.
    pub enable_node_port: bool,
}

#[verifier::ext_equal]
pub struct MinecraftSpecView {
    pub image: Seq<char>,
    pub server: ServerView,
    pub storage: MinecraftStorageView,
    pub enable_node_port: bool,
}

impl View for MinecraftSpec {
    type V = MinecraftSpecView;

    open spec fn view(&self) -> MinecraftSpecView {
        MinecraftSpecView {
            image: self.image@,
            server: self.server@,
            storage: self.storage@,
            enable_node_port: self.enable_node_port,
        }
    }
}

/// What the reconciler reads of the parent object's metadata: its identity,
/// whether deletion is pending, and whether the finalizer marker is attached.
#[derive(Debug, Clone, PartialEq)]
pub struct ParentMeta {
    pub name: String,
    pub namespace: String,
    pub uid: String,
    /// True when the platform has stamped a deletion timestamp on the object.
    pub deletion_pending: bool,
    /// True when this controller's finalizer marker is attached.
    pub finalizer_present: bool,
}

#[verifier::ext_equal]
pub struct ParentMetaView {
    pub name: Seq<char>,
    pub namespace: Seq<char>,
    pub uid: Seq<char>,
    pub deletion_pending: bool,
    pub finalizer_present: bool,
}

impl View for ParentMeta {
    type V = ParentMetaView;

    open spec fn view(&self) -> ParentMetaView {
        ParentMetaView {
            name: self.name@,
            namespace: self.namespace@,
            uid: self.uid@,
            deletion_pending: self.deletion_pending,
            finalizer_present: self.finalizer_present,
        }
    }
}

/// One observed custom-resource instance.
#[derive(Debug, Clone, PartialEq)]
pub struct Minecraft {
    pub metadata: ParentMeta,
    pub spec: MinecraftSpec,
}

#[verifier::ext_equal]
pub struct MinecraftView {
    pub metadata: ParentMetaView,
    pub spec: MinecraftSpecView,
}

impl View for Minecraft {
    type V = MinecraftView;

    open spec fn view(&self) -> MinecraftView {
        MinecraftView { metadata: self.metadata@, spec: self.spec@ }
    }
}

// ---------------------------------------------------------------------------
// Naming and shared pieces
// ---------------------------------------------------------------------------

/// Child resource name: a fixed prefix followed by the parent's name.
pub open spec fn spec_child_name(m: MinecraftView) -> Seq<char> {
    "minecraft-"@ + m.metadata.name
}

/// Name of the data claim and its volume: the child name plus a fixed suffix.
pub open spec fn spec_data_name(m: MinecraftView) -> Seq<char> {
    spec_child_name(m) + "-data"@
}

/// The label set shared by all children, so the service selector matches the
/// workload's pods.
pub open spec fn spec_default_labels() -> Seq<(Seq<char>, Seq<char>)> {
    seq![("app"@, "minecraft"@)]
}

/// The owner reference every directly applied child carries, built from the
/// parent's current identity.
pub open spec fn spec_owner_reference(m: MinecraftView) -> OwnerReferenceView {
    OwnerReferenceView {
        api_version: "guni.dev/v1"@,
        kind: "Minecraft"@,
        name: m.metadata.name,
        uid: m.metadata.uid,
        controller: true,
    }
}

/// Metadata of a directly applied child: given name, shared labels, and the
/// owner reference back to the parent.
pub open spec fn spec_default_metadata(m: MinecraftView, name: Seq<char>) -> ObjectMetaView {
    ObjectMetaView {
        name: name,
        labels: spec_default_labels(),
        owner_references: seq![spec_owner_reference(m)],
    }
}

/// The fixed container port table: game protocol over TCP and UDP, remote
/// console over UDP.
pub open spec fn spec_default_ports() -> Seq<ContainerPortView> {
    seq![
        ContainerPortView { name: "minecraft-tcp"@, container_port: 25565, protocol: "TCP"@ },
        ContainerPortView { name: "minecraft-udp"@, container_port: 25565, protocol: "UDP"@ },
        ContainerPortView { name: "minecraft-rcon"@, container_port: 25575, protocol: "UDP"@ },
    ]
}

/// A node-level port number, present exactly when exposure is enabled.
pub open spec fn spec_node_port(enable: bool, number: i32) -> Option<i32> {
    if enable {
        Option::Some(number)
    } else {
        Option::None
    }
}

/// The fixed service port table; the node-level numbers switch on the
/// exposure flag.
pub open spec fn spec_default_service_ports(enable: bool) -> Seq<ServicePortView> {
    seq![
        ServicePortView {
            name: "minecraft-tcp"@,
            port: 25565,
            protocol: "TCP"@,
            target_port: 25565,
            node_port: spec_node_port(enable, 30565),
        },
        ServicePortView {
            name: "minecraft-udp"@,
            port: 25565,
            protocol: "UDP"@,
            target_port: 25565,
            node_port: spec_node_port(enable, 30565),
        },
        ServicePortView {
            name: "minecraft-rcon"@,
            port: 25575,
            protocol: "UDP"@,
            target_port: 25575,
            node_port: spec_node_port(enable, 30575),
        },
    ]
}

/// The storage claim list templated into the workload: one claim named after
/// the volume, mounted once read-write, sized and classed per the spec.
pub open spec fn spec_volume_claim(m: MinecraftView, name: Seq<char>) -> Seq<
    PersistentVolumeClaimView,
> {
    seq![
        PersistentVolumeClaimView {
            metadata: ObjectMetaView {
                name: name + "-data"@,
                labels: spec_default_labels(),
                owner_references: seq![],
            },
            access_modes: seq!["ReadWriteOnce"@],
            storage_class_name: m.spec.storage.storage_class_name,
            storage_request: m.spec.storage.size,
        },
    ]
}

/// The desired stateful workload: one replica of a pod with one container
/// running the declared image, the declared environment, the fixed port
/// table, and the data volume mounted at the declared path.
pub open spec fn spec_build_statefulset(m: MinecraftView) -> StatefulSetView {
    let name = spec_child_name(m);
    StatefulSetView {
        metadata: spec_default_metadata(m, name),
        spec: StatefulSetSpecView {
            replicas: 1,
            service_name: name,
            selector: spec_default_labels(),
            template: PodTemplateSpecView {
                metadata: spec_default_metadata(m, name),
                containers: seq![
                    ContainerView {
                        name: "minecraft-server"@,
                        image: m.spec.image,
                        env: m.spec.server.env,
                        ports: spec_default_ports(),
                        volume_mounts: seq![
                            VolumeMountView {
                                name: spec_data_name(m),
                                mount_path: m.spec.storage.mount_path,
                                read_only: false,
                            },
                        ],
                    },
                ],
            },
            volume_claim_templates: spec_volume_claim(m, name),
        },
    }
}

/// The desired network service: shared selector, fixed port table, and the
/// internal-only or externally reachable kind per the exposure flag.
pub open spec fn spec_build_service(m: MinecraftView) -> ServiceView {
    let name = spec_child_name(m);
    ServiceView {
        metadata: spec_default_metadata(m, name),
        selector: spec_default_labels(),
        ports: spec_default_service_ports(m.spec.enable_node_port),
        type_: if m.spec.enable_node_port {
            "NodePort"@
        } else {
            "ClusterIP"@
        },
    }
}

// ---------------------------------------------------------------------------
// Executable builders
// ---------------------------------------------------------------------------

/// Duplicates an optional plain string, preserving the value.
fn clone_opt_string(v: &Option<String>) -> (r: Option<String>)
    ensures
        r == *v,
{
    match v {
        Option::Some(s) => Option::Some(s.clone()),
        Option::None => Option::None,
    }
}

/// Duplicates an optional key selector, preserving the value.
fn clone_opt_key_selector(v: &Option<KeySelector>) -> (r: Option<KeySelector>)
    ensures
        r == *v,
{
    match v {
        Option::Some(s) => Option::Some(
            KeySelector { key: s.key.clone(), name: s.name.clone(), optional: s.optional },
        ),
        Option::None => Option::None,
    }
}

/// Duplicates an environment value source, preserving the value.
fn clone_env_source(s: &EnvVarSource) -> (r: EnvVarSource)
    ensures
        r == *s,
{
    EnvVarSource {
        config_map_key_ref: clone_opt_key_selector(&s.config_map_key_ref),
        field_ref: match &s.field_ref {
            Option::Some(f) => Option::Some(
                ObjectFieldSelector {
                    api_version: clone_opt_string(&f.api_version),
                    field_path: f.field_path.clone(),
                },
            ),
            Option::None => Option::None,
        },
        file_key_ref: match &s.file_key_ref {
            Option::Some(f) => Option::Some(
                FileKeySelector {
                    key: f.key.clone(),
                    optional: f.optional,
                    path: f.path.clone(),
                    volume_name: f.volume_name.clone(),
                },
            ),
            Option::None => Option::None,
        },
        resource_field_ref: match &s.resource_field_ref {
            Option::Some(f) => Option::Some(
                ResourceFieldSelector {
                    container_name: clone_opt_string(&f.container_name),
                    divisor: clone_opt_string(&f.divisor),
                    resource: f.resource.clone(),
                },
            ),
            Option::None => Option::None,
        },
        secret_key_ref: clone_opt_key_selector(&s.secret_key_ref),
    }
}

/// Duplicates one environment variable, preserving the value.
fn clone_env_var(e: &EnvVar) -> (r: EnvVar)
    ensures
        r == *e,
{
    EnvVar {
        name: e.name.clone(),
        value: clone_opt_string(&e.value),
        value_from: match &e.value_from {
            Option::Some(s) => Option::Some(clone_env_source(s)),
            Option::None => Option::None,
        },
    }
}

/// Duplicates an optional environment list, preserving its view.
fn clone_env(e: &Option<Vec<EnvVar>>) -> (r: Option<Vec<EnvVar>>)
    ensures
        env_view(r) == env_view(*e),
{
    match e {
        Option::None => Option::None,
        Option::Some(vs) => {
            let mut out: Vec<EnvVar> = Vec::new();
            let mut i: usize = 0;
            while i < vs.len()
                invariant
                    i <= vs.len(),
                    out@.len() == i as int,
                    forall|j: int| 0 <= j < i ==> #[trigger] out@[j] == vs@[j],
                decreases vs.len() - i,
            {
                out.push(clone_env_var(&vs[i]));
                i += 1;
            }
            proof {
                assert(out@ =~= vs@);
            }
            Option::Some(out)
        },
    }
}

impl Minecraft {
    /// The deterministic name shared by the workload and the service.
    pub fn name(&self) -> (r: String)
        ensures
            r@ == spec_child_name(self@),
    {
        String::from_str("minecraft-").concat(self.metadata.name.as_str())
    }

    /// The label set stamped on every child.
    pub fn default_labels(&self) -> (r: Vec<(String, String)>)
        ensures
            crate::manifest::labels_view(r@) == spec_default_labels(),
    {
        let mut labels: Vec<(String, String)> = Vec::new();
        labels.push((String::from_str("app"), String::from_str("minecraft")));
        proof {
            assert(crate::manifest::labels_view(labels@) =~~= spec_default_labels());
        }
        labels
    }

    /// The owner reference children carry back to this instance.
    pub fn controller_owner_ref(&self) -> (r: OwnerReference)
        ensures
            r@ == spec_owner_reference(self@),
    {
        OwnerReference {
            api_version: String::from_str("guni.dev/v1"),
            kind: String::from_str("Minecraft"),
            name: self.metadata.name.clone(),
            uid: self.metadata.uid.clone(),
            controller: true,
        }
    }

    /// Metadata for a directly applied child of the given name.
    pub fn default_metadata(&self, name: &str) -> (r: ObjectMeta)
        ensures
            r@ == spec_default_metadata(self@, name@),
    {
        let mut owner_references: Vec<OwnerReference> = Vec::new();
        owner_references.push(self.controller_owner_ref());
        let r = ObjectMeta {
            name: String::from_str(name),
            labels: self.default_labels(),
            owner_references,
        };
        proof {
            assert(r@ =~~= spec_default_metadata(self@, name@));
        }
        r
    }

    /// The fixed container port table.
    pub fn default_ports(&self) -> (r: Vec<ContainerPort>)
        ensures
            crate::manifest::container_ports_view(r@) == spec_default_ports(),
    {
        let mut ports: Vec<ContainerPort> = Vec::new();
        ports.push(
            ContainerPort {
                name: String::from_str("minecraft-tcp"),
                container_port: 25565,
                protocol: String::from_str("TCP"),
            },
        );
        ports.push(
            ContainerPort {
                name: String::from_str("minecraft-udp"),
                container_port: 25565,
                protocol: String::from_str("UDP"),
            },
        );
        ports.push(
            ContainerPort {
                name: String::from_str("minecraft-rcon"),
                container_port: 25575,
                protocol: String::from_str("UDP"),
            },
        );
        proof {
            assert(crate::manifest::container_ports_view(ports@) =~~= spec_default_ports());
        }
        ports
    }

    /// The fixed service port table, with node-level numbers exactly when
    /// exposure is enabled.
    pub fn default_service_ports(&self) -> (r: Vec<ServicePort>)
        ensures
            crate::manifest::service_ports_view(r@) == spec_default_service_ports(
                self.spec.enable_node_port,
            ),
    {
        let enable = self.spec.enable_node_port;
        let mut ports: Vec<ServicePort> = Vec::new();
        ports.push(
            ServicePort {
                name: String::from_str("minecraft-tcp"),
                port: 25565,
                protocol: String::from_str("TCP"),
                target_port: 25565,
                node_port: if enable {
                    Option::Some(30565)
                } else {
                    Option::None
                },
            },
        );
        ports.push(
            ServicePort {
                name: String::from_str("minecraft-udp"),
                port: 25565,
                protocol: String::from_str("UDP"),
                target_port: 25565,
                node_port: if enable {
                    Option::Some(30565)
                } else {
                    Option::None
                },
            },
        );
        ports.push(
            ServicePort {
                name: String::from_str("minecraft-rcon"),
                port: 25575,
                protocol: String::from_str("UDP"),
                target_port: 25575,
                node_port: if enable {
                    Option::Some(30575)
                } else {
                    Option::None
                },
            },
        );
        proof {
            assert(crate::manifest::service_ports_view(ports@) =~~= spec_default_service_ports(
                enable,
            ));
        }
        ports
    }

    /// The storage claim list templated into the workload.
    pub fn volume_claim(&self, name: &str) -> (r: Vec<PersistentVolumeClaim>)
        ensures
            crate::manifest::claims_view(r@) == spec_volume_claim(self@, name@),
    {
        let mut access_modes: Vec<String> = Vec::new();
        access_modes.push(String::from_str("ReadWriteOnce"));
        let claim = PersistentVolumeClaim {
            metadata: ObjectMeta {
                name: String::from_str(name).concat("-data"),
                labels: self.default_labels(),
                owner_references: Vec::new(),
            },
            access_modes,
            storage_class_name: self.spec.storage.storage_class_name.clone(),
            storage_request: self.spec.storage.size.clone(),
        };
        let mut claims: Vec<PersistentVolumeClaim> = Vec::new();
        claims.push(claim);
        proof {
            assert(crate::manifest::claims_view(claims@) =~~= spec_volume_claim(self@, name@));
        }
        claims
    }

    /// Builds the desired stateful workload manifest.
    pub fn build_statefulset(&self) -> (r: StatefulSet)
        ensures
            r@ == spec_build_statefulset(self@),
    {
        let name = self.name();

        let mut volume_mounts: Vec<VolumeMount> = Vec::new();
        volume_mounts.push(
            VolumeMount {
                name: String::from_str(name.as_str()).concat("-data"),
                mount_path: self.spec.storage.mount_path.clone(),
                read_only: false,
            },
        );

        let mut containers: Vec<Container> = Vec::new();
        containers.push(
            Container {
                name: String::from_str("minecraft-server"),
                image: self.spec.image.clone(),
                env: clone_env(&self.spec.server.env),
                ports: self.default_ports(),
                volume_mounts,
            },
        );

        let statefulset_spec = StatefulSetSpec {
            replicas: 1,
            service_name: name.clone(),
            selector: self.default_labels(),
            template: PodTemplateSpec {
                metadata: self.default_metadata(name.as_str()),
                containers,
            },
            volume_claim_templates: self.volume_claim(name.as_str()),
        };

        let r = StatefulSet { metadata: self.default_metadata(name.as_str()), spec: statefulset_spec };
        proof {
            assert(r@ =~~= spec_build_statefulset(self@));
        }
        r
    }

    /// Builds the desired network service manifest.
    pub fn build_service(&self) -> (r: Service)
        ensures
            r@ == spec_build_service(self@),
    {
        let name = self.name();
        let type_ = if self.spec.enable_node_port {
            String::from_str("NodePort")
        } else {
            String::from_str("ClusterIP")
        };

        let r = Service {
            metadata: self.default_metadata(name.as_str()),
            selector: self.default_labels(),
            ports: self.default_service_ports(),
            type_,
        };
        proof {
            assert(r@ =~~= spec_build_service(self@));
        }
        r
    }
}

// ---------------------------------------------------------------------------
// Stated properties of the builders
// ---------------------------------------------------------------------------

/// The builders are pure: structurally equal inputs give structurally equal
/// workload, service and storage-claim manifests.
pub proof fn lemma_builders_deterministic(a: MinecraftView, b: MinecraftView)
    requires
        a == b,
    ensures
        spec_build_statefulset(a) == spec_build_statefulset(b),
        spec_build_service(a) == spec_build_service(b),
        spec_volume_claim(a, spec_child_name(a)) == spec_volume_claim(b, spec_child_name(b)),
{
}

/// When the exposure flag is set, the three service ports carry the fixed
/// node-level numbers and the service is of the externally reachable kind;
/// when it is clear, no node-level number is set and the service is
/// internal-only.
pub proof fn lemma_exposure_flag(m: MinecraftView)
    ensures
        spec_build_service(m).ports.len() == 3,
        m.spec.enable_node_port ==> spec_build_service(m).ports[0].node_port == Option::Some(
            30565i32,
        ),
        m.spec.enable_node_port ==> spec_build_service(m).ports[1].node_port == Option::Some(
            30565i32,
        ),
        m.spec.enable_node_port ==> spec_build_service(m).ports[2].node_port == Option::Some(
            30575i32,
        ),
        m.spec.enable_node_port ==> spec_build_service(m).type_ == "NodePort"@,
        !m.spec.enable_node_port ==> (forall|i: int|
            0 <= i < 3 ==> spec_build_service(m).ports[i].node_port is None),
        !m.spec.enable_node_port ==> spec_build_service(m).type_ == "ClusterIP"@,
{
}

} // verus!
