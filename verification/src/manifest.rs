//! Plain-value models of the three child resources the controller manages:
//! a stateful workload, a network service and a storage claim. The
//! orchestration platform's own object types are opaque to verification, so
//! the library holds exactly the fields the reconciliation logic reads and
//! writes; the process boundary converts these values to the platform's
//! types before any network call.

use vstd::prelude::*;

verus! {

/// The view of a label list: each pair of strings as a pair of sequences.
pub open spec fn labels_view(l: Seq<(String, String)>) -> Seq<(Seq<char>, Seq<char>)> {
    l.map_values(|p: (String, String)| (p.0@, p.1@))
}

/// The view of a list of plain strings.
pub open spec fn strings_view(l: Seq<String>) -> Seq<Seq<char>> {
    l.map_values(|s: String| s@)
}

/// Backward link from a child resource to the custom resource that owns it;
/// lets the platform garbage-collect orphans as a secondary safety net.
/// Beyond the parent's identity only the controller flag is carried; the
/// platform's remaining reference fields stay unset.
#[derive(Debug, Clone, PartialEq)]
pub struct OwnerReference {
    pub api_version: String,
    pub kind: String,
    pub name: String,
    pub uid: String,
    pub controller: bool,
}

#[verifier::ext_equal]
pub struct OwnerReferenceView {
    pub api_version: Seq<char>,
    pub kind: Seq<char>,
    pub name: Seq<char>,
    pub uid: Seq<char>,
    pub controller: bool,
}

impl View for OwnerReference {
    type V = OwnerReferenceView;

    open spec fn view(&self) -> OwnerReferenceView {
        OwnerReferenceView {
            api_version: self.api_version@,
            kind: self.kind@,
            name: self.name@,
            uid: self.uid@,
            controller: self.controller,
        }
    }
}

/// The metadata every child manifest carries: its deterministic name, the
/// shared label set, and the owner references pointing back at the parent.
#[derive(Debug, Clone, PartialEq)]
pub struct ObjectMeta {
    pub name: String,
    pub labels: Vec<(String, String)>,
    pub owner_references: Vec<OwnerReference>,
}

#[verifier::ext_equal]
pub struct ObjectMetaView {
    pub name: Seq<char>,
    pub labels: Seq<(Seq<char>, Seq<char>)>,
    pub owner_references: Seq<OwnerReferenceView>,
}

impl View for ObjectMeta {
    type V = ObjectMetaView;

    open spec fn view(&self) -> ObjectMetaView {
        ObjectMetaView {
            name: self.name@,
            labels: labels_view(self.labels@),
            owner_references: self.owner_references@.map_values(|o: OwnerReference| o@),
        }
    }
}

/// Selects a key of a named config map or secret.
#[derive(Debug, Clone, PartialEq)]
pub struct KeySelector {
    pub key: String,
    pub name: String,
    pub optional: Option<bool>,
}

#[verifier::ext_equal]
pub struct KeySelectorView {
    pub key: Seq<char>,
    pub name: Seq<char>,
    pub optional: Option<bool>,
}

impl View for KeySelector {
    type V = KeySelectorView;

    open spec fn view(&self) -> KeySelectorView {
        KeySelectorView { key: self.key@, name: self.name@, optional: self.optional }
    }
}

/// Selects a field of the pod.
#[derive(Debug, Clone, PartialEq)]
pub struct ObjectFieldSelector {
    pub api_version: Option<String>,
    pub field_path: String,
}

#[verifier::ext_equal]
pub struct ObjectFieldSelectorView {
    pub api_version: Option<Seq<char>>,
    pub field_path: Seq<char>,
}

impl View for ObjectFieldSelector {
    type V = ObjectFieldSelectorView;

    open spec fn view(&self) -> ObjectFieldSelectorView {
        ObjectFieldSelectorView {
            api_version: match self.api_version {
                Option::Some(v) => Option::Some(v@),
                Option::None => Option::None,
            },
            field_path: self.field_path@,
        }
    }
}

/// Selects a resource limit or request of the container; the divisor is a
/// quantity written as text.
#[derive(Debug, Clone, PartialEq)]
pub struct ResourceFieldSelector {
    pub container_name: Option<String>,
    pub divisor: Option<String>,
    pub resource: String,
}

#[verifier::ext_equal]
pub struct ResourceFieldSelectorView {
    pub container_name: Option<Seq<char>>,
    pub divisor: Option<Seq<char>>,
    pub resource: Seq<char>,
}

impl View for ResourceFieldSelector {
    type V = ResourceFieldSelectorView;

    open spec fn view(&self) -> ResourceFieldSelectorView {
        ResourceFieldSelectorView {
            container_name: match self.container_name {
                Option::Some(v) => Option::Some(v@),
                Option::None => Option::None,
            },
            divisor: match self.divisor {
                Option::Some(v) => Option::Some(v@),
                Option::None => Option::None,
            },
            resource: self.resource@,
        }
    }
}

/// Selects a key of a declared env file inside a volume.
#[derive(Debug, Clone, PartialEq)]
pub struct FileKeySelector {
    pub key: String,
    pub optional: Option<bool>,
    pub path: String,
    pub volume_name: String,
}

#[verifier::ext_equal]
pub struct FileKeySelectorView {
    pub key: Seq<char>,
    pub optional: Option<bool>,
    pub path: Seq<char>,
    pub volume_name: Seq<char>,
}

impl View for FileKeySelector {
    type V = FileKeySelectorView;

    open spec fn view(&self) -> FileKeySelectorView {
        FileKeySelectorView {
            key: self.key@,
            optional: self.optional,
            path: self.path@,
            volume_name: self.volume_name@,
        }
    }
}

/// Source for the value of an environment variable, carried through to the
/// container untouched: the platform resolves it, not this controller.
#[derive(Debug, Clone, PartialEq)]
pub struct EnvVarSource {
    pub config_map_key_ref: Option<KeySelector>,
    pub field_ref: Option<ObjectFieldSelector>,
    pub file_key_ref: Option<FileKeySelector>,
    pub resource_field_ref: Option<ResourceFieldSelector>,
    pub secret_key_ref: Option<KeySelector>,
}

#[verifier::ext_equal]
pub struct EnvVarSourceView {
    pub config_map_key_ref: Option<KeySelectorView>,
    pub field_ref: Option<ObjectFieldSelectorView>,
    pub file_key_ref: Option<FileKeySelectorView>,
    pub resource_field_ref: Option<ResourceFieldSelectorView>,
    pub secret_key_ref: Option<KeySelectorView>,
}

impl View for EnvVarSource {
    type V = EnvVarSourceView;

    open spec fn view(&self) -> EnvVarSourceView {
        EnvVarSourceView {
            config_map_key_ref: match self.config_map_key_ref {
                Option::Some(s) => Option::Some(s@),
                Option::None => Option::None,
            },
            field_ref: match self.field_ref {
                Option::Some(s) => Option::Some(s@),
                Option::None => Option::None,
            },
            file_key_ref: match self.file_key_ref {
                Option::Some(s) => Option::Some(s@),
                Option::None => Option::None,
            },
            resource_field_ref: match self.resource_field_ref {
                Option::Some(s) => Option::Some(s@),
                Option::None => Option::None,
            },
            secret_key_ref: match self.secret_key_ref {
                Option::Some(s) => Option::Some(s@),
                Option::None => Option::None,
            },
        }
    }
}

/// One environment variable handed to the server container: either a plain
/// value or a source reference the platform resolves.
#[derive(Debug, Clone, PartialEq)]
pub struct EnvVar {
    pub name: String,
    pub value: Option<String>,
    pub value_from: Option<EnvVarSource>,
}

#[verifier::ext_equal]
pub struct EnvVarView {
    pub name: Seq<char>,
    pub value: Option<Seq<char>>,
    pub value_from: Option<EnvVarSourceView>,
}

impl View for EnvVar {
    type V = EnvVarView;

    open spec fn view(&self) -> EnvVarView {
        EnvVarView {
            name: self.name@,
            value: match self.value {
                Option::Some(v) => Option::Some(v@),
                Option::None => Option::None,
            },
            value_from: match self.value_from {
                Option::Some(s) => Option::Some(s@),
                Option::None => Option::None,
            },
        }
    }
}

/// A port opened by the server container.
#[derive(Debug, Clone, PartialEq)]
pub struct ContainerPort {
    pub name: String,
    pub container_port: i32,
    pub protocol: String,
}

#[verifier::ext_equal]
pub struct ContainerPortView {
    pub name: Seq<char>,
    pub container_port: i32,
    pub protocol: Seq<char>,
}

impl View for ContainerPort {
    type V = ContainerPortView;

    open spec fn view(&self) -> ContainerPortView {
        ContainerPortView {
            name: self.name@,
            container_port: self.container_port,
            protocol: self.protocol@,
        }
    }
}

/// The view of a container port list.
pub open spec fn container_ports_view(l: Seq<ContainerPort>) -> Seq<ContainerPortView> {
    l.map_values(|p: ContainerPort| p@)
}

/// Where the storage claim is mounted inside the container.
#[derive(Debug, Clone, PartialEq)]
pub struct VolumeMount {
    pub name: String,
    pub mount_path: String,
    pub read_only: bool,
}

#[verifier::ext_equal]
pub struct VolumeMountView {
    pub name: Seq<char>,
    pub mount_path: Seq<char>,
    pub read_only: bool,
}

impl View for VolumeMount {
    type V = VolumeMountView;

    open spec fn view(&self) -> VolumeMountView {
        VolumeMountView {
            name: self.name@,
            mount_path: self.mount_path@,
            read_only: self.read_only,
        }
    }
}

/// The single container of the workload's pod template.
#[derive(Debug, Clone, PartialEq)]
pub struct Container {
    pub name: String,
    pub image: String,
    pub env: Option<Vec<EnvVar>>,
    pub ports: Vec<ContainerPort>,
    pub volume_mounts: Vec<VolumeMount>,
}

#[verifier::ext_equal]
pub struct ContainerView {
    pub name: Seq<char>,
    pub image: Seq<char>,
    pub env: Option<Seq<EnvVarView>>,
    pub ports: Seq<ContainerPortView>,
    pub volume_mounts: Seq<VolumeMountView>,
}

impl View for Container {
    type V = ContainerView;

    open spec fn view(&self) -> ContainerView {
        ContainerView {
            name: self.name@,
            image: self.image@,
            env: match self.env {
                Option::Some(vs) => Option::Some(vs@.map_values(|e: EnvVar| e@)),
                Option::None => Option::None,
            },
            ports: container_ports_view(self.ports@),
            volume_mounts: self.volume_mounts@.map_values(|m: VolumeMount| m@),
        }
    }
}

/// The storage claim templated into the workload: sized per the declared
/// capacity, bound to the declared storage class, mounted once read-write.
#[derive(Debug, Clone, PartialEq)]
pub struct PersistentVolumeClaim {
    pub metadata: ObjectMeta,
    pub access_modes: Vec<String>,
    pub storage_class_name: String,
    pub storage_request: String,
}

#[verifier::ext_equal]
pub struct PersistentVolumeClaimView {
    pub metadata: ObjectMetaView,
    pub access_modes: Seq<Seq<char>>,
    pub storage_class_name: Seq<char>,
    pub storage_request: Seq<char>,
}

impl View for PersistentVolumeClaim {
    type V = PersistentVolumeClaimView;

    open spec fn view(&self) -> PersistentVolumeClaimView {
        PersistentVolumeClaimView {
            metadata: self.metadata@,
            access_modes: strings_view(self.access_modes@),
            storage_class_name: self.storage_class_name@,
            storage_request: self.storage_request@,
        }
    }
}

/// The view of a storage claim list.
pub open spec fn claims_view(l: Seq<PersistentVolumeClaim>) -> Seq<PersistentVolumeClaimView> {
    l.map_values(|c: PersistentVolumeClaim| c@)
}

/// The pod template the workload stamps out.
#[derive(Debug, Clone, PartialEq)]
pub struct PodTemplateSpec {
    pub metadata: ObjectMeta,
    pub containers: Vec<Container>,
}

#[verifier::ext_equal]
pub struct PodTemplateSpecView {
    pub metadata: ObjectMetaView,
    pub containers: Seq<ContainerView>,
}

impl View for PodTemplateSpec {
    type V = PodTemplateSpecView;

    open spec fn view(&self) -> PodTemplateSpecView {
        PodTemplateSpecView {
            metadata: self.metadata@,
            containers: self.containers@.map_values(|c: Container| c@),
        }
    }
}

/// Desired state of the stateful workload: one replica of the pod template,
/// selected by the shared labels, with the storage claim templated in.
#[derive(Debug, Clone, PartialEq)]
pub struct StatefulSetSpec {
    pub replicas: i32,
    pub service_name: String,
    pub selector: Vec<(String, String)>,
    pub template: PodTemplateSpec,
    pub volume_claim_templates: Vec<PersistentVolumeClaim>,
}

#[verifier::ext_equal]
pub struct StatefulSetSpecView {
    pub replicas: i32,
    pub service_name: Seq<char>,
    pub selector: Seq<(Seq<char>, Seq<char>)>,
    pub template: PodTemplateSpecView,
    pub volume_claim_templates: Seq<PersistentVolumeClaimView>,
}

impl View for StatefulSetSpec {
    type V = StatefulSetSpecView;

    open spec fn view(&self) -> StatefulSetSpecView {
        StatefulSetSpecView {
            replicas: self.replicas,
            service_name: self.service_name@,
            selector: labels_view(self.selector@),
            template: self.template@,
            volume_claim_templates: claims_view(self.volume_claim_templates@),
        }
    }
}

/// The stateful workload manifest.
#[derive(Debug, Clone, PartialEq)]
pub struct StatefulSet {
    pub metadata: ObjectMeta,
    pub spec: StatefulSetSpec,
}

#[verifier::ext_equal]
pub struct StatefulSetView {
    pub metadata: ObjectMetaView,
    pub spec: StatefulSetSpecView,
}

impl View for StatefulSet {
    type V = StatefulSetView;

    open spec fn view(&self) -> StatefulSetView {
        StatefulSetView { metadata: self.metadata@, spec: self.spec@ }
    }
}

/// One of the three fixed logical ports the service exposes; the node-level
/// port is present exactly when external exposure is enabled.
#[derive(Debug, Clone, PartialEq)]
pub struct ServicePort {
    pub name: String,
    pub port: i32,
    pub protocol: String,
    pub target_port: i32,
    pub node_port: Option<i32>,
}

#[verifier::ext_equal]
pub struct ServicePortView {
    pub name: Seq<char>,
    pub port: i32,
    pub protocol: Seq<char>,
    pub target_port: i32,
    pub node_port: Option<i32>,
}

impl View for ServicePort {
    type V = ServicePortView;

    open spec fn view(&self) -> ServicePortView {
        ServicePortView {
            name: self.name@,
            port: self.port,
            protocol: self.protocol@,
            target_port: self.target_port,
            node_port: self.node_port,
        }
    }
}

/// The view of a service port list.
pub open spec fn service_ports_view(l: Seq<ServicePort>) -> Seq<ServicePortView> {
    l.map_values(|p: ServicePort| p@)
}

/// The network service manifest: its selector matches the workload's labels,
/// and its type switches between the internal-only and the externally
/// reachable kind on the exposure flag.
#[derive(Debug, Clone, PartialEq)]
pub struct Service {
    pub metadata: ObjectMeta,
    pub selector: Vec<(String, String)>,
    pub ports: Vec<ServicePort>,
    pub type_: String,
}

#[verifier::ext_equal]
pub struct ServiceView {
    pub metadata: ObjectMetaView,
    pub selector: Seq<(Seq<char>, Seq<char>)>,
    pub ports: Seq<ServicePortView>,
    pub type_: Seq<char>,
}

impl View for Service {
    type V = ServiceView;

    open spec fn view(&self) -> ServiceView {
        ServiceView {
            metadata: self.metadata@,
            selector: labels_view(self.selector@),
            ports: service_ports_view(self.ports@),
            type_: self.type_@,
        }
    }
}

} // verus!
