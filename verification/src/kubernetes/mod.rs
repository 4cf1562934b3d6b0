//! Deploying indexers to a cluster: configurations, manifests and reconciliation.

use vstd::prelude::*;
use vstd::string::*;

pub mod deployment;
pub mod envio;
pub mod service;

pub use deployment::{
    ContainerConfig, DeploymentConfig, DeploymentManager, ResourceConfig, ResourceRequirements,
    ServiceConfig,
};

verus! {

/// What can go wrong with a resource of the cluster.
#[derive(Debug, Clone, PartialEq, Eq)]
pub enum K8sError {
    ClientError(String),
    NotFound(String),
    AlreadyExists(String),
    InvalidConfig(String),
    KubeInferConfig(String),
}

/// The message of an error, as text.
pub open spec fn k8s_error_message(error: K8sError) -> Seq<char> {
    match error {
        K8sError::ClientError(detail) => "Kube client error: "@ + detail@,
        K8sError::NotFound(name) => "Resource not found: "@ + name@,
        K8sError::AlreadyExists(name) => "Resource already exists: "@ + name@,
        K8sError::InvalidConfig(detail) => "Invalid configuration: "@ + detail@,
        K8sError::KubeInferConfig(detail) => "Failed to infer Kube config: "@ + detail@,
    }
}

impl K8sError {
    /// The message of this error.
    pub fn message(&self) -> (r: String)
        ensures
            r@ == k8s_error_message(*self),
    {
        let (label, detail) = match self {
            K8sError::ClientError(detail) => ("Kube client error: ", detail),
            K8sError::NotFound(name) => ("Resource not found: ", name),
            K8sError::AlreadyExists(name) => ("Resource already exists: ", name),
            K8sError::InvalidConfig(detail) => ("Invalid configuration: ", detail),
            K8sError::KubeInferConfig(detail) => ("Failed to infer Kube config: ", detail),
        };
        let mut r = String::from_str(label);
        r.append(detail.as_str());
        r
    }
}

/// The error for a request about the resource `name` that the cluster's API refused
/// with the status `code`: a conflict when creating means that the resource exists, and
/// a missing resource when reading means that it was not found; any other refusal is
/// reported with its detail.
pub fn api_error(creating: bool, code: u16, name: &str, detail: &str) -> (r: K8sError)
    ensures
        creating && code == 409 ==> r is AlreadyExists && r->AlreadyExists_0@ == name@,
        !creating && code == 404 ==> r is NotFound && r->NotFound_0@ == name@,
        !(creating && code == 409) && !(!creating && code == 404) ==> r is ClientError
            && r->ClientError_0@ == detail@,
{
    if creating && code == 409 {
        K8sError::AlreadyExists(String::from_str(name))
    } else if !creating && code == 404 {
        K8sError::NotFound(String::from_str(name))
    } else {
        K8sError::ClientError(String::from_str(detail))
    }
}

// ---------------------------------------------------------------------------
// Lists of pairs
// ---------------------------------------------------------------------------

/// The pairs as texts.
pub open spec fn pairs(entries: Seq<(String, String)>) -> Seq<(Seq<char>, Seq<char>)> {
    Seq::new(entries.len(), |i: int| (entries[i].0@, entries[i].1@))
}

/// What the pairs say as a map: for each key the value of its first pair.
pub open spec fn lookup(entries: Seq<(Seq<char>, Seq<char>)>) -> Map<Seq<char>, Seq<char>>
    decreases entries.len(),
{
    if entries.len() == 0 {
        Map::empty()
    } else {
        lookup(entries.skip(1)).insert(entries[0].0, entries[0].1)
    }
}

/// A copy of the pairs.
pub fn copy_pairs(entries: &Vec<(String, String)>) -> (r: Vec<(String, String)>)
    ensures
        pairs(r@) == pairs(entries@),
{
    let mut r: Vec<(String, String)> = Vec::new();
    let mut i: usize = 0;
    while i < entries.len()
        invariant
            i <= entries.len(),
            r@.len() == i,
            forall|k: int| 0 <= k < i ==> pairs(r@)[k] == pairs(entries@)[k],
        decreases entries.len() - i,
    {
        let key = entries[i].0.clone();
        let value = entries[i].1.clone();
        r.push((key, value));
        i += 1;
    }
    assert(pairs(r@) =~= pairs(entries@));
    r
}

pub proof fn lemma_lookup_push(
    entries: Seq<(Seq<char>, Seq<char>)>,
    key: Seq<char>,
    value: Seq<char>,
)
    requires
        forall|i: int| 0 <= i < entries.len() ==> (#[trigger] entries[i]).0 != key,
    ensures
        lookup(entries.push((key, value))) == lookup(entries).insert(key, value),
        !lookup(entries).dom().contains(key),
    decreases entries.len(),
{
    let more = entries.push((key, value));
    if entries.len() == 0 {
        assert(more.skip(1) =~= entries);
        assert(lookup(entries) =~= Map::<Seq<char>, Seq<char>>::empty());
    } else {
        let rest = entries.skip(1);
        assert forall|i: int| 0 <= i < rest.len() implies (#[trigger] rest[i]).0 != key by {
            assert(rest[i] == entries[i + 1]);
        }
        lemma_lookup_push(rest, key, value);
        assert(more.skip(1) =~= rest.push((key, value)));
        assert(lookup(more) =~= lookup(entries).insert(key, value));
    }
}

pub proof fn lemma_lookup_update(
    entries: Seq<(Seq<char>, Seq<char>)>,
    at: int,
    value: Seq<char>,
)
    requires
        0 <= at < entries.len(),
        forall|i: int| 0 <= i < at ==> (#[trigger] entries[i]).0 != entries[at].0,
    ensures
        lookup(entries.update(at, (entries[at].0, value))) == lookup(entries).insert(
            entries[at].0,
            value,
        ),
    decreases at,
{
    let key = entries[at].0;
    let changed = entries.update(at, (key, value));
    if at == 0 {
        assert(changed.skip(1) =~= entries.skip(1));
        assert(lookup(changed) =~= lookup(entries).insert(key, value));
    } else {
        let rest = entries.skip(1);
        assert forall|i: int| 0 <= i < at - 1 implies (#[trigger] rest[i]).0 != rest[at - 1].0 by {
            assert(rest[i] == entries[i + 1]);
        }
        lemma_lookup_update(rest, at - 1, value);
        assert(changed.skip(1) =~= rest.update(at - 1, (key, value)));
        assert(entries[0].0 != key);
        assert(lookup(changed) =~= lookup(entries).insert(key, value));
    }
}

/// Sets the value for `key`: in the first pair that has the key if there is one, and in
/// a new pair at the end otherwise.
pub fn set_pair(entries: &mut Vec<(String, String)>, key: &str, value: &str)
    ensures
        lookup(pairs(final(entries)@)) == lookup(pairs(old(entries)@)).insert(key@, value@),
{
    let k = crate::text::chars_of(key);
    let ghost before = pairs(entries@);
    let mut i: usize = 0;
    while i < entries.len()
        invariant
            i <= entries.len(),
            entries@ == old(entries)@,
            before == pairs(entries@),
            k@ == key@,
            forall|j: int| 0 <= j < i ==> (#[trigger] before[j]).0 != key@,
        decreases entries.len() - i,
    {
        let candidate = crate::text::chars_of(entries[i].0.as_str());
        assert(before[i as int].0 == candidate@);
        if crate::text::same_chars(&candidate, &k) {
            let kept = entries[i].0.clone();
            entries.remove(i);
            entries.insert(i, (kept, String::from_str(value)));
            proof {
                assert(pairs(entries@) =~= before.update(i as int, (key@, value@)));
                lemma_lookup_update(before, i as int, value@);
            }
            return ;
        }
        i += 1;
    }
    entries.push((String::from_str(key), String::from_str(value)));
    proof {
        assert(pairs(entries@) =~= before.push((key@, value@)));
        lemma_lookup_push(before, key@, value@);
    }
}

// ---------------------------------------------------------------------------
// Manifests
// ---------------------------------------------------------------------------

/// How a manifest names and labels its resource.
#[derive(Debug, Clone, PartialEq, Eq)]
pub struct Metadata {
    pub name: String,
    pub namespace: String,
    pub labels: Vec<(String, String)>,
    pub annotations: Option<Vec<(String, String)>>,
}

/// The pairs of an optional list as texts.
pub open spec fn optional_pairs(entries: Option<Vec<(String, String)>>) -> Option<
    Seq<(Seq<char>, Seq<char>)>,
> {
    match entries {
        Some(entries) => Some(pairs(entries@)),
        None => None,
    }
}

/// `m` names and labels a resource as given.
pub open spec fn is_metadata(
    m: Metadata,
    name: Seq<char>,
    namespace: Seq<char>,
    labels: Seq<(Seq<char>, Seq<char>)>,
    annotations: Option<Seq<(Seq<char>, Seq<char>)>>,
) -> bool {
    &&& m.name@ == name
    &&& m.namespace@ == namespace
    &&& pairs(m.labels@) == labels
    &&& optional_pairs(m.annotations) == annotations
}

/// The metadata of a resource with this name, namespace, labels and annotations.
pub fn metadata(
    name: &str,
    namespace: &str,
    labels: &Vec<(String, String)>,
    annotations: &Vec<(String, String)>,
) -> (r: Metadata)
    ensures
        is_metadata(r, name@, namespace@, pairs(labels@), Some(pairs(annotations@))),
{
    Metadata {
        name: String::from_str(name),
        namespace: String::from_str(namespace),
        labels: copy_pairs(labels),
        annotations: Some(copy_pairs(annotations)),
    }
}

/// The container of a deployment's pods.
#[derive(Debug, Clone, PartialEq, Eq)]
pub struct ContainerModel {
    pub name: String,
    pub image: String,
    pub container_port: i32,
    pub env: Vec<(String, String)>,
    /// The limits, by resource name, if the container asks for resources.
    pub limits: Option<Vec<(String, String)>>,
    /// The requests, by resource name, if the container asks for resources.
    pub requests: Option<Vec<(String, String)>>,
}

/// What a deployment runs: how many replicas of which container, found by which labels.
#[derive(Debug, Clone, PartialEq, Eq)]
pub struct DeploymentSpecModel {
    pub replicas: i32,
    pub selector: Vec<(String, String)>,
    pub pod_labels: Vec<(String, String)>,
    pub containers: Vec<ContainerModel>,
}

/// The number of replicas as the cluster's API takes it: a signed number of 32 bits, to
/// which a larger count wraps around.
pub open spec fn replica_count(replicas: u32) -> i32 {
    if replicas <= i32::MAX {
        replicas as i32
    } else {
        (replicas - 0x1_0000_0000) as i32
    }
}

/// The number of replicas as the cluster's API takes it.
pub fn to_replica_count(replicas: u32) -> (r: i32)
    ensures
        r == replica_count(replicas),
{
    if replicas <= 0x7fff_ffff {
        replicas as i32
    } else {
        let low: i32 = (replicas - 0x8000_0000) as i32;
        low + i32::MIN
    }
}

/// The label by which an indexer's pods are found.
pub open spec fn app_label() -> Seq<(Seq<char>, Seq<char>)> {
    seq![("app"@, "envio-indexer"@)]
}

/// What a container asks for, by resource name.
pub open spec fn quantities(resources: ResourceRequirements) -> Seq<
    (Seq<char>, Seq<char>),
> {
    seq![("cpu"@, resources.cpu@), ("memory"@, resources.memory@)]
}

/// `spec` runs `replicas` replicas of one container called `app` with the given image,
/// port and environment. The container's limits and requests are both what `resources`
/// asks for, if it asks for anything. The pods carry the label `app` with the value
/// `envio-indexer`, and are found by it.
pub open spec fn is_deployment_spec(
    spec: DeploymentSpecModel,
    image: Seq<char>,
    port: u16,
    env: Seq<(Seq<char>, Seq<char>)>,
    replicas: u32,
    resources: Option<ResourceRequirements>,
) -> bool {
    &&& spec.replicas == replica_count(replicas)
    &&& pairs(spec.selector@) == app_label()
    &&& pairs(spec.pod_labels@) == app_label()
    &&& spec.containers@.len() == 1
    &&& spec.containers@[0].name@ == "app"@
    &&& spec.containers@[0].image@ == image
    &&& spec.containers@[0].container_port == port
    &&& pairs(spec.containers@[0].env@) == env
    &&& match resources {
        Some(resources) => {
            &&& optional_pairs(spec.containers@[0].limits) == Some(quantities(resources))
            &&& optional_pairs(spec.containers@[0].requests) == Some(quantities(resources))
        },
        None => spec.containers@[0].limits is None && spec.containers@[0].requests is None,
    }
}

/// The pair of a key and a value.
pub fn pair_of(key: &str, value: &str) -> (r: (String, String))
    ensures
        r.0@ == key@,
        r.1@ == value@,
{
    (String::from_str(key), String::from_str(value))
}

/// What `resources` asks for, by resource name.
pub fn quantities_of(resources: &ResourceRequirements) -> (r: Vec<
    (String, String),
>)
    ensures
        pairs(r@) == quantities(*resources),
{
    let mut r: Vec<(String, String)> = Vec::new();
    r.push(pair_of("cpu", resources.cpu.as_str()));
    r.push(pair_of("memory", resources.memory.as_str()));
    assert(pairs(r@) =~= quantities(*resources));
    r
}

/// The label by which an indexer's pods are found.
pub fn app_label_pairs() -> (r: Vec<(String, String)>)
    ensures
        pairs(r@) == app_label(),
{
    let mut r: Vec<(String, String)> = Vec::new();
    r.push(pair_of("app", "envio-indexer"));
    assert(pairs(r@) =~= app_label());
    r
}

/// What a deployment of the image runs.
pub fn deployment_spec(
    image: &str,
    port: u16,
    env: &Vec<(String, String)>,
    replicas: u32,
    resources: &Option<ResourceRequirements>,
) -> (r: DeploymentSpecModel)
    ensures
        is_deployment_spec(r, image@, port, pairs(env@), replicas, *resources),
{
    let (limits, requests) = match resources {
        Some(resources) => (Some(quantities_of(resources)), Some(quantities_of(resources))),
        None => (None, None),
    };
    let container = ContainerModel {
        name: String::from_str("app"),
        image: String::from_str(image),
        container_port: port as i32,
        env: copy_pairs(env),
        limits,
        requests,
    };
    let mut containers: Vec<ContainerModel> = Vec::new();
    containers.push(container);
    DeploymentSpecModel {
        replicas: to_replica_count(replicas),
        selector: app_label_pairs(),
        pod_labels: app_label_pairs(),
        containers,
    }
}

} // verus!
