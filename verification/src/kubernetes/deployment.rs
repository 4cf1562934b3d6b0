//! What to deploy for a service, and the manifests that describe it to the cluster.

use vstd::prelude::*;
use vstd::string::*;

verus! {

use super::{
    copy_pairs,
    deployment_spec,
    is_deployment_spec,
    is_metadata,
    lookup,
    metadata,
    pairs,
    set_pair,
    DeploymentSpecModel,
    K8sError,
    Metadata,
};

/// How a service is reached.
#[derive(Debug, Clone, PartialEq, Eq)]
pub struct ServiceConfig {
    pub name: String,
    pub port: u16,
    pub target_port: u16,
    pub namespace: String,
}

impl ServiceConfig {
    /// A service that is reached on `external_port` and forwards to port 8080.
    pub fn new(name: String, namespace: String, external_port: u16) -> (r: Self)
        ensures
            r == (ServiceConfig { name, port: external_port, target_port: 8080, namespace }),
    {
        Self { name, port: external_port, target_port: 8080, namespace }
    }
}

/// Everything that is deployed for a service.
#[derive(Debug, Clone, PartialEq, Eq)]
pub struct DeploymentConfig {
    pub resource: ResourceConfig,
    pub container: ContainerConfig,
    pub service: ServiceConfig,
    pub replicas: u32,
}

/// How a resource is named and labelled. Labels and annotations are lists of pairs of a
/// key and a value; where a key occurs twice, its first pair counts.
#[derive(Debug, Clone, PartialEq, Eq)]
pub struct ResourceConfig {
    pub name: String,
    pub namespace: String,
    pub labels: Vec<(String, String)>,
    pub annotations: Vec<(String, String)>,
}

/// The container of a deployment.
#[derive(Debug, Clone, PartialEq, Eq)]
pub struct ContainerConfig {
    pub image: String,
    pub port: u16,
    pub env: Vec<(String, String)>,
    pub resources: Option<ResourceRequirements>,
}

/// The processor time and the memory that a container asks for.
#[derive(Debug, Clone, PartialEq, Eq)]
pub struct ResourceRequirements {
    pub cpu: String,
    pub memory: String,
}

/// The manifest of a deployment.
#[derive(Debug, Clone, PartialEq, Eq)]
pub struct DeploymentManifest {
    pub metadata: Metadata,
    pub spec: DeploymentSpecModel,
}

/// The manifest of the service in front of a deployment.
#[derive(Debug, Clone, PartialEq, Eq)]
pub struct ServiceManifest {
    pub metadata: Metadata,
    pub port: i32,
    pub target_port: i32,
    pub selector: Vec<(String, String)>,
    pub service_type: String,
}

/// Builds the manifests of deployments in one namespace.
#[derive(Debug, Clone, PartialEq, Eq)]
pub struct DeploymentManager {
    pub namespace: String,
}

/// `manifest` is the manifest of the deployment that `config` describes.
pub open spec fn is_deployment_of(manifest: DeploymentManifest, config: DeploymentConfig) -> bool {
    &&& is_metadata(
        manifest.metadata,
        config.resource.name@,
        config.resource.namespace@,
        pairs(config.resource.labels@),
        Some(pairs(config.resource.annotations@)),
    )
    &&& is_deployment_spec(
        manifest.spec,
        config.container.image@,
        config.container.port,
        pairs(config.container.env@),
        config.replicas,
        config.container.resources,
    )
}

/// `manifest` is the manifest of the service in front of the deployment that `config`
/// describes: a cluster-internal service that carries the resource's labels and the
/// label `app` with the resource's name, selects by the same labels, listens on the
/// service's port and forwards to the container's port.
pub open spec fn is_service_of(manifest: ServiceManifest, config: DeploymentConfig) -> bool {
    &&& manifest.metadata.name@ == config.resource.name@
    &&& manifest.metadata.namespace@ == config.resource.namespace@
    &&& manifest.metadata.annotations is None
    &&& lookup(pairs(manifest.metadata.labels@)) == lookup(pairs(config.resource.labels@)).insert(
        "app"@,
        config.resource.name@,
    )
    &&& pairs(manifest.selector@) == pairs(manifest.metadata.labels@)
    &&& manifest.port == config.service.port
    &&& manifest.target_port == config.container.port
    &&& manifest.service_type@ == "ClusterIP"@
}

impl DeploymentManager {
    pub fn new(namespace: String) -> (r: Self)
        ensures
            r.namespace == namespace,
    {
        Self { namespace }
    }

    /// The manifest of the deployment that `config` describes.
    pub fn build_deployment(&self, config: &DeploymentConfig) -> (r: DeploymentManifest)
        ensures
            is_deployment_of(r, *config),
    {
        DeploymentManifest {
            metadata: metadata(
                config.resource.name.as_str(),
                config.resource.namespace.as_str(),
                &config.resource.labels,
                &config.resource.annotations,
            ),
            spec: deployment_spec(
                config.container.image.as_str(),
                config.container.port,
                &config.container.env,
                config.replicas,
                &config.container.resources,
            ),
        }
    }

    /// The manifest of the service in front of the deployment that `config` describes.
    /// There is one for every configuration.
    pub fn build_service(&self, config: &DeploymentConfig) -> (r: Result<ServiceManifest, K8sError>)
        ensures
            r is Ok,
            is_service_of(r->Ok_0, *config),
    {
        let mut labels = copy_pairs(&config.resource.labels);
        set_pair(&mut labels, "app", config.resource.name.as_str());
        let selector = copy_pairs(&labels);
        Ok(
            ServiceManifest {
                metadata: Metadata {
                    name: config.resource.name.clone(),
                    namespace: config.resource.namespace.clone(),
                    labels,
                    annotations: None,
                },
                port: config.service.port as i32,
                target_port: config.container.port as i32,
                selector,
                service_type: String::from_str("ClusterIP"),
            },
        )
    }
}

} // verus!
