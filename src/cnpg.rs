use vstd::prelude::*;
use vstd::string::StringExecFns;
use crate::error::AppError;
use crate::error::KubeFailure;
use crate::resources::ResourceAck;
use crate::resources::ResourceInfo;
use crate::resources::ResourceList;
use crate::resources::classify_lookup_failure;
use crate::resources::lookup_error;
use crate::resources::namespace_or_default;
use crate::resources::namespace_or_default_spec;
use crate::string_map::StringMap;
use crate::validation::database_name_problem;
use crate::validation::first_problem;
use crate::validation::identity_problem;
use crate::validation::instance_count_problem;
use crate::validation::memory_problem;
use crate::validation::opt_instance_count_problem;
use crate::validation::opt_namespace_problem;
use crate::validation::reports;
use crate::validation::resource_name_problem;
use crate::validation::validate_database_name;
use crate::validation::validate_identity;
use crate::validation::validate_instance_count;
use crate::validation::validate_optional_instance_count;
use crate::validation::validate_optional_namespace;
use crate::validation::validate_resource_name;
use crate::validation::validate_storage_size;

verus! {

/// Desired state of a PostgreSQL cluster.
#[derive(Debug)]
pub struct ClusterSpec {
    pub instances: i32,
    pub postgresql: PostgreSQLConfig,
    pub bootstrap: Option<BootstrapConfig>,
    pub storage: Option<StorageConfig>,
    pub monitoring: Option<MonitoringConfig>,
}

#[derive(Debug)]
pub struct PostgreSQLConfig {
    pub parameters: StringMap,
}

#[derive(Debug)]
pub struct BootstrapConfig {
    pub initdb: Option<InitDBConfig>,
}

#[derive(Debug)]
pub struct InitDBConfig {
    pub database: String,
    pub owner: String,
    pub secret: SecretConfig,
}

#[derive(Debug)]
pub struct SecretConfig {
    pub name: String,
}

#[derive(Debug)]
pub struct StorageConfig {
    pub size: String,
    pub storage_class: Option<String>,
}

#[derive(Debug)]
pub struct MonitoringConfig {
    pub enable_pod_monitor: bool,
    pub disable_default_queries: bool,
}

/// A request to create a cluster.
#[derive(Debug)]
pub struct CreateClusterRequest {
    pub name: String,
    pub namespace: Option<String>,
    pub instances: i32,
    pub database_name: String,
    pub database_owner: String,
    pub secret_name: String,
    pub storage_size: String,
    pub storage_class: Option<String>,
    pub postgresql_parameters: Option<StringMap>,
    pub monitoring_enabled: Option<bool>,
}

/// A request to change a cluster: each field that is present is overwritten.
#[derive(Debug)]
pub struct UpdateClusterRequest {
    pub instances: Option<i32>,
    pub postgresql_parameters: Option<StringMap>,
    pub monitoring_enabled: Option<bool>,
}

/// A cluster ready to be stored: its name, its namespace and its spec.
#[derive(Debug)]
pub struct NewCluster {
    pub name: String,
    pub namespace: String,
    pub spec: ClusterSpec,
}

/// The kind name that appears in messages about clusters.
pub const CLUSTER_KIND: &'static str = "CNPG cluster";

/// The resource type of one cluster in acknowledgements and listings.
pub const CLUSTER_TYPE: &'static str = "cnpg-cluster";

/// The resource type of a listing of clusters.
pub const CLUSTER_LIST_TYPE: &'static str = "cnpg-clusters";

/// The monitoring section that a monitoring flag asks for; none where the flag is absent.
pub open spec fn monitoring_for(flag: Option<bool>) -> Option<MonitoringConfig> {
    match flag {
        Some(b) => Some(MonitoringConfig { enable_pod_monitor: b, disable_default_queries: false }),
        None => None,
    }
}

/// `s` is the spec that a create request asks for: the instance count and the
/// PostgreSQL parameters as given (none given reads as no parameters), an initial
/// database with its owner and secret, storage of the given size and class, and a
/// monitoring section only where the request has a monitoring flag.
pub open spec fn is_spec_for(s: ClusterSpec, r: CreateClusterRequest) -> bool {
    &&& s.instances == r.instances
    &&& match r.postgresql_parameters {
        Some(p) => s.postgresql.parameters == p,
        None => s.postgresql.parameters@ == Map::<Seq<char>, Seq<char>>::empty(),
    }
    &&& s.bootstrap == Some(
        BootstrapConfig {
            initdb: Some(
                InitDBConfig {
                    database: r.database_name,
                    owner: r.database_owner,
                    secret: SecretConfig { name: r.secret_name },
                },
            ),
        },
    )
    &&& s.storage == Some(StorageConfig { size: r.storage_size, storage_class: r.storage_class })
    &&& s.monitoring == monitoring_for(r.monitoring_enabled)
}

/// `s` is the spec `old` after update `r`: the fields that `r` gives are overwritten,
/// all others are kept.
pub open spec fn is_update_of(s: ClusterSpec, old: ClusterSpec, r: UpdateClusterRequest) -> bool {
    &&& s.instances == match r.instances {
        Some(n) => n,
        None => old.instances,
    }
    &&& s.postgresql == match r.postgresql_parameters {
        Some(p) => PostgreSQLConfig { parameters: p },
        None => old.postgresql,
    }
    &&& s.monitoring == match r.monitoring_enabled {
        Some(_) => monitoring_for(r.monitoring_enabled),
        None => old.monitoring,
    }
    &&& s.bootstrap == old.bootstrap
    &&& s.storage == old.storage
}

/// A spec built from a create request gives back the request's instance count,
/// database, owner, secret and storage size.
pub proof fn lemma_create_round_trip(s: ClusterSpec, r: CreateClusterRequest)
    requires
        is_spec_for(s, r),
    ensures
        s.instances == r.instances,
        s.bootstrap matches Some(b) && b.initdb matches Some(i) && i.database == r.database_name
            && i.owner == r.database_owner && i.secret.name == r.secret_name,
        s.storage matches Some(st) && st.size == r.storage_size,
{
}

/// An update that gives only an instance count leaves every other field of the
/// spec as it was.
pub proof fn lemma_update_instances_only(s: ClusterSpec, old: ClusterSpec, r: UpdateClusterRequest)
    requires
        is_update_of(s, old, r),
        r.postgresql_parameters is None,
        r.monitoring_enabled is None,
    ensures
        s.postgresql == old.postgresql,
        s.bootstrap == old.bootstrap,
        s.storage == old.storage,
        s.monitoring == old.monitoring,
        r.instances matches Some(n) ==> s.instances == n,
{
}

/// The first problem of a create request, checked in this order: the name, the
/// database, the owner, the instance count, the storage size, the namespace.
pub open spec fn create_request_problem(r: CreateClusterRequest) -> Option<Seq<char>> {
    first_problem(
        resource_name_problem(r.name@),
        first_problem(
            database_name_problem(r.database_name@),
            first_problem(
                database_name_problem(r.database_owner@),
                first_problem(
                    instance_count_problem(r.instances as int),
                    first_problem(memory_problem(r.storage_size@), opt_namespace_problem(r.namespace)),
                ),
            ),
        ),
    )
}

/// The first problem of an update of cluster `name` in `namespace`.
pub open spec fn update_request_problem(
    namespace: Seq<char>,
    name: Seq<char>,
    r: UpdateClusterRequest,
) -> Option<Seq<char>> {
    first_problem(identity_problem(namespace, name), opt_instance_count_problem(r.instances))
}

/// Validates a create request before anything is sent to the orchestrator.
pub fn validate_create_request(request: &CreateClusterRequest) -> (r: Result<(), AppError>)
    ensures
        reports(r, create_request_problem(*request)),
{
    let checked = validate_resource_name(request.name.as_str());
    if checked.is_err() {
        return checked;
    }
    let checked = validate_database_name(request.database_name.as_str());
    if checked.is_err() {
        return checked;
    }
    let checked = validate_database_name(request.database_owner.as_str());
    if checked.is_err() {
        return checked;
    }
    let checked = validate_instance_count(request.instances);
    if checked.is_err() {
        return checked;
    }
    let checked = validate_storage_size(request.storage_size.as_str());
    if checked.is_err() {
        return checked;
    }
    validate_optional_namespace(&request.namespace)
}

/// Validates an update of cluster `name` in `namespace` before anything is sent to
/// the orchestrator.
pub fn validate_update_request(namespace: &str, name: &str, request: &UpdateClusterRequest) -> (r:
    Result<(), AppError>)
    ensures
        reports(r, update_request_problem(namespace@, name@, *request)),
{
    let checked = validate_identity(namespace, name);
    if checked.is_err() {
        return checked;
    }
    validate_optional_instance_count(request.instances)
}

/// The manager of PostgreSQL cluster resources.
pub struct CnpgManager;

impl CnpgManager {
    /// Builds the cluster that a create request asks for, in the request's namespace
    /// or the default one.
    pub fn plan_create(&self, request: CreateClusterRequest) -> (r: NewCluster)
        ensures
            r.name == request.name,
            r.namespace@ == namespace_or_default_spec(request.namespace),
            is_spec_for(r.spec, request),
    {
        let namespace = namespace_or_default(&request.namespace);
        let CreateClusterRequest {
            name,
            namespace: _,
            instances,
            database_name,
            database_owner,
            secret_name,
            storage_size,
            storage_class,
            postgresql_parameters,
            monitoring_enabled,
        } = request;
        let parameters = match postgresql_parameters {
            Some(p) => p,
            None => StringMap::new(),
        };
        let monitoring = match monitoring_enabled {
            Some(enabled) => Some(
                MonitoringConfig { enable_pod_monitor: enabled, disable_default_queries: false },
            ),
            None => None,
        };
        let spec = ClusterSpec {
            instances,
            postgresql: PostgreSQLConfig { parameters },
            bootstrap: Some(
                BootstrapConfig {
                    initdb: Some(
                        InitDBConfig {
                            database: database_name,
                            owner: database_owner,
                            secret: SecretConfig { name: secret_name },
                        },
                    ),
                },
            ),
            storage: Some(StorageConfig { size: storage_size, storage_class }),
            monitoring,
        };
        NewCluster { name, namespace, spec }
    }

    /// Applies an update to the spec of an existing cluster.
    pub fn merge_update(&self, cluster: ClusterSpec, request: UpdateClusterRequest) -> (r:
        ClusterSpec)
        ensures
            is_update_of(r, cluster, request),
    {
        let ClusterSpec { instances, postgresql, bootstrap, storage, monitoring } = cluster;
        let UpdateClusterRequest { instances: new_instances, postgresql_parameters, monitoring_enabled } =
            request;
        let instances = match new_instances {
            Some(n) => n,
            None => instances,
        };
        let postgresql = match postgresql_parameters {
            Some(parameters) => PostgreSQLConfig { parameters },
            None => postgresql,
        };
        let monitoring = match monitoring_enabled {
            Some(enabled) => Some(
                MonitoringConfig { enable_pod_monitor: enabled, disable_default_queries: false },
            ),
            None => monitoring,
        };
        ClusterSpec { instances, postgresql, bootstrap, storage, monitoring }
    }

    /// The error that a failed read, update or delete of cluster `name` is reported as.
    pub fn lookup_failure(&self, namespace: &str, name: &str, failure: KubeFailure) -> (r: AppError)
        ensures
            lookup_error(CLUSTER_KIND@, namespace@, name@, failure, r),
    {
        classify_lookup_failure(CLUSTER_KIND, namespace, name, failure)
    }

    /// The acknowledgement of a stored cluster, with the name and namespace that the
    /// orchestrator reported.
    pub fn created_ack(&self, name: Option<String>, namespace: Option<String>) -> (r: ResourceAck)
        ensures
            r.message@ == "CNPG cluster created successfully"@,
            r.name == name,
            r.namespace == namespace,
            r.resource_type@ == CLUSTER_TYPE@,
    {
        ResourceAck::new(String::from_str("CNPG cluster created successfully"), name, namespace, CLUSTER_TYPE)
    }

    /// The acknowledgement of an updated cluster.
    pub fn updated_ack(&self, name: Option<String>, namespace: Option<String>) -> (r: ResourceAck)
        ensures
            r.message@ == "CNPG cluster updated successfully"@,
            r.name == name,
            r.namespace == namespace,
            r.resource_type@ == CLUSTER_TYPE@,
    {
        ResourceAck::new(String::from_str("CNPG cluster updated successfully"), name, namespace, CLUSTER_TYPE)
    }

    /// What a delete of cluster `name` in `namespace` answers, given what the
    /// orchestrator said: an acknowledgement, `NotFound` where there was no such
    /// cluster, or the orchestrator's failure.
    pub fn delete_outcome(&self, namespace: &str, name: &str, result: Result<(), KubeFailure>) -> (r:
        Result<ResourceAck, AppError>)
        ensures
            match result {
                Ok(()) => r matches Ok(ack) && {
                    &&& ack.message@ == CLUSTER_KIND@ + " '"@ + name@ + "' deleted successfully"@
                    &&& ack.name matches Some(n) && n@ == name@
                    &&& ack.namespace matches Some(ns) && ns@ == namespace@
                    &&& ack.resource_type@ == CLUSTER_TYPE@
                },
                Err(f) => r matches Err(e) && lookup_error(CLUSTER_KIND@, namespace@, name@, f, e),
            },
    {
        match result {
            Ok(()) => {
                let mut message = crate::error::joined(CLUSTER_KIND, " '");
                message.append(name);
                message.append("' deleted successfully");
                Ok(
                    ResourceAck::new(
                        message,
                        Some(String::from_str(name)),
                        Some(String::from_str(namespace)),
                        CLUSTER_TYPE,
                    ),
                )
            },
            Err(f) => Err(classify_lookup_failure(CLUSTER_KIND, namespace, name, f)),
        }
    }

    /// The listing of the given clusters.
    pub fn list_envelope(&self, clusters: Vec<ResourceInfo>) -> (r: ResourceList)
        ensures
            r.resources == clusters,
            r.count == clusters@.len(),
            r.resource_type@ == CLUSTER_LIST_TYPE@,
    {
        ResourceList::from_items(clusters, CLUSTER_LIST_TYPE)
    }

    /// The listing entry of one cluster, with the instance count of its spec.
    pub fn list_entry(
        &self,
        name: Option<String>,
        namespace: Option<String>,
        instances: i32,
        creation_timestamp: Option<String>,
    ) -> (r: ResourceInfo)
        ensures
            r.name == name,
            r.namespace == namespace,
            r.instances == Some(instances),
            r.creation_timestamp == creation_timestamp,
            r.resource_type@ == CLUSTER_TYPE@,
            r.status is None,
    {
        ResourceInfo {
            name,
            namespace,
            resource_type: String::from_str(CLUSTER_TYPE),
            instances: Some(instances),
            creation_timestamp,
            status: None,
        }
    }
}

} // verus!
