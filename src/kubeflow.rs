use vstd::prelude::*;
use vstd::string::StringExecFns;
use crate::error::AppError;
use crate::error::joined;
use crate::error::KubeFailure;
use crate::resources::ResourceAck;
use crate::resources::ResourceInfo;
use crate::resources::ResourceList;
use crate::resources::classify_lookup_failure;
use crate::resources::lookup_error;
use crate::resources::namespace_or_default;
use crate::resources::namespace_or_default_spec;
use crate::string_map::StringMap;
use crate::validation::first_problem;
use crate::validation::identity_problem;
use crate::validation::image_problem;
use crate::validation::opt_cpu_problem;
use crate::validation::opt_image_problem;
use crate::validation::opt_memory_problem;
use crate::validation::opt_namespace_problem;
use crate::validation::reports;
use crate::validation::resource_name_problem;
use crate::validation::validate_identity;
use crate::validation::validate_image_name;
use crate::validation::validate_optional_cpu;
use crate::validation::validate_optional_image;
use crate::validation::validate_optional_memory;
use crate::validation::validate_optional_namespace;
use crate::validation::validate_resource_name;

verus! {

/// Desired state of a notebook: a pod template.
#[derive(Debug)]
pub struct NotebookSpec {
    pub template: NotebookTemplate,
}

#[derive(Debug)]
pub struct NotebookTemplate {
    pub spec: NotebookPodSpec,
}

#[derive(Debug)]
pub struct NotebookPodSpec {
    pub containers: Vec<NotebookContainer>,
    pub volumes: Option<Vec<NotebookVolume>>,
    pub service_account_name: Option<String>,
}

#[derive(Debug)]
pub struct NotebookContainer {
    pub name: String,
    pub image: String,
    pub resources: Option<NotebookResources>,
    pub env: Option<Vec<NotebookEnvVar>>,
    pub volume_mounts: Option<Vec<NotebookVolumeMount>>,
    pub ports: Option<Vec<NotebookPort>>,
}

/// Resource quantities that a container requests and is limited to, by resource name.
#[derive(Debug)]
pub struct NotebookResources {
    pub requests: Option<StringMap>,
    pub limits: Option<StringMap>,
}

#[derive(Debug)]
pub struct NotebookEnvVar {
    pub name: String,
    pub value: String,
}

#[derive(Debug)]
pub struct NotebookVolume {
    pub name: String,
    pub persistent_volume_claim: Option<NotebookPvcSource>,
    pub empty_dir: Option<NotebookEmptyDirSource>,
}

#[derive(Debug)]
pub struct NotebookPvcSource {
    pub claim_name: String,
}

#[derive(Debug)]
pub struct NotebookEmptyDirSource {}

#[derive(Debug)]
pub struct NotebookVolumeMount {
    pub name: String,
    pub mount_path: String,
}

#[derive(Debug)]
pub struct NotebookPort {
    pub container_port: i32,
    pub name: String,
    pub protocol: String,
}

/// A request to create a notebook.
#[derive(Debug)]
pub struct CreateNotebookRequest {
    pub name: String,
    pub namespace: Option<String>,
    pub image: String,
    pub cpu_request: Option<String>,
    pub cpu_limit: Option<String>,
    pub memory_request: Option<String>,
    pub memory_limit: Option<String>,
    pub gpu_limit: Option<String>,
    pub workspace_volume_size: Option<String>,
    pub workspace_volume_mount: Option<String>,
    pub environment_variables: Option<StringMap>,
    pub service_account: Option<String>,
}

/// A request to change a notebook: each field that is present is overwritten.
#[derive(Debug)]
pub struct UpdateNotebookRequest {
    pub image: Option<String>,
    pub cpu_request: Option<String>,
    pub cpu_limit: Option<String>,
    pub memory_request: Option<String>,
    pub memory_limit: Option<String>,
    pub gpu_limit: Option<String>,
    pub environment_variables: Option<StringMap>,
}

/// The storage claim that backs a notebook's workspace volume.
#[derive(Debug)]
pub struct WorkspaceClaim {
    pub name: String,
    pub namespace: String,
    pub access_mode: String,
    pub size: String,
}

/// A notebook ready to be stored: its name, its namespace, its spec, and the
/// workspace claim to provision first, where one is requested.
#[derive(Debug)]
pub struct NewNotebook {
    pub name: String,
    pub namespace: String,
    pub claim: Option<WorkspaceClaim>,
    pub spec: NotebookSpec,
}

/// How a best-effort compensating action went. It is reported, never propagated.
#[derive(Debug)]
pub enum CompensationOutcome {
    Completed,
    Failed { detail: String },
}

/// The kind name that appears in messages about notebooks.
pub const NOTEBOOK_KIND: &'static str = "Kubeflow notebook";

/// The resource type of one notebook in acknowledgements and listings.
pub const NOTEBOOK_TYPE: &'static str = "kubeflow-notebook";

/// The resource type of a listing of notebooks.
pub const NOTEBOOK_LIST_TYPE: &'static str = "kubeflow-notebooks";

/// The access mode of a workspace claim.
pub const WORKSPACE_ACCESS_MODE: &'static str = "ReadWriteOnce";

/// Where the workspace volume is mounted when the request names no other path.
pub const DEFAULT_WORKSPACE_MOUNT: &'static str = "/home/jovyan/work";

/// The port on which the notebook server listens.
pub const NOTEBOOK_PORT: i32 = 8888;

pub open spec fn cpu_key() -> Seq<char> {
    "cpu"@
}

pub open spec fn memory_key() -> Seq<char> {
    "memory"@
}

pub open spec fn gpu_key() -> Seq<char> {
    "nvidia.com/gpu"@
}

/// `m` with `k` set to the value of `v`, where `v` is present.
pub open spec fn opt_insert(m: Map<Seq<char>, Seq<char>>, k: Seq<char>, v: Option<String>) -> Map<
    Seq<char>,
    Seq<char>,
> {
    match v {
        Some(s) => m.insert(k, s@),
        None => m,
    }
}

/// The requests map `m` after the CPU and memory requests that are present.
pub open spec fn requests_overlay(
    m: Map<Seq<char>, Seq<char>>,
    cpu: Option<String>,
    memory: Option<String>,
) -> Map<Seq<char>, Seq<char>> {
    opt_insert(opt_insert(m, cpu_key(), cpu), memory_key(), memory)
}

/// The limits map `m` after the CPU, memory and accelerator limits that are present.
pub open spec fn limits_overlay(
    m: Map<Seq<char>, Seq<char>>,
    cpu: Option<String>,
    memory: Option<String>,
    gpu: Option<String>,
) -> Map<Seq<char>, Seq<char>> {
    opt_insert(opt_insert(opt_insert(m, cpu_key(), cpu), memory_key(), memory), gpu_key(), gpu)
}

/// A key that an update does not set keeps its entry: the merge of request and
/// limit quantities changes a map only at the keys whose quantity is present.
pub proof fn lemma_overlay_keeps_unset_keys(
    m: Map<Seq<char>, Seq<char>>,
    cpu: Option<String>,
    memory: Option<String>,
    gpu: Option<String>,
    k: Seq<char>,
)
    requires
        k != cpu_key() || cpu is None,
        k != memory_key() || memory is None,
    ensures
        requests_overlay(m, cpu, memory).contains_key(k) == m.contains_key(k),
        m.contains_key(k) ==> requests_overlay(m, cpu, memory)[k] == m[k],
        k != gpu_key() || gpu is None ==> limits_overlay(m, cpu, memory, gpu).contains_key(k)
            == m.contains_key(k),
        (k != gpu_key() || gpu is None) && m.contains_key(k) ==> limits_overlay(m, cpu, memory, gpu)[k]
            == m[k],
{
}

/// An empty map is left out.
pub open spec fn non_empty(m: Map<Seq<char>, Seq<char>>) -> Option<Map<Seq<char>, Seq<char>>> {
    if m == Map::<Seq<char>, Seq<char>>::empty() {
        None
    } else {
        Some(m)
    }
}

pub open spec fn map_view(o: Option<StringMap>) -> Option<Map<Seq<char>, Seq<char>>> {
    match o {
        Some(m) => Some(m@),
        None => None,
    }
}

/// The contents of a map that may be absent; absent reads as empty.
pub open spec fn map_or_empty(o: Option<StringMap>) -> Map<Seq<char>, Seq<char>> {
    match o {
        Some(m) => m@,
        None => Map::empty(),
    }
}

/// The requests and limits maps of a container's resources.
pub open spec fn resources_view(r: Option<NotebookResources>) -> Option<
    (Option<Map<Seq<char>, Seq<char>>>, Option<Map<Seq<char>, Seq<char>>>),
> {
    match r {
        Some(res) => Some((map_view(res.requests), map_view(res.limits))),
        None => None,
    }
}

pub open spec fn existing_requests(r: Option<NotebookResources>) -> Map<Seq<char>, Seq<char>> {
    match r {
        Some(res) => map_or_empty(res.requests),
        None => Map::empty(),
    }
}

pub open spec fn existing_limits(r: Option<NotebookResources>) -> Map<Seq<char>, Seq<char>> {
    match r {
        Some(res) => map_or_empty(res.limits),
        None => Map::empty(),
    }
}

pub open spec fn env_pairs(v: Seq<NotebookEnvVar>) -> Seq<(Seq<char>, Seq<char>)> {
    v.map_values(|e: NotebookEnvVar| (e.name@, e.value@))
}

pub open spec fn env_view(o: Option<Vec<NotebookEnvVar>>) -> Option<Seq<(Seq<char>, Seq<char>)>> {
    match o {
        Some(v) => Some(env_pairs(v@)),
        None => None,
    }
}

pub open spec fn env_source(o: Option<StringMap>) -> Option<Seq<(Seq<char>, Seq<char>)>> {
    match o {
        Some(m) => Some(m.pairs()),
        None => None,
    }
}

/// Name of the workspace volume of notebook `n`.
pub open spec fn workspace_volume_name(n: Seq<char>) -> Seq<char> {
    n + "-workspace"@
}

/// Name of the storage claim behind the workspace volume of notebook `n`.
pub open spec fn workspace_claim_name(n: Seq<char>) -> Seq<char> {
    n + "-workspace-pvc"@
}

pub open spec fn workspace_mount_path(o: Option<String>) -> Seq<char> {
    match o {
        Some(p) => p@,
        None => DEFAULT_WORKSPACE_MOUNT@,
    }
}

/// The requests map of a new notebook.
pub open spec fn create_requests(r: CreateNotebookRequest) -> Map<Seq<char>, Seq<char>> {
    requests_overlay(Map::empty(), r.cpu_request, r.memory_request)
}

/// The limits map of a new notebook.
pub open spec fn create_limits(r: CreateNotebookRequest) -> Map<Seq<char>, Seq<char>> {
    limits_overlay(Map::empty(), r.cpu_limit, r.memory_limit, r.gpu_limit)
}

/// The container's workspace mount and the pod's workspace volume are as derived
/// from notebook name `n` and mount path `path`.
pub open spec fn has_workspace(pod: NotebookPodSpec, c: NotebookContainer, n: Seq<char>, path: Seq<char>) -> bool {
    &&& c.volume_mounts matches Some(m)
    &&& m@.len() == 1
    &&& m@[0].name@ == workspace_volume_name(n)
    &&& m@[0].mount_path@ == path
    &&& pod.volumes matches Some(v)
    &&& v@.len() == 1
    &&& v@[0].name@ == workspace_volume_name(n)
    &&& v@[0].persistent_volume_claim matches Some(pvc)
    &&& pvc.claim_name@ == workspace_claim_name(n)
    &&& v@[0].empty_dir is None
}

/// The container exposes exactly the notebook server's port.
pub open spec fn has_notebook_port(c: NotebookContainer) -> bool {
    &&& c.ports matches Some(p)
    &&& p@.len() == 1
    &&& p@[0].container_port == NOTEBOOK_PORT
    &&& p@[0].name@ == "notebook-port"@
    &&& p@[0].protocol@ == "TCP"@
}

/// `spec` is the spec that a create request asks for: one container named `notebook`
/// that runs the requested image and exposes the notebook port, with the resource
/// quantities that are present (no resources section where there are none), the
/// environment and the service account as given, and a workspace volume backed by a
/// storage claim exactly where a workspace size is requested.
pub open spec fn is_notebook_spec_for(spec: NotebookSpec, request: CreateNotebookRequest) -> bool {
    let pod = spec.template.spec;
    let c = pod.containers@[0];
    &&& pod.containers@.len() == 1
    &&& c.name@ == "notebook"@
    &&& c.image@ == request.image@
    &&& resources_view(c.resources) == if create_requests(request) == Map::<
        Seq<char>,
        Seq<char>,
    >::empty() && create_limits(request) == Map::<Seq<char>, Seq<char>>::empty() {
        None
    } else {
        Some((non_empty(create_requests(request)), non_empty(create_limits(request))))
    }
    &&& env_view(c.env) == env_source(request.environment_variables)
    &&& has_notebook_port(c)
    &&& pod.service_account_name == request.service_account
    &&& request.workspace_volume_size is Some ==> has_workspace(
        pod,
        c,
        request.name@,
        workspace_mount_path(request.workspace_volume_mount),
    )
    &&& request.workspace_volume_size is None ==> c.volume_mounts is None && pod.volumes is None
}

/// Whether any resource quantity is present in an update request.
pub open spec fn updates_resources(r: UpdateNotebookRequest) -> bool {
    r.cpu_request is Some || r.cpu_limit is Some || r.memory_request is Some || r.memory_limit is Some
        || r.gpu_limit is Some
}

/// The container of an existing notebook after `r` is applied to it.
pub open spec fn container_updated(o: NotebookContainer, c: NotebookContainer, r: UpdateNotebookRequest) -> bool {
    &&& c.name == o.name
    &&& c.volume_mounts == o.volume_mounts
    &&& c.ports == o.ports
    &&& match r.image {
        Some(i) => c.image@ == i@,
        None => c.image == o.image,
    }
    &&& if updates_resources(r) {
        resources_view(c.resources) == Some(
            (
                non_empty(
                    requests_overlay(existing_requests(o.resources), r.cpu_request, r.memory_request),
                ),
                non_empty(
                    limits_overlay(
                        existing_limits(o.resources),
                        r.cpu_limit,
                        r.memory_limit,
                        r.gpu_limit,
                    ),
                ),
            ),
        )
    } else {
        c.resources == o.resources
    }
    &&& match r.environment_variables {
        Some(m) => env_view(c.env) == Some(m.pairs()),
        None => c.env == o.env,
    }
}

fn clone_opt(o: &Option<String>) -> (r: Option<String>)
    ensures
        r == *o,
{
    match o {
        Some(s) => Some(s.clone()),
        None => None,
    }
}

fn insert_if_present(m: &mut StringMap, key: &str, v: &Option<String>)
    ensures
        final(m)@ == opt_insert(old(m)@, key@, *v),
{
    match v {
        Some(s) => m.insert(String::from_str(key), s.clone()),
        None => {},
    }
}

/// Writes the CPU and memory requests and the CPU, memory and accelerator limits
/// that are present over the two maps.
fn overlay_quantities(
    requests: &mut StringMap,
    limits: &mut StringMap,
    cpu_request: &Option<String>,
    cpu_limit: &Option<String>,
    memory_request: &Option<String>,
    memory_limit: &Option<String>,
    gpu_limit: &Option<String>,
)
    ensures
        final(requests)@ == requests_overlay(old(requests)@, *cpu_request, *memory_request),
        final(limits)@ == limits_overlay(old(limits)@, *cpu_limit, *memory_limit, *gpu_limit),
{
    insert_if_present(requests, "cpu", cpu_request);
    insert_if_present(limits, "cpu", cpu_limit);
    insert_if_present(requests, "memory", memory_request);
    insert_if_present(limits, "memory", memory_limit);
    insert_if_present(limits, "nvidia.com/gpu", gpu_limit);
}

/// The map, or nothing where it is empty.
fn keep_non_empty(m: StringMap) -> (r: Option<StringMap>)
    ensures
        map_view(r) == non_empty(m@),
{
    if m.is_empty() {
        None
    } else {
        Some(m)
    }
}

/// One environment variable for each pair of `m`, in order.
fn env_vars_from(m: &StringMap) -> (r: Vec<NotebookEnvVar>)
    ensures
        env_pairs(r@) == m.pairs(),
{
    let n = m.len();
    let mut out: Vec<NotebookEnvVar> = Vec::new();
    let mut i: usize = 0;
    while i < n
        invariant
            n == m.pairs().len(),
            0 <= i <= n,
            env_pairs(out@) =~= m.pairs().subrange(0, i as int),
        decreases n - i,
    {
        let ghost prev = out@;
        let e = NotebookEnvVar { name: m.key_at(i).clone(), value: m.value_at(i).clone() };
        out.push(e);
        proof {
            assert(out@ == prev.push(e));
            assert(env_pairs(out@) =~= env_pairs(prev).push((e.name@, e.value@)));
            assert(env_pairs(out@) =~= m.pairs().subrange(0, i + 1));
        }
        i = i + 1;
    }
    assert(m.pairs().subrange(0, n as int) =~= m.pairs());
    out
}

fn env_from_request(o: &Option<StringMap>) -> (r: Option<Vec<NotebookEnvVar>>)
    ensures
        env_view(r) == env_source(*o),
{
    match o {
        Some(m) => Some(env_vars_from(m)),
        None => None,
    }
}

/// `c` is the workspace claim of notebook `name` in `namespace` with storage `size`.
pub open spec fn is_workspace_claim(c: WorkspaceClaim, namespace: Seq<char>, name: Seq<char>, size: Seq<char>) -> bool {
    &&& c.name@ == workspace_claim_name(name)
    &&& c.namespace@ == namespace
    &&& c.access_mode@ == WORKSPACE_ACCESS_MODE@
    &&& c.size@ == size
}

/// The first problem of a create request, checked in this order: the name, the
/// image, the namespace, the CPU request and limit, the memory request and limit,
/// the workspace size.
pub open spec fn create_request_problem(r: CreateNotebookRequest) -> Option<Seq<char>> {
    first_problem(
        resource_name_problem(r.name@),
        first_problem(
            image_problem(r.image@),
            first_problem(
                opt_namespace_problem(r.namespace),
                first_problem(
                    opt_cpu_problem(r.cpu_request),
                    first_problem(
                        opt_cpu_problem(r.cpu_limit),
                        first_problem(
                            opt_memory_problem(r.memory_request),
                            first_problem(
                                opt_memory_problem(r.memory_limit),
                                opt_memory_problem(r.workspace_volume_size),
                            ),
                        ),
                    ),
                ),
            ),
        ),
    )
}

/// The first problem of an update of notebook `name` in `namespace`, checked in this
/// order: the address, the image, the CPU request and limit, the memory request and
/// limit.
pub open spec fn update_request_problem(
    namespace: Seq<char>,
    name: Seq<char>,
    r: UpdateNotebookRequest,
) -> Option<Seq<char>> {
    first_problem(
        identity_problem(namespace, name),
        first_problem(
            opt_image_problem(r.image),
            first_problem(
                opt_cpu_problem(r.cpu_request),
                first_problem(
                    opt_cpu_problem(r.cpu_limit),
                    first_problem(opt_memory_problem(r.memory_request), opt_memory_problem(r.memory_limit)),
                ),
            ),
        ),
    )
}

/// Validates a create request before anything is sent to the orchestrator.
pub fn validate_create_request(request: &CreateNotebookRequest) -> (r: Result<(), AppError>)
    ensures
        reports(r, create_request_problem(*request)),
{
    let checked = validate_resource_name(request.name.as_str());
    if checked.is_err() {
        return checked;
    }
    let checked = validate_image_name(request.image.as_str());
    if checked.is_err() {
        return checked;
    }
    let checked = validate_optional_namespace(&request.namespace);
    if checked.is_err() {
        return checked;
    }
    let checked = validate_optional_cpu(&request.cpu_request);
    if checked.is_err() {
        return checked;
    }
    let checked = validate_optional_cpu(&request.cpu_limit);
    if checked.is_err() {
        return checked;
    }
    let checked = validate_optional_memory(&request.memory_request);
    if checked.is_err() {
        return checked;
    }
    let checked = validate_optional_memory(&request.memory_limit);
    if checked.is_err() {
        return checked;
    }
    validate_optional_memory(&request.workspace_volume_size)
}

/// Validates an update of notebook `name` in `namespace` before anything is sent to
/// the orchestrator.
pub fn validate_update_request(namespace: &str, name: &str, request: &UpdateNotebookRequest) -> (r:
    Result<(), AppError>)
    ensures
        reports(r, update_request_problem(namespace@, name@, *request)),
{
    let checked = validate_identity(namespace, name);
    if checked.is_err() {
        return checked;
    }
    let checked = validate_optional_image(&request.image);
    if checked.is_err() {
        return checked;
    }
    let checked = validate_optional_cpu(&request.cpu_request);
    if checked.is_err() {
        return checked;
    }
    let checked = validate_optional_cpu(&request.cpu_limit);
    if checked.is_err() {
        return checked;
    }
    let checked = validate_optional_memory(&request.memory_request);
    if checked.is_err() {
        return checked;
    }
    validate_optional_memory(&request.memory_limit)
}

/// The manager of notebook resources.
pub struct KubeflowManager;

impl KubeflowManager {
    /// Builds the spec of a new notebook: one container named `notebook` that runs the
    /// requested image and exposes the notebook port, with the resource quantities, the
    /// environment and the service account that the request gives, and a workspace
    /// volume backed by a storage claim where a workspace size is requested.
    pub fn build_notebook_spec(&self, request: &CreateNotebookRequest) -> (r: Result<
        NotebookSpec,
        AppError,
    >)
        ensures
            r matches Ok(spec) && is_notebook_spec_for(spec, *request),
    {
        let mut requests = StringMap::new();
        let mut limits = StringMap::new();
        overlay_quantities(
            &mut requests,
            &mut limits,
            &request.cpu_request,
            &request.cpu_limit,
            &request.memory_request,
            &request.memory_limit,
            &request.gpu_limit,
        );
        let resources = if !requests.is_empty() || !limits.is_empty() {
            Some(
                NotebookResources { requests: keep_non_empty(requests), limits: keep_non_empty(limits) },
            )
        } else {
            None
        };

        let env = env_from_request(&request.environment_variables);

        let (volume_mounts, volumes) = if request.workspace_volume_size.is_some() {
            let mount_path = match &request.workspace_volume_mount {
                Some(p) => p.clone(),
                None => String::from_str(DEFAULT_WORKSPACE_MOUNT),
            };
            let mounts = vec![
                NotebookVolumeMount {
                    name: joined(request.name.as_str(), "-workspace"),
                    mount_path,
                },
            ];
            let volumes = vec![
                NotebookVolume {
                    name: joined(request.name.as_str(), "-workspace"),
                    persistent_volume_claim: Some(
                        NotebookPvcSource {
                            claim_name: joined(request.name.as_str(), "-workspace-pvc"),
                        },
                    ),
                    empty_dir: None,
                },
            ];
            (Some(mounts), Some(volumes))
        } else {
            (None, None)
        };

        let ports = vec![
            NotebookPort {
                container_port: NOTEBOOK_PORT,
                name: String::from_str("notebook-port"),
                protocol: String::from_str("TCP"),
            },
        ];

        let container = NotebookContainer {
            name: String::from_str("notebook"),
            image: request.image.clone(),
            resources,
            env,
            volume_mounts,
            ports: Some(ports),
        };

        let pod = NotebookPodSpec {
            containers: vec![container],
            volumes,
            service_account_name: clone_opt(&request.service_account),
        };

        Ok(NotebookSpec { template: NotebookTemplate { spec: pod } })
    }

    /// Applies an update to the spec of an existing notebook. Only the first container
    /// changes: its image is replaced, its request and limit maps are merged key by key
    /// with the quantities that the update gives, and its environment is replaced as a
    /// whole. Everything else is kept as it was.
    pub fn build_update_spec(
        &self,
        existing_spec: NotebookSpec,
        request: &UpdateNotebookRequest,
    ) -> (r: Result<NotebookSpec, AppError>)
        ensures
            r matches Ok(spec) && {
                let old_pod = existing_spec.template.spec;
                let pod = spec.template.spec;
                if old_pod.containers@.len() == 0 {
                    spec == existing_spec
                } else {
                    &&& pod.volumes == old_pod.volumes
                    &&& pod.service_account_name == old_pod.service_account_name
                    &&& pod.containers@.len() == old_pod.containers@.len()
                    &&& forall|i: int|
                        1 <= i < pod.containers@.len() ==> pod.containers@[i]
                            == old_pod.containers@[i]
                    &&& container_updated(old_pod.containers@[0], pod.containers@[0], *request)
                }
            },
    {
        let ghost old_spec = existing_spec;
        let NotebookSpec { template } = existing_spec;
        let NotebookTemplate { spec: pod } = template;
        let NotebookPodSpec { mut containers, volumes, service_account_name } = pod;
        if containers.len() == 0 {
            return Ok(
                NotebookSpec {
                    template: NotebookTemplate {
                        spec: NotebookPodSpec { containers, volumes, service_account_name },
                    },
                },
            );
        }
        let ghost old_containers = containers@;
        let first = containers.remove(0);
        let NotebookContainer { name, image, resources, env, volume_mounts, ports } = first;

        let image = match &request.image {
            Some(i) => i.clone(),
            None => image,
        };

        let resources = if request.cpu_request.is_some() || request.cpu_limit.is_some()
            || request.memory_request.is_some() || request.memory_limit.is_some()
            || request.gpu_limit.is_some() {
            let (old_requests, old_limits) = match resources {
                Some(NotebookResources { requests, limits }) => (requests, limits),
                None => (None, None),
            };
            let mut requests = match old_requests {
                Some(m) => m,
                None => StringMap::new(),
            };
            let mut limits = match old_limits {
                Some(m) => m,
                None => StringMap::new(),
            };
            overlay_quantities(
                &mut requests,
                &mut limits,
                &request.cpu_request,
                &request.cpu_limit,
                &request.memory_request,
                &request.memory_limit,
                &request.gpu_limit,
            );
            Some(
                NotebookResources { requests: keep_non_empty(requests), limits: keep_non_empty(limits) },
            )
        } else {
            resources
        };

        let env = match &request.environment_variables {
            Some(m) => Some(env_vars_from(m)),
            None => env,
        };

        containers.insert(0, NotebookContainer { name, image, resources, env, volume_mounts, ports });
        proof {
            assert forall|i: int| 1 <= i < containers@.len() implies containers@[i]
                == old_containers[i] by {}
        }
        Ok(
            NotebookSpec {
                template: NotebookTemplate {
                    spec: NotebookPodSpec { containers, volumes, service_account_name },
                },
            },
        )
    }

    /// Name of the storage claim behind the workspace of notebook `notebook_name`.
    pub fn workspace_claim_name(&self, notebook_name: &str) -> (r: String)
        ensures
            r@ == workspace_claim_name(notebook_name@),
    {
        joined(notebook_name, "-workspace-pvc")
    }

    /// The storage claim that backs the workspace of notebook `notebook_name`.
    pub fn workspace_claim(&self, namespace: &str, notebook_name: &str, size: &str) -> (r:
        WorkspaceClaim)
        ensures
            is_workspace_claim(r, namespace@, notebook_name@, size@),
    {
        WorkspaceClaim {
            name: self.workspace_claim_name(notebook_name),
            namespace: String::from_str(namespace),
            access_mode: String::from_str(WORKSPACE_ACCESS_MODE),
            size: String::from_str(size),
        }
    }

    /// Builds the notebook that a create request asks for, in the request's namespace
    /// or the default one, with the workspace claim to provision where a workspace
    /// size is requested.
    pub fn plan_create(&self, request: CreateNotebookRequest) -> (r: Result<NewNotebook, AppError>)
        ensures
            r matches Ok(n) && {
                &&& n.name@ == request.name@
                &&& n.namespace@ == namespace_or_default_spec(request.namespace)
                &&& is_notebook_spec_for(n.spec, request)
                &&& match request.workspace_volume_size {
                    Some(size) => n.claim matches Some(c) && is_workspace_claim(
                        c,
                        n.namespace@,
                        request.name@,
                        size@,
                    ),
                    None => n.claim is None,
                }
            },
    {
        let namespace = namespace_or_default(&request.namespace);
        let claim = match &request.workspace_volume_size {
            Some(size) => Some(
                self.workspace_claim(namespace.as_str(), request.name.as_str(), size.as_str()),
            ),
            None => None,
        };
        let spec = match self.build_notebook_spec(&request) {
            Ok(spec) => spec,
            Err(e) => {
                return Err(e);
            },
        };
        Ok(NewNotebook { name: request.name, namespace, claim, spec })
    }

    /// The error that a failed read, update or delete of notebook `name` is reported as.
    pub fn lookup_failure(&self, namespace: &str, name: &str, failure: KubeFailure) -> (r: AppError)
        ensures
            lookup_error(NOTEBOOK_KIND@, namespace@, name@, failure, r),
    {
        classify_lookup_failure(NOTEBOOK_KIND, namespace, name, failure)
    }

    /// The acknowledgement of a stored notebook, with the name and namespace that the
    /// orchestrator reported.
    pub fn created_ack(&self, name: Option<String>, namespace: Option<String>) -> (r: ResourceAck)
        ensures
            r.message@ == "Kubeflow notebook created successfully"@,
            r.name == name,
            r.namespace == namespace,
            r.resource_type@ == NOTEBOOK_TYPE@,
    {
        ResourceAck::new(
            String::from_str("Kubeflow notebook created successfully"),
            name,
            namespace,
            NOTEBOOK_TYPE,
        )
    }

    /// The acknowledgement of an updated notebook.
    pub fn updated_ack(&self, name: Option<String>, namespace: Option<String>) -> (r: ResourceAck)
        ensures
            r.message@ == "Kubeflow notebook updated successfully"@,
            r.name == name,
            r.namespace == namespace,
            r.resource_type@ == NOTEBOOK_TYPE@,
    {
        ResourceAck::new(
            String::from_str("Kubeflow notebook updated successfully"),
            name,
            namespace,
            NOTEBOOK_TYPE,
        )
    }

    /// What a delete of notebook `name` in `namespace` answers, given what the
    /// orchestrator said about the notebook itself: an acknowledgement, `NotFound`
    /// where there was no such notebook, or the orchestrator's failure. The workspace
    /// claim's removal has no part in it.
    pub fn delete_outcome(&self, namespace: &str, name: &str, result: Result<(), KubeFailure>) -> (r:
        Result<ResourceAck, AppError>)
        ensures
            match result {
                Ok(()) => r matches Ok(ack) && {
                    &&& ack.message@ == NOTEBOOK_KIND@ + " '"@ + name@ + "' deleted successfully"@
                    &&& ack.name matches Some(n) && n@ == name@
                    &&& ack.namespace matches Some(ns) && ns@ == namespace@
                    &&& ack.resource_type@ == NOTEBOOK_TYPE@
                },
                Err(f) => r matches Err(e) && lookup_error(NOTEBOOK_KIND@, namespace@, name@, f, e),
            },
    {
        match result {
            Ok(()) => {
                let mut message = joined(NOTEBOOK_KIND, " '");
                message.append(name);
                message.append("' deleted successfully");
                Ok(
                    ResourceAck::new(
                        message,
                        Some(String::from_str(name)),
                        Some(String::from_str(namespace)),
                        NOTEBOOK_TYPE,
                    ),
                )
            },
            Err(f) => Err(classify_lookup_failure(NOTEBOOK_KIND, namespace, name, f)),
        }
    }

    /// How a best-effort removal or provisioning of a workspace claim went. A failure
    /// is kept for the log, with the orchestrator's detail, and goes no further.
    pub fn compensation_outcome(&self, result: Result<(), KubeFailure>) -> (r: CompensationOutcome)
        ensures
            result is Ok <==> r is Completed,
            r matches CompensationOutcome::Failed { detail } ==> (result matches Err(f) && detail@
                == crate::error::kube_message(f)),
    {
        match result {
            Ok(()) => CompensationOutcome::Completed,
            Err(f) => {
                let detail = f.describe();
                CompensationOutcome::Failed { detail }
            },
        }
    }

    /// The listing of the given notebooks.
    pub fn list_envelope(&self, notebooks: Vec<ResourceInfo>) -> (r: ResourceList)
        ensures
            r.resources == notebooks,
            r.count == notebooks@.len(),
            r.resource_type@ == NOTEBOOK_LIST_TYPE@,
    {
        ResourceList::from_items(notebooks, NOTEBOOK_LIST_TYPE)
    }

    /// The listing entry of one notebook.
    pub fn list_entry(
        &self,
        name: Option<String>,
        namespace: Option<String>,
        creation_timestamp: Option<String>,
    ) -> (r: ResourceInfo)
        ensures
            r.name == name,
            r.namespace == namespace,
            r.creation_timestamp == creation_timestamp,
            r.resource_type@ == NOTEBOOK_TYPE@,
            r.instances is None,
            r.status is None,
    {
        ResourceInfo {
            name,
            namespace,
            resource_type: String::from_str(NOTEBOOK_TYPE),
            instances: None,
            creation_timestamp,
            status: None,
        }
    }
}

} // verus!
