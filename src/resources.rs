use vstd::prelude::*;
use vstd::string::StringExecFns;
use crate::error::AppError;
use crate::error::KubeFailure;
use crate::error::joined;
use crate::validation::namespace_problem;
use crate::validation::validate_namespace;

verus! {

/// The namespace that a request without one is served in.
pub const DEFAULT_NAMESPACE: &'static str = "default";

/// The query of a list request.
#[derive(Debug)]
pub struct ListQuery {
    pub namespace: Option<String>,
}

/// One entry of a listing. The instance count is that of a database cluster;
/// other kinds have none.
#[derive(Debug)]
pub struct ResourceInfo {
    pub name: Option<String>,
    pub namespace: Option<String>,
    pub resource_type: String,
    pub instances: Option<i32>,
    pub creation_timestamp: Option<String>,
    pub status: Option<String>,
}

/// The answer to a list request: the entries, their number and their kind.
#[derive(Debug)]
pub struct ResourceList {
    pub resources: Vec<ResourceInfo>,
    pub count: usize,
    pub resource_type: String,
}

/// The acknowledgement of a create, update or delete.
#[derive(Debug)]
pub struct ResourceAck {
    pub message: String,
    pub name: Option<String>,
    pub namespace: Option<String>,
    pub resource_type: String,
}

pub open spec fn namespace_or_default_spec(ns: Option<String>) -> Seq<char> {
    match ns {
        Some(n) => n@,
        None => DEFAULT_NAMESPACE@,
    }
}

/// The namespace given, or the default one.
pub fn namespace_or_default(ns: &Option<String>) -> (r: String)
    ensures
        r@ == namespace_or_default_spec(*ns),
{
    match ns {
        Some(n) => n.clone(),
        None => String::from_str(DEFAULT_NAMESPACE),
    }
}

/// The message that says that resource `name` of kind `kind` is not in `namespace`.
pub open spec fn not_found_text(kind: Seq<char>, name: Seq<char>, namespace: Seq<char>) -> Seq<char> {
    kind + " '"@ + name + "' not found in namespace '"@ + namespace + "'"@
}

pub fn not_found_message(kind: &str, name: &str, namespace: &str) -> (r: String)
    ensures
        r@ == not_found_text(kind@, name@, namespace@),
{
    let mut s = joined(kind, " '");
    s.append(name);
    s.append("' not found in namespace '");
    s.append(namespace);
    s.append("'");
    s
}

/// The error that a failed read or delete of resource `name` is reported as.
pub open spec fn lookup_error(
    kind: Seq<char>,
    namespace: Seq<char>,
    name: Seq<char>,
    failure: KubeFailure,
    e: AppError,
) -> bool {
    match failure {
        KubeFailure::Api { code, .. } if code == 404 => e matches AppError::NotFound(m) && m@
            == not_found_text(kind, name, namespace),
        _ => e == AppError::Kube(failure),
    }
}

/// A read or delete of a resource that does not exist is reported as `NotFound`, and
/// no failed read or delete is ever reported as an internal error.
pub proof fn lemma_missing_resource_is_not_found(
    kind: Seq<char>,
    namespace: Seq<char>,
    name: Seq<char>,
    failure: KubeFailure,
    e: AppError,
)
    requires
        lookup_error(kind, namespace, name, failure, e),
    ensures
        !(e is Internal),
        (failure matches KubeFailure::Api { code, .. } && code == 404) ==> e is NotFound,
{
}

/// Classifies a failed read or delete: the orchestrator's "not found" becomes
/// `NotFound` with a message that names the resource and the namespace; any other
/// failure is passed on as it came.
pub fn classify_lookup_failure(kind: &str, namespace: &str, name: &str, failure: KubeFailure) -> (r:
    AppError)
    ensures
        lookup_error(kind@, namespace@, name@, failure, r),
{
    match failure {
        KubeFailure::Api { code, message } => {
            if code == 404 {
                AppError::NotFound(not_found_message(kind, name, namespace))
            } else {
                AppError::Kube(KubeFailure::Api { code, message })
            }
        },
        other => AppError::Kube(other),
    }
}

impl ListQuery {
    /// The namespace to list: the one asked for, once it is valid, or the default one.
    pub fn resolve_namespace(&self) -> (r: Result<String, AppError>)
        ensures
            match self.namespace {
                Some(ns) => match namespace_problem(ns@) {
                    Some(m) => r matches Err(AppError::Validation(msg)) && msg@ == m,
                    None => r matches Ok(s) && s@ == ns@,
                },
                None => r matches Ok(s) && s@ == DEFAULT_NAMESPACE@,
            },
    {
        match &self.namespace {
            Some(ns) => match validate_namespace(ns.as_str()) {
                Ok(()) => Ok(ns.clone()),
                Err(e) => Err(e),
            },
            None => Ok(String::from_str(DEFAULT_NAMESPACE)),
        }
    }
}

impl ResourceList {
    /// The listing of `resources`, all of kind `resource_type`.
    pub fn from_items(resources: Vec<ResourceInfo>, resource_type: &str) -> (r: ResourceList)
        ensures
            r.resources == resources,
            r.count == resources@.len(),
            r.resource_type@ == resource_type@,
    {
        let count = resources.len();
        ResourceList { resources, count, resource_type: String::from_str(resource_type) }
    }
}

impl ResourceAck {
    pub fn new(message: String, name: Option<String>, namespace: Option<String>, resource_type: &str) -> (r:
        ResourceAck)
        ensures
            r.message == message,
            r.name == name,
            r.namespace == namespace,
            r.resource_type@ == resource_type@,
    {
        ResourceAck { message, name, namespace, resource_type: String::from_str(resource_type) }
    }
}

} // verus!
