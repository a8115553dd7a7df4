use k8s_resource_manager::cnpg::validate_create_request;
use k8s_resource_manager::cnpg::validate_update_request;
use k8s_resource_manager::cnpg::CnpgManager;
use k8s_resource_manager::cnpg::CreateClusterRequest;
use k8s_resource_manager::cnpg::UpdateClusterRequest;
use k8s_resource_manager::error::AppError;
use k8s_resource_manager::error::KubeFailure;
use k8s_resource_manager::resources::ListQuery;
use k8s_resource_manager::resources::ResourceInfo;
use k8s_resource_manager::string_map::StringMap;

fn scenario_request() -> CreateClusterRequest {
    CreateClusterRequest {
        name: "pg1".to_string(),
        namespace: None,
        instances: 3,
        database_name: "app".to_string(),
        database_owner: "app_owner".to_string(),
        secret_name: "s".to_string(),
        storage_size: "10Gi".to_string(),
        storage_class: None,
        postgresql_parameters: None,
        monitoring_enabled: None,
    }
}

#[test]
fn create_builds_bootstrap_and_storage_without_monitoring() {
    let request = scenario_request();
    assert!(validate_create_request(&request).is_ok());
    let planned = CnpgManager.plan_create(request);
    assert_eq!(planned.name, "pg1");
    assert_eq!(planned.namespace, "default");
    let spec = planned.spec;
    assert_eq!(spec.instances, 3);
    let initdb = spec.bootstrap.expect("bootstrap").initdb.expect("initdb");
    assert_eq!(initdb.database, "app");
    assert_eq!(initdb.owner, "app_owner");
    assert_eq!(initdb.secret.name, "s");
    let storage = spec.storage.expect("storage");
    assert_eq!(storage.size, "10Gi");
    assert!(storage.storage_class.is_none());
    assert!(spec.monitoring.is_none());
    assert!(spec.postgresql.parameters.is_empty());
}

#[test]
fn create_keeps_parameters_class_and_monitoring() {
    let mut params = StringMap::new();
    params.insert("max_connections".to_string(), "200".to_string());
    params.insert("shared_buffers".to_string(), "256MB".to_string());
    let mut request = scenario_request();
    request.namespace = Some("db".to_string());
    request.storage_class = Some("fast".to_string());
    request.postgresql_parameters = Some(params);
    request.monitoring_enabled = Some(false);
    let planned = CnpgManager.plan_create(request);
    assert_eq!(planned.namespace, "db");
    let spec = planned.spec;
    assert_eq!(spec.postgresql.parameters.len(), 2);
    assert_eq!(spec.postgresql.parameters.get("max_connections").unwrap(), "200");
    assert_eq!(spec.storage.unwrap().storage_class.unwrap(), "fast");
    let monitoring = spec.monitoring.expect("monitoring");
    assert!(!monitoring.enable_pod_monitor);
    assert!(!monitoring.disable_default_queries);
}

#[test]
fn update_with_instances_only_keeps_other_fields() {
    let mut params = StringMap::new();
    params.insert("work_mem".to_string(), "4MB".to_string());
    let mut request = scenario_request();
    request.postgresql_parameters = Some(params);
    request.monitoring_enabled = Some(true);
    let spec = CnpgManager.plan_create(request).spec;
    let update = UpdateClusterRequest { instances: Some(5), postgresql_parameters: None, monitoring_enabled: None };
    assert!(validate_update_request("default", "pg1", &update).is_ok());
    let merged = CnpgManager.merge_update(spec, update);
    assert_eq!(merged.instances, 5);
    assert_eq!(merged.postgresql.parameters.len(), 1);
    assert_eq!(merged.postgresql.parameters.get("work_mem").unwrap(), "4MB");
    assert!(merged.monitoring.unwrap().enable_pod_monitor);
    assert_eq!(merged.storage.unwrap().size, "10Gi");
    assert_eq!(merged.bootstrap.unwrap().initdb.unwrap().database, "app");
}

#[test]
fn update_replaces_parameters_and_monitoring() {
    let spec = CnpgManager.plan_create(scenario_request()).spec;
    let mut params = StringMap::new();
    params.insert("a".to_string(), "1".to_string());
    let update = UpdateClusterRequest {
        instances: None,
        postgresql_parameters: Some(params),
        monitoring_enabled: Some(true),
    };
    let merged = CnpgManager.merge_update(spec, update);
    assert_eq!(merged.instances, 3);
    assert_eq!(merged.postgresql.parameters.get("a").unwrap(), "1");
    assert!(merged.monitoring.unwrap().enable_pod_monitor);
}

#[test]
fn create_request_checks_in_order() {
    let mut request = scenario_request();
    request.instances = 0;
    request.storage_size = "2GB".to_string();
    match validate_create_request(&request) {
        Err(AppError::Validation(m)) => assert_eq!(m, "Instance count must be at least 1"),
        other => panic!("unexpected {:?}", other),
    }
    let mut request = scenario_request();
    request.storage_size = "2GB".to_string();
    assert!(validate_create_request(&request).is_err());
    let mut request = scenario_request();
    request.namespace = Some("Bad".to_string());
    assert!(validate_create_request(&request).is_err());
    let mut request = scenario_request();
    request.database_owner = "owner-1".to_string();
    assert!(validate_create_request(&request).is_err());
}

#[test]
fn update_request_checks_instances() {
    let update = UpdateClusterRequest { instances: Some(11), postgresql_parameters: None, monitoring_enabled: None };
    assert!(validate_update_request("default", "pg1", &update).is_err());
    let update = UpdateClusterRequest { instances: None, postgresql_parameters: None, monitoring_enabled: None };
    assert!(validate_update_request("default", "pg1", &update).is_ok());
    assert!(validate_update_request("", "pg1", &update).is_err());
}

#[test]
fn delete_of_missing_cluster_is_not_found() {
    let failure = KubeFailure::Api { code: 404, message: "clusters \"pg9\" not found".to_string() };
    match CnpgManager.delete_outcome("default", "pg9", Err(failure)) {
        Err(AppError::NotFound(m)) => assert_eq!(m, "CNPG cluster 'pg9' not found in namespace 'default'"),
        other => panic!("unexpected {:?}", other),
    }
}

#[test]
fn delete_success_and_other_failures() {
    let ack = CnpgManager.delete_outcome("default", "pg1", Ok(())).unwrap();
    assert_eq!(ack.message, "CNPG cluster 'pg1' deleted successfully");
    assert_eq!(ack.name.as_deref(), Some("pg1"));
    assert_eq!(ack.namespace.as_deref(), Some("default"));
    assert_eq!(ack.resource_type, "cnpg-cluster");
    let failure = KubeFailure::Api { code: 409, message: "busy".to_string() };
    assert!(matches!(
        CnpgManager.delete_outcome("default", "pg1", Err(failure)),
        Err(AppError::Kube(KubeFailure::Api { code: 409, .. }))
    ));
}

#[test]
fn lookup_failure_names_cluster() {
    let e = CnpgManager.lookup_failure("ns", "pg1", KubeFailure::Api { code: 404, message: String::new() });
    assert!(matches!(e, AppError::NotFound(ref m) if m == "CNPG cluster 'pg1' not found in namespace 'ns'"));
    let e = CnpgManager.lookup_failure("ns", "pg1", KubeFailure::Other { message: "timeout".to_string() });
    assert!(matches!(e, AppError::Kube(KubeFailure::Other { .. })));
}

#[test]
fn acknowledgements_and_listing() {
    let ack = CnpgManager.created_ack(Some("pg1".to_string()), Some("default".to_string()));
    assert_eq!(ack.message, "CNPG cluster created successfully");
    assert_eq!(ack.name.unwrap(), "pg1");
    assert_eq!(ack.resource_type, "cnpg-cluster");
    let ack = CnpgManager.updated_ack(None, None);
    assert_eq!(ack.message, "CNPG cluster updated successfully");
    let entries: Vec<ResourceInfo> = vec![
        CnpgManager.list_entry(Some("a".to_string()), Some("default".to_string()), 3, None),
        CnpgManager.list_entry(Some("b".to_string()), Some("default".to_string()), 1, None),
    ];
    assert_eq!(entries[0].resource_type, "cnpg-cluster");
    assert_eq!(entries[0].instances, Some(3));
    assert_eq!(entries[1].instances, Some(1));
    let list = CnpgManager.list_envelope(entries);
    assert_eq!(list.count, 2);
    assert_eq!(list.resource_type, "cnpg-clusters");
    assert_eq!(list.resources[1].name.as_deref(), Some("b"));
    let empty = CnpgManager.list_envelope(Vec::new());
    assert_eq!(empty.count, 0);
}

#[test]
fn list_namespace_defaults_and_validates() {
    assert_eq!(ListQuery { namespace: None }.resolve_namespace().unwrap(), "default");
    assert_eq!(ListQuery { namespace: Some("team".to_string()) }.resolve_namespace().unwrap(), "team");
    assert!(ListQuery { namespace: Some("Team".to_string()) }.resolve_namespace().is_err());
}
