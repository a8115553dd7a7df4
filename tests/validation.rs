use k8s_resource_manager::error::AppError;
use k8s_resource_manager::validation::is_decimal;
use k8s_resource_manager::validation::is_u32;
use k8s_resource_manager::validation::validate_cpu_resource;
use k8s_resource_manager::validation::validate_database_name;
use k8s_resource_manager::validation::validate_identity;
use k8s_resource_manager::validation::validate_image_name;
use k8s_resource_manager::validation::validate_instance_count;
use k8s_resource_manager::validation::validate_memory_resource;
use k8s_resource_manager::validation::validate_namespace;
use k8s_resource_manager::validation::validate_resource_name;
use k8s_resource_manager::validation::validate_storage_size;

fn validation_message(r: Result<(), AppError>) -> String {
    match r {
        Err(AppError::Validation(m)) => m,
        other => panic!("expected a validation error, got {:?}", other),
    }
}

#[test]
fn test_validate_resource_name() {
    assert!(validate_resource_name("valid-name").is_ok());
    assert!(validate_resource_name("test123").is_ok());
    assert!(validate_resource_name("").is_err());
    assert!(validate_resource_name("-invalid").is_err());
    assert!(validate_resource_name("invalid-").is_err());
    assert!(validate_resource_name("Invalid").is_err());
}

#[test]
fn test_validate_cpu_resource() {
    assert!(validate_cpu_resource("100m").is_ok());
    assert!(validate_cpu_resource("1").is_ok());
    assert!(validate_cpu_resource("2.5").is_ok());
    assert!(validate_cpu_resource("").is_err());
    assert!(validate_cpu_resource("invalid").is_err());
}

#[test]
fn test_validate_memory_resource() {
    assert!(validate_memory_resource("1Gi").is_ok());
    assert!(validate_memory_resource("500Mi").is_ok());
    assert!(validate_memory_resource("2G").is_ok());
    assert!(validate_memory_resource("").is_err());
    assert!(validate_memory_resource("1GB").is_err());
    assert!(validate_memory_resource("invalid").is_err());
}

#[test]
fn resource_name_messages() {
    assert_eq!(validation_message(validate_resource_name("")), "Resource name cannot be empty");
    let long = "a".repeat(254);
    assert_eq!(
        validation_message(validate_resource_name(&long)),
        "Resource name cannot exceed 253 characters"
    );
    assert!(validate_resource_name(&"a".repeat(253)).is_ok());
    assert_eq!(
        validation_message(validate_resource_name("a_b")),
        "Resource name must be lowercase alphanumeric characters or '-', and cannot start or end with '-'"
    );
    assert!(validate_resource_name("a").is_ok());
    assert!(validate_resource_name("-").is_err());
}

#[test]
fn namespace_rules() {
    assert_eq!(validation_message(validate_namespace("")), "Namespace cannot be empty");
    assert!(validate_namespace("team-a").is_ok());
    assert!(validate_namespace(".").is_err());
    assert!(validate_namespace("..").is_err());
    assert!(validate_namespace("Team").is_err());
}

#[test]
fn identity_checks_namespace_first() {
    assert_eq!(validation_message(validate_identity("", "")), "Namespace cannot be empty");
    assert_eq!(validation_message(validate_identity("ns", "")), "Resource name cannot be empty");
    assert!(validate_identity("ns", "pg1").is_ok());
}

#[test]
fn cpu_formats() {
    assert!(validate_cpu_resource("0m").is_ok());
    assert!(validate_cpu_resource("+5m").is_ok());
    assert!(validate_cpu_resource("4294967295m").is_ok());
    assert!(validate_cpu_resource("4294967296m").is_err());
    assert!(validate_cpu_resource("-5m").is_err());
    assert!(validate_cpu_resource("m").is_err());
    assert!(validate_cpu_resource("1.5m").is_err());
    assert!(validate_cpu_resource(".5").is_ok());
    assert!(validate_cpu_resource("5.").is_ok());
    assert!(validate_cpu_resource(".").is_err());
    assert!(validate_cpu_resource("1e3").is_ok());
    assert!(validate_cpu_resource("1e").is_err());
    assert!(validate_cpu_resource("-0.25").is_ok());
    assert_eq!(
        validation_message(validate_cpu_resource("2 cores")),
        "Invalid CPU format. Use formats like '100m', '1', or '2.5'"
    );
    assert_eq!(validation_message(validate_cpu_resource("")), "CPU resource cannot be empty");
}

#[test]
fn decimal_grammar() {
    assert!(is_decimal("inf"));
    assert!(is_decimal("-Infinity"));
    assert!(is_decimal("NaN"));
    assert!(is_decimal("1.5E-3"));
    assert!(is_decimal("+7"));
    assert!(!is_decimal(""));
    assert!(!is_decimal("+"));
    assert!(!is_decimal("1.2.3"));
    assert!(!is_decimal("1e5e5"));
    assert!(!is_decimal(" 1"));
    assert!(!is_decimal("infinit"));
    for s in ["inf", "-Infinity", "NaN", "1.5E-3", "+7", "", "+", "1.2.3", "1e5e5", " 1", ".e1", "0x10"] {
        assert_eq!(is_decimal(s), s.parse::<f64>().is_ok(), "{}", s);
    }
}

#[test]
fn unsigned_grammar() {
    for s in ["0", "+1", "4294967295", "4294967296", "", "+", "-1", "12a", "007"] {
        assert_eq!(is_u32(s), s.parse::<u32>().is_ok(), "{}", s);
    }
}

#[test]
fn memory_suffixes() {
    for ok in ["1Ki", "1Mi", "1Gi", "1Ti", "1Pi", "1Ei", "1K", "1M", "1G", "1T", "1P", "1E", "0.5Gi", "1e3M"] {
        assert!(validate_memory_resource(ok).is_ok(), "{}", ok);
    }
    for bad in ["2GB", "1", "1k", "1mi", "Gi", "1.2.3Gi", "1Gi ", "1i"] {
        assert!(validate_memory_resource(bad).is_err(), "{}", bad);
    }
    assert_eq!(
        validation_message(validate_memory_resource("2GB")),
        "Invalid memory format. Use formats like '1Gi', '500Mi', '2G'"
    );
    assert_eq!(
        validation_message(validate_memory_resource("xGi")),
        "Invalid memory format. Numeric part must be a valid number"
    );
    assert_eq!(validation_message(validate_memory_resource("")), "Memory resource cannot be empty");
}

#[test]
fn storage_follows_memory_rules() {
    assert!(validate_storage_size("10Gi").is_ok());
    assert!(validate_storage_size("10GB").is_err());
}

#[test]
fn image_rules() {
    assert!(validate_image_name("nginx").is_ok());
    assert!(validate_image_name("nginx:latest").is_ok());
    assert!(validate_image_name("registry/image:tag").is_ok());
    assert!(validate_image_name("/").is_ok());
    assert_eq!(validation_message(validate_image_name("")), "Container image cannot be empty");
    assert_eq!(
        validation_message(validate_image_name("x")),
        "Invalid image format. Use formats like 'nginx', 'nginx:latest', or 'registry/image:tag'"
    );
}

#[test]
fn database_name_rules() {
    assert!(validate_database_name("app").is_ok());
    assert!(validate_database_name("_App_1").is_ok());
    assert!(validate_database_name(&"d".repeat(63)).is_ok());
    assert_eq!(
        validation_message(validate_database_name(&"d".repeat(64))),
        "Database name cannot exceed 63 characters"
    );
    assert_eq!(validation_message(validate_database_name("")), "Database name cannot be empty");
    assert_eq!(
        validation_message(validate_database_name("1app")),
        "Database name must start with a letter or underscore"
    );
    assert_eq!(
        validation_message(validate_database_name("app-db")),
        "Database name can only contain letters, digits, and underscores"
    );
}

#[test]
fn instance_count_bounds() {
    for n in 1..=10 {
        assert!(validate_instance_count(n).is_ok());
    }
    for n in [i32::MIN, -1, 0, 11, 100, i32::MAX] {
        assert!(matches!(validate_instance_count(n), Err(AppError::Validation(_))));
    }
    assert_eq!(validation_message(validate_instance_count(0)), "Instance count must be at least 1");
    assert_eq!(
        validation_message(validate_instance_count(11)),
        "Instance count cannot exceed 10 for safety reasons"
    );
}
