use k8s_resource_manager::error::AppError;
use k8s_resource_manager::error::KubeFailure;

fn api(code: u16) -> AppError {
    AppError::Kube(KubeFailure::Api { code, message: "boom".to_string() })
}

#[test]
fn plain_errors_keep_their_message() {
    let r = AppError::NotFound("gone".to_string()).into_response();
    assert_eq!((r.status, r.error_type.as_str(), r.message.as_str()), (404, "NotFound", "gone"));
    let r = AppError::Validation("bad".to_string()).into_response();
    assert_eq!((r.status, r.error_type.as_str()), (400, "Validation"));
    let r = AppError::BadRequest("x".to_string()).into_response();
    assert_eq!((r.status, r.error_type.as_str()), (400, "BadRequest"));
    let r = AppError::Config("no cluster".to_string()).into_response();
    assert_eq!((r.status, r.error_type.as_str(), r.message.as_str()), (500, "Configuration", "no cluster"));
    let r = AppError::Network("down".to_string()).into_response();
    assert_eq!((r.status, r.error_type.as_str()), (503, "Network"));
    let r = AppError::Timeout("slow".to_string()).into_response();
    assert_eq!((r.status, r.error_type.as_str()), (408, "Timeout"));
    let r = AppError::Internal("oops".to_string()).into_response();
    assert_eq!((r.status, r.error_type.as_str()), (500, "Internal"));
}

#[test]
fn orchestrator_codes_are_classified() {
    let cases = [
        (404, 404, "NotFound", "Resource not found: boom"),
        (400, 400, "BadRequest", "Invalid request: boom"),
        (401, 401, "Unauthorized", "Unauthorized: boom"),
        (403, 403, "Forbidden", "Forbidden: boom"),
        (409, 409, "Conflict", "Conflict: boom"),
        (422, 500, "Internal", "orchestrator error: boom"),
        (503, 500, "Internal", "orchestrator error: boom"),
    ];
    for (code, status, kind, message) in cases {
        let r = api(code).into_response();
        assert_eq!(r.status, status);
        assert_eq!(r.error_type, kind);
        assert_eq!(r.message, message);
    }
    let r = AppError::Kube(KubeFailure::Auth { message: "expired".to_string() }).into_response();
    assert_eq!(
        (r.status, r.error_type.as_str(), r.message.as_str()),
        (401, "Unauthorized", "Authentication error: expired")
    );
    let r = AppError::Kube(KubeFailure::Other { message: "eof".to_string() }).into_response();
    assert_eq!(
        (r.status, r.error_type.as_str(), r.message.as_str()),
        (500, "Internal", "orchestrator error: eof")
    );
}
