use vstd::prelude::*;
use vstd::string::StringExecFns;

verus! {

/// A failure reported by the orchestrator, as plain values.
#[derive(Debug)]
pub enum KubeFailure {
    /// The orchestrator's API answered with an error status.
    Api { code: u16, message: String },
    /// The client could not authenticate.
    Auth { message: String },
    /// Any other failure of the client (transport, decoding, ...).
    Other { message: String },
}

/// The errors that the library reports to its callers.
#[derive(Debug)]
pub enum AppError {
    Kube(KubeFailure),
    NotFound(String),
    BadRequest(String),
    Internal(String),
    Validation(String),
    Config(String),
    Network(String),
    Timeout(String),
}

/// What a classified failure is reported as: a status code, a kind name and a message.
#[derive(Debug)]
pub struct ErrorResponse {
    pub status: u16,
    pub error_type: String,
    pub message: String,
}

pub open spec fn kube_status(f: KubeFailure) -> u16 {
    match f {
        KubeFailure::Api { code, .. } => if code == 404 || code == 400 || code == 401 || code
            == 403 || code == 409 {
            code
        } else {
            500
        },
        KubeFailure::Auth { .. } => 401,
        KubeFailure::Other { .. } => 500,
    }
}

pub open spec fn kube_message(f: KubeFailure) -> Seq<char> {
    match f {
        KubeFailure::Api { code, message } => if code == 404 {
            "Resource not found: "@ + message@
        } else if code == 400 {
            "Invalid request: "@ + message@
        } else if code == 401 {
            "Unauthorized: "@ + message@
        } else if code == 403 {
            "Forbidden: "@ + message@
        } else if code == 409 {
            "Conflict: "@ + message@
        } else {
            "orchestrator error: "@ + message@
        },
        KubeFailure::Auth { message } => "Authentication error: "@ + message@,
        KubeFailure::Other { message } => "orchestrator error: "@ + message@,
    }
}

/// The kind that an orchestrator failure is classified as: 404 is `NotFound`, 400 is
/// `BadRequest`, 401 and a failed authentication are `Unauthorized`, 403 is
/// `Forbidden`, 409 is `Conflict`, and every other failure is `Internal`.
pub open spec fn kube_kind(f: KubeFailure) -> Seq<char> {
    match f {
        KubeFailure::Api { code, .. } => if code == 404 {
            "NotFound"@
        } else if code == 400 {
            "BadRequest"@
        } else if code == 401 {
            "Unauthorized"@
        } else if code == 403 {
            "Forbidden"@
        } else if code == 409 {
            "Conflict"@
        } else {
            "Internal"@
        },
        KubeFailure::Auth { .. } => "Unauthorized"@,
        KubeFailure::Other { .. } => "Internal"@,
    }
}

/// The status code that an error is reported with.
pub open spec fn error_status(e: AppError) -> u16 {
    match e {
        AppError::NotFound(_) => 404,
        AppError::BadRequest(_) => 400,
        AppError::Validation(_) => 400,
        AppError::Config(_) => 500,
        AppError::Network(_) => 503,
        AppError::Timeout(_) => 408,
        AppError::Kube(f) => kube_status(f),
        AppError::Internal(_) => 500,
    }
}

/// The kind name that an error is reported with.
pub open spec fn error_kind_name(e: AppError) -> Seq<char> {
    match e {
        AppError::NotFound(_) => "NotFound"@,
        AppError::BadRequest(_) => "BadRequest"@,
        AppError::Validation(_) => "Validation"@,
        AppError::Config(_) => "Configuration"@,
        AppError::Network(_) => "Network"@,
        AppError::Timeout(_) => "Timeout"@,
        AppError::Kube(f) => kube_kind(f),
        AppError::Internal(_) => "Internal"@,
    }
}

/// The message that an error is reported with: the detail as it came, and for an
/// orchestrator failure the detail behind a prefix that names its class.
pub open spec fn error_message(e: AppError) -> Seq<char> {
    match e {
        AppError::NotFound(m) => m@,
        AppError::BadRequest(m) => m@,
        AppError::Validation(m) => m@,
        AppError::Config(m) => m@,
        AppError::Network(m) => m@,
        AppError::Timeout(m) => m@,
        AppError::Kube(f) => kube_message(f),
        AppError::Internal(m) => m@,
    }
}

/// The concatenation of `prefix` and `rest`.
pub fn joined(prefix: &str, rest: &str) -> (r: String)
    ensures
        r@ == prefix@ + rest@,
{
    let mut s = String::from_str(prefix);
    s.append(rest);
    s
}

impl KubeFailure {
    /// The failure's message behind the prefix that names its class.
    pub fn describe(self) -> (r: String)
        ensures
            r@ == kube_message(self),
    {
        self.classify().2
    }

    fn classify(self) -> (r: (u16, String, String))
        ensures
            r.0 == kube_status(self),
            r.1@ == kube_kind(self),
            r.2@ == kube_message(self),
    {
        match self {
            KubeFailure::Api { code, message } => {
                let m = message.as_str();
                if code == 404 {
                    (404, String::from_str("NotFound"), joined("Resource not found: ", m))
                } else if code == 400 {
                    (400, String::from_str("BadRequest"), joined("Invalid request: ", m))
                } else if code == 401 {
                    (401, String::from_str("Unauthorized"), joined("Unauthorized: ", m))
                } else if code == 403 {
                    (403, String::from_str("Forbidden"), joined("Forbidden: ", m))
                } else if code == 409 {
                    (409, String::from_str("Conflict"), joined("Conflict: ", m))
                } else {
                    (500, String::from_str("Internal"), joined("orchestrator error: ", m))
                }
            },
            KubeFailure::Auth { message } => (
                401,
                String::from_str("Unauthorized"),
                joined("Authentication error: ", message.as_str()),
            ),
            KubeFailure::Other { message } => (
                500,
                String::from_str("Internal"),
                joined("orchestrator error: ", message.as_str()),
            ),
        }
    }
}

impl AppError {
    /// Classifies the error: the status code, kind name and message it is reported with.
    pub fn into_response(self) -> (r: ErrorResponse)
        ensures
            r.status == error_status(self),
            r.error_type@ == error_kind_name(self),
            r.message@ == error_message(self),
    {
        match self {
            AppError::NotFound(m) => ErrorResponse {
                status: 404,
                error_type: String::from_str("NotFound"),
                message: m,
            },
            AppError::BadRequest(m) => ErrorResponse {
                status: 400,
                error_type: String::from_str("BadRequest"),
                message: m,
            },
            AppError::Validation(m) => ErrorResponse {
                status: 400,
                error_type: String::from_str("Validation"),
                message: m,
            },
            AppError::Config(m) => ErrorResponse {
                status: 500,
                error_type: String::from_str("Configuration"),
                message: m,
            },
            AppError::Network(m) => ErrorResponse {
                status: 503,
                error_type: String::from_str("Network"),
                message: m,
            },
            AppError::Timeout(m) => ErrorResponse {
                status: 408,
                error_type: String::from_str("Timeout"),
                message: m,
            },
            AppError::Kube(f) => {
                let (status, error_type, message) = f.classify();
                ErrorResponse { status, error_type, message }
            },
            AppError::Internal(m) => ErrorResponse {
                status: 500,
                error_type: String::from_str("Internal"),
                message: m,
            },
        }
    }
}

} // verus!
