//! The error taxonomy shared by every service, and how each error is shown
//! to an HTTP client.

use vstd::prelude::*;
use vstd::string::*;

verus! {

/// The class of an [`AppError`], without its message.
#[derive(Debug, Clone, Copy, PartialEq, Eq, Structural)]
pub enum ErrorKind {
    Database,
    Authentication,
    Authorization,
    Validation,
    NotFound,
    ExternalService,
    Configuration,
    Deserialization,
    InternalServer,
    General,
}

impl ErrorKind {
    /// The tag under which a client sees errors of this class.
    pub open spec fn tag(self) -> Seq<char> {
        match self {
            ErrorKind::Database => "database_error"@,
            ErrorKind::Authentication => "authentication_error"@,
            ErrorKind::Authorization => "authorization_error"@,
            ErrorKind::Validation => "validation_error"@,
            ErrorKind::NotFound => "not_found_error"@,
            ErrorKind::ExternalService => "external_service_error"@,
            ErrorKind::Configuration => "configuration_error"@,
            ErrorKind::Deserialization => "deserialization_error"@,
            ErrorKind::InternalServer => "internal_server_error"@,
            ErrorKind::General => "general_error"@,
        }
    }

    /// The HTTP status with which errors of this class are answered.
    pub open spec fn status(self) -> u16 {
        match self {
            ErrorKind::Database => 500,
            ErrorKind::Authentication => 401,
            ErrorKind::Authorization => 403,
            ErrorKind::Validation => 400,
            ErrorKind::NotFound => 404,
            ErrorKind::ExternalService => 502,
            ErrorKind::Configuration => 500,
            ErrorKind::Deserialization => 400,
            ErrorKind::InternalServer => 500,
            ErrorKind::General => 500,
        }
    }
}

/// Application result type.
pub type AppResult<T> = Result<T, AppError>;

/// Application error: a class and a human-readable message.
#[derive(Debug, Clone, PartialEq, Eq)]
pub enum AppError {
    /// The record store failed.
    Database(String),
    /// Bad, expired or forged credentials.
    Authentication(String),
    /// A valid identity without sufficient rights.
    Authorization(String),
    /// Malformed request input.
    Validation(String),
    /// The requested record does not exist.
    NotFound(String),
    /// The identity provider is unreachable or failing.
    ExternalService(String),
    /// The service is misconfigured.
    Configuration(String),
    /// A document could not be read into a value.
    Deserialization(String),
    /// A defect inside this service.
    InternalServer(String),
    /// Anything else.
    General(String),
}

/// What an [`AppError`] is, with its message as a sequence of characters.
pub struct AppErrorView {
    pub kind: ErrorKind,
    pub message: Seq<char>,
}

impl View for AppError {
    type V = AppErrorView;

    open spec fn view(&self) -> AppErrorView {
        AppErrorView { kind: self.kind(), message: self.message_text() }
    }
}

/// An authentication failure with this message.
pub open spec fn auth_failure(message: Seq<char>) -> AppErrorView {
    AppErrorView { kind: ErrorKind::Authentication, message }
}

/// The JSON body sent with an error response: `{"error": .., "error_type": ..}`.
#[derive(Debug, Clone, PartialEq, Eq)]
pub struct ErrorBody {
    pub error: String,
    pub error_type: String,
}

impl AppError {
    /// The class of this error.
    pub open spec fn kind(&self) -> ErrorKind {
        match self {
            AppError::Database(_) => ErrorKind::Database,
            AppError::Authentication(_) => ErrorKind::Authentication,
            AppError::Authorization(_) => ErrorKind::Authorization,
            AppError::Validation(_) => ErrorKind::Validation,
            AppError::NotFound(_) => ErrorKind::NotFound,
            AppError::ExternalService(_) => ErrorKind::ExternalService,
            AppError::Configuration(_) => ErrorKind::Configuration,
            AppError::Deserialization(_) => ErrorKind::Deserialization,
            AppError::InternalServer(_) => ErrorKind::InternalServer,
            AppError::General(_) => ErrorKind::General,
        }
    }

    /// The message of this error, as characters.
    pub open spec fn message_text(&self) -> Seq<char> {
        match self {
            AppError::Database(msg) => msg@,
            AppError::Authentication(msg) => msg@,
            AppError::Authorization(msg) => msg@,
            AppError::Validation(msg) => msg@,
            AppError::NotFound(msg) => msg@,
            AppError::ExternalService(msg) => msg@,
            AppError::Configuration(msg) => msg@,
            AppError::Deserialization(msg) => msg@,
            AppError::InternalServer(msg) => msg@,
            AppError::General(msg) => msg@,
        }
    }

    /// The class of this error.
    pub fn error_kind(&self) -> (k: ErrorKind)
        ensures
            k == self.kind(),
    {
        match self {
            AppError::Database(_) => ErrorKind::Database,
            AppError::Authentication(_) => ErrorKind::Authentication,
            AppError::Authorization(_) => ErrorKind::Authorization,
            AppError::Validation(_) => ErrorKind::Validation,
            AppError::NotFound(_) => ErrorKind::NotFound,
            AppError::ExternalService(_) => ErrorKind::ExternalService,
            AppError::Configuration(_) => ErrorKind::Configuration,
            AppError::Deserialization(_) => ErrorKind::Deserialization,
            AppError::InternalServer(_) => ErrorKind::InternalServer,
            AppError::General(_) => ErrorKind::General,
        }
    }

    /// Get error type as string.
    pub fn error_type(&self) -> (tag: &'static str)
        ensures
            tag@ == self.kind().tag(),
    {
        match self {
            AppError::Database(_) => "database_error",
            AppError::Authentication(_) => "authentication_error",
            AppError::Authorization(_) => "authorization_error",
            AppError::Validation(_) => "validation_error",
            AppError::NotFound(_) => "not_found_error",
            AppError::ExternalService(_) => "external_service_error",
            AppError::Configuration(_) => "configuration_error",
            AppError::Deserialization(_) => "deserialization_error",
            AppError::InternalServer(_) => "internal_server_error",
            AppError::General(_) => "general_error",
        }
    }

    /// Get error message.
    pub fn message(&self) -> (msg: &str)
        ensures
            msg@ == self.message_text(),
    {
        match self {
            AppError::Database(msg) => msg.as_str(),
            AppError::Authentication(msg) => msg.as_str(),
            AppError::Authorization(msg) => msg.as_str(),
            AppError::Validation(msg) => msg.as_str(),
            AppError::NotFound(msg) => msg.as_str(),
            AppError::ExternalService(msg) => msg.as_str(),
            AppError::Configuration(msg) => msg.as_str(),
            AppError::Deserialization(msg) => msg.as_str(),
            AppError::InternalServer(msg) => msg.as_str(),
            AppError::General(msg) => msg.as_str(),
        }
    }

    /// The HTTP status with which this error is answered.
    pub fn status_code(&self) -> (status: u16)
        ensures
            status == self.kind().status(),
            400 <= status < 600,
    {
        match self {
            AppError::Database(_) => 500,
            AppError::Authentication(_) => 401,
            AppError::Authorization(_) => 403,
            AppError::Validation(_) => 400,
            AppError::NotFound(_) => 404,
            AppError::ExternalService(_) => 502,
            AppError::Configuration(_) => 500,
            AppError::Deserialization(_) => 400,
            AppError::InternalServer(_) => 500,
            AppError::General(_) => 500,
        }
    }

    /// The body of the response that reports this error.
    pub fn error_response(&self) -> (body: ErrorBody)
        ensures
            body.error@ == self.message_text(),
            body.error_type@ == self.kind().tag(),
    {
        ErrorBody {
            error: String::from_str(self.message()),
            error_type: String::from_str(self.error_type()),
        }
    }

    /// What `to_string()` gives: the message alone.
    pub fn to_text(&self) -> (text: String)
        ensures
            text@ == self.message_text(),
    {
        String::from_str(self.message())
    }
}

} // verus!
