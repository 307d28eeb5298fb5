use vstd::prelude::*;

verus! {

/// Everything that can go wrong while serving a request.
///
/// The variants without a payload are faults of the infrastructure or of the
/// cryptographic primitives; their detail is logged where they arise and never
/// shown to the client. `BusinessError` is a failure the client caused and may
/// read: a stable code and a message.
#[derive(Debug, Clone, Copy, PartialEq, Eq)]
pub enum AppError {
    /// The relational store could not be reached or refused the statement.
    DatabaseError,
    /// The password hashing primitive rejected its input.
    PwdHashError,
    /// Signing a session token failed.
    JWTError,
    IoError,
    EnvironmentVariableNotSet,
    /// No connection to the one-time-code cache could be had.
    RedisConnectionError,
    /// The one-time-code cache failed while answering.
    RedisGetError,
    SerdeError,
    AxumHttpError,
    SerdeJsonError,
    /// A failure the client may read: its code and its message. The code
    /// is 400 for malformed input, 401 for a challenge or credential that
    /// did not check out, and 500 for anything else.
    BusinessError(i32, &'static str),
}

/// Mathematical model of an [`AppError`].
pub enum AppErrorView {
    DatabaseError,
    PwdHashError,
    JWTError,
    IoError,
    EnvironmentVariableNotSet,
    RedisConnectionError,
    RedisGetError,
    SerdeError,
    AxumHttpError,
    SerdeJsonError,
    BusinessError(int, Seq<char>),
}

/// The classes of failure the subsystem distinguishes.
#[derive(Debug, Clone, Copy, PartialEq, Eq, Structural)]
pub enum ErrorClass {
    /// Malformed input.
    ValidationError,
    /// A captcha, email code or credential did not check out.
    AuthChallengeFailed,
    /// The one-time-code cache is unreachable.
    CacheUnavailable,
    /// The relational store is unreachable.
    StoreUnavailable,
    /// The password hashing primitive failed.
    CryptoError,
    /// Signing a token failed.
    TokenError,
    /// Any other fault inside the server.
    Internal,
}

impl View for AppError {
    type V = AppErrorView;

    open spec fn view(&self) -> AppErrorView {
        match *self {
            AppError::DatabaseError => AppErrorView::DatabaseError,
            AppError::PwdHashError => AppErrorView::PwdHashError,
            AppError::JWTError => AppErrorView::JWTError,
            AppError::IoError => AppErrorView::IoError,
            AppError::EnvironmentVariableNotSet => AppErrorView::EnvironmentVariableNotSet,
            AppError::RedisConnectionError => AppErrorView::RedisConnectionError,
            AppError::RedisGetError => AppErrorView::RedisGetError,
            AppError::SerdeError => AppErrorView::SerdeError,
            AppError::AxumHttpError => AppErrorView::AxumHttpError,
            AppError::SerdeJsonError => AppErrorView::SerdeJsonError,
            AppError::BusinessError(code, msg) => AppErrorView::BusinessError(code as int, msg@),
        }
    }
}

impl AppErrorView {
    /// The class a failure belongs to.
    pub open spec fn class(self) -> ErrorClass {
        match self {
            AppErrorView::DatabaseError => ErrorClass::StoreUnavailable,
            AppErrorView::PwdHashError => ErrorClass::CryptoError,
            AppErrorView::JWTError => ErrorClass::TokenError,
            AppErrorView::RedisConnectionError => ErrorClass::CacheUnavailable,
            AppErrorView::RedisGetError => ErrorClass::CacheUnavailable,
            AppErrorView::BusinessError(code, _) => if code == 400 {
                ErrorClass::ValidationError
            } else if code == 401 {
                ErrorClass::AuthChallengeFailed
            } else {
                ErrorClass::Internal
            },
            _ => ErrorClass::Internal,
        }
    }

    /// Whether the client, not the server, is at fault.
    pub open spec fn is_client_fault(self) -> bool {
        self.class() == ErrorClass::ValidationError || self.class()
            == ErrorClass::AuthChallengeFailed
    }

    /// The text shown to the client: the message of a business error, and one
    /// fixed sentence for every other failure.
    pub open spec fn message(self) -> Seq<char> {
        match self {
            AppErrorView::BusinessError(_, msg) => msg,
            _ => "Internal server error"@,
        }
    }

    /// The HTTP status of the response that reports the failure.
    pub open spec fn status(self) -> int {
        if self.is_client_fault() {
            400
        } else {
            500
        }
    }

    /// The machine-readable code in the body of that response.
    pub open spec fn code(self) -> int {
        match self {
            AppErrorView::BusinessError(code, _) => code,
            _ => 500,
        }
    }
}

/// The response that reports a failure: its HTTP status, and the code and
/// the message of its body.
#[derive(Debug, Clone, PartialEq, Eq)]
pub struct ErrorResponse {
    pub status: u16,
    pub code: i32,
    pub msg: String,
}

impl AppError {
    /// The response that reports this failure. It shows the message of a
    /// business error and nothing of any other failure.
    pub fn into_response(self) -> (response: ErrorResponse)
        ensures
            response.status == self@.status(),
            response.code == self@.code(),
            response.msg@ == self@.message(),
    {
        ErrorResponse { status: self.status(), code: self.code(), msg: self.message() }
    }

    pub fn class(&self) -> (class: ErrorClass)
        ensures
            class == self@.class(),
    {
        match self {
            AppError::DatabaseError => ErrorClass::StoreUnavailable,
            AppError::PwdHashError => ErrorClass::CryptoError,
            AppError::JWTError => ErrorClass::TokenError,
            AppError::RedisConnectionError => ErrorClass::CacheUnavailable,
            AppError::RedisGetError => ErrorClass::CacheUnavailable,
            AppError::BusinessError(code, _) => {
                if *code == 400 {
                    ErrorClass::ValidationError
                } else if *code == 401 {
                    ErrorClass::AuthChallengeFailed
                } else {
                    ErrorClass::Internal
                }
            },
            _ => ErrorClass::Internal,
        }
    }

    pub fn is_client_fault(&self) -> (client: bool)
        ensures
            client == self@.is_client_fault(),
    {
        match self.class() {
            ErrorClass::ValidationError => true,
            ErrorClass::AuthChallengeFailed => true,
            _ => false,
        }
    }

    pub fn message(&self) -> (text: String)
        ensures
            text@ == self@.message(),
    {
        match self {
            AppError::BusinessError(_, msg) => String::from_str(msg),
            _ => String::from_str("Internal server error"),
        }
    }

    pub fn status(&self) -> (status: u16)
        ensures
            status == self@.status(),
    {
        if self.is_client_fault() {
            400
        } else {
            500
        }
    }

    pub fn code(&self) -> (code: i32)
        ensures
            code == self@.code(),
    {
        match self {
            AppError::BusinessError(code, _) => *code,
            _ => 500,
        }
    }
}

} // verus!
