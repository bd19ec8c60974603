//! Internal failures, the client-visible error kinds, and the mapping between them.
use vstd::prelude::*;

verus! {

/// HTTP status sent for a request that was malformed.
pub const STATUS_BAD_REQUEST: u16 = 400;

/// HTTP status sent for a refused login or a missing or bad credential.
pub const STATUS_FORBIDDEN: u16 = 403;

/// HTTP status sent when the addressed entity does not exist.
pub const STATUS_NOT_FOUND: u16 = 404;

/// HTTP status sent for every failure that is not the caller's fault.
pub const STATUS_INTERNAL_SERVER_ERROR: u16 = 500;

/// Every failure the handlers and the authentication check can produce.
/// It is never sent to a client as it is.
#[derive(Debug, Clone, Copy, PartialEq, Eq, Structural)]
pub enum InternalError {
    LoginFail,
    AuthFailNoAuthTokenCookie,
    AuthFailTokenWrongFormat,
    AuthFailTokenExpired,
    AuthFailCtxNotInRequestExt,
    InvalidParams,
    TicketDeleteFailIdNotFound { id: u64 },
    ModelAccessFail,
}

/// The stable error kinds that API consumers see.
#[derive(Debug, Clone, Copy, PartialEq, Eq, Structural)]
pub enum ClientError {
    LoginFail,
    NoAuth,
    InvalidParams,
    EntityNotFound,
    ServiceError,
}

/// Structured detail carried by an internal error, kept for the server log.
#[derive(Debug, Clone, Copy, PartialEq, Eq, Structural)]
pub struct ErrorData {
    pub id: u64,
}

/// The status and client error kind of each internal error.
pub open spec fn classification(e: InternalError) -> (u16, ClientError) {
    match e {
        InternalError::LoginFail => (STATUS_FORBIDDEN, ClientError::LoginFail),
        InternalError::AuthFailNoAuthTokenCookie => (STATUS_FORBIDDEN, ClientError::NoAuth),
        InternalError::AuthFailTokenWrongFormat => (STATUS_FORBIDDEN, ClientError::NoAuth),
        InternalError::AuthFailTokenExpired => (STATUS_FORBIDDEN, ClientError::NoAuth),
        InternalError::AuthFailCtxNotInRequestExt => (STATUS_FORBIDDEN, ClientError::NoAuth),
        InternalError::InvalidParams => (STATUS_BAD_REQUEST, ClientError::InvalidParams),
        InternalError::TicketDeleteFailIdNotFound { .. } => (STATUS_NOT_FOUND, ClientError::EntityNotFound),
        InternalError::ModelAccessFail => (STATUS_INTERNAL_SERVER_ERROR, ClientError::ServiceError),
    }
}

/// Whether the internal error is one of the authentication failures.
pub open spec fn is_auth_failure(e: InternalError) -> bool {
    match e {
        InternalError::AuthFailNoAuthTokenCookie
        | InternalError::AuthFailTokenWrongFormat
        | InternalError::AuthFailTokenExpired
        | InternalError::AuthFailCtxNotInRequestExt => true,
        _ => false,
    }
}

/// The name under which an internal error kind is logged.
pub open spec fn kind_name(e: InternalError) -> Seq<char> {
    match e {
        InternalError::LoginFail => "LoginFail"@,
        InternalError::AuthFailNoAuthTokenCookie => "AuthFailNoAuthTokenCookie"@,
        InternalError::AuthFailTokenWrongFormat => "AuthFailTokenWrongFormat"@,
        InternalError::AuthFailTokenExpired => "AuthFailTokenExpired"@,
        InternalError::AuthFailCtxNotInRequestExt => "AuthFailCtxNotInRequestExt"@,
        InternalError::InvalidParams => "InvalidParams"@,
        InternalError::TicketDeleteFailIdNotFound { .. } => "TicketDeleteFailIdNotFound"@,
        InternalError::ModelAccessFail => "ModelAccessFail"@,
    }
}

/// The tag under which a client error kind is sent and logged.
pub open spec fn client_tag(c: ClientError) -> Seq<char> {
    match c {
        ClientError::LoginFail => "LOGIN_FAIL"@,
        ClientError::NoAuth => "NO_AUTH"@,
        ClientError::InvalidParams => "INVALID_PARAMS"@,
        ClientError::EntityNotFound => "ENTITY_NOT_FOUND"@,
        ClientError::ServiceError => "SERVICE_ERROR"@,
    }
}

/// The structured detail of an internal error, for the variants that carry any.
pub open spec fn data_of(e: InternalError) -> Option<ErrorData> {
    match e {
        InternalError::TicketDeleteFailIdNotFound { id } => Some(ErrorData { id }),
        _ => None,
    }
}

impl InternalError {
    /// The status and client error kind that this failure is reported as.
    pub fn client_status_and_error(&self) -> (r: (u16, ClientError))
        ensures
            r == classification(*self),
    {
        match self {
            InternalError::LoginFail => (STATUS_FORBIDDEN, ClientError::LoginFail),
            InternalError::AuthFailNoAuthTokenCookie
            | InternalError::AuthFailTokenWrongFormat
            | InternalError::AuthFailTokenExpired
            | InternalError::AuthFailCtxNotInRequestExt => (STATUS_FORBIDDEN, ClientError::NoAuth),
            InternalError::InvalidParams => (STATUS_BAD_REQUEST, ClientError::InvalidParams),
            InternalError::TicketDeleteFailIdNotFound { .. } => (
                STATUS_NOT_FOUND,
                ClientError::EntityNotFound,
            ),
            InternalError::ModelAccessFail => (
                STATUS_INTERNAL_SERVER_ERROR,
                ClientError::ServiceError,
            ),
        }
    }

    /// The name of this failure's kind, as logged.
    pub fn as_str(&self) -> (r: &'static str)
        ensures
            r@ == kind_name(*self),
    {
        match self {
            InternalError::LoginFail => "LoginFail",
            InternalError::AuthFailNoAuthTokenCookie => "AuthFailNoAuthTokenCookie",
            InternalError::AuthFailTokenWrongFormat => "AuthFailTokenWrongFormat",
            InternalError::AuthFailTokenExpired => "AuthFailTokenExpired",
            InternalError::AuthFailCtxNotInRequestExt => "AuthFailCtxNotInRequestExt",
            InternalError::InvalidParams => "InvalidParams",
            InternalError::TicketDeleteFailIdNotFound { .. } => "TicketDeleteFailIdNotFound",
            InternalError::ModelAccessFail => "ModelAccessFail",
        }
    }

    /// The structured detail of this failure, if it carries any.
    pub fn data(&self) -> (r: Option<ErrorData>)
        ensures
            r == data_of(*self),
    {
        match self {
            InternalError::TicketDeleteFailIdNotFound { id } => Some(ErrorData { id: *id }),
            _ => None,
        }
    }
}

impl ClientError {
    /// The tag of this error kind, as sent to clients.
    pub fn as_str(&self) -> (r: &'static str)
        ensures
            r@ == client_tag(*self),
    {
        match self {
            ClientError::LoginFail => "LOGIN_FAIL",
            ClientError::NoAuth => "NO_AUTH",
            ClientError::InvalidParams => "INVALID_PARAMS",
            ClientError::EntityNotFound => "ENTITY_NOT_FOUND",
            ClientError::ServiceError => "SERVICE_ERROR",
        }
    }
}

/// Classification is a function: equal internal errors are reported with
/// equal status and client error kind, and every authentication failure is
/// reported as `NO_AUTH` with status 403.
pub proof fn lemma_classification_is_function(e1: InternalError, e2: InternalError)
    ensures
        e1 == e2 ==> classification(e1) == classification(e2),
        is_auth_failure(e1) ==> classification(e1) == (STATUS_FORBIDDEN, ClientError::NoAuth),
{
}

} // verus!
