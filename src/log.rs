//! The structured record that is logged once per request.
use vstd::prelude::*;
use crate::correlation::CorrelationId;
use crate::ctx::Ctx;
use crate::error::{client_tag, data_of, kind_name, ClientError, ErrorData, InternalError};

verus! {

/// One request's log record. A field that is `None` is left out of the
/// serialized record.
#[derive(Debug, Clone, PartialEq, Eq)]
pub struct LogRecord {
    pub uuid: CorrelationId,
    /// Milliseconds since the Unix epoch when the record was made.
    pub timestamp_ms: u128,
    pub req_path: String,
    pub req_method: String,
    pub user_id: Option<u64>,
    pub client_error_type: Option<String>,
    pub error_type: Option<String>,
    pub error_data: Option<ErrorData>,
}

/// The text of an optional string.
pub open spec fn text_of(s: Option<String>) -> Option<Seq<char>> {
    match s {
        Some(t) => Some(t@),
        None => None,
    }
}

/// Whether `r` records exactly the given request and outcome.
pub open spec fn records(
    r: LogRecord,
    uuid: CorrelationId,
    timestamp_ms: u128,
    req_method: Seq<char>,
    req_path: Seq<char>,
    ctx: Option<Ctx>,
    service_error: Option<InternalError>,
    client_error: Option<ClientError>,
) -> bool {
    &&& r.uuid == uuid
    &&& r.timestamp_ms == timestamp_ms
    &&& r.req_method@ == req_method
    &&& r.req_path@ == req_path
    &&& r.user_id == match ctx {
        Some(c) => Some(c.spec_user_id()),
        None => None::<u64>,
    }
    &&& text_of(r.client_error_type) == match client_error {
        Some(c) => Some(client_tag(c)),
        None => None::<Seq<char>>,
    }
    &&& text_of(r.error_type) == match service_error {
        Some(e) => Some(kind_name(e)),
        None => None::<Seq<char>>,
    }
    &&& r.error_data == match service_error {
        Some(e) => data_of(e),
        None => None::<ErrorData>,
    }
}

/// Builds the log record of one request from its correlation id, its method
/// and path, the caller's identity, and the internal and client errors, if any.
pub fn log_request(
    uuid: CorrelationId,
    req_method: String,
    req_path: String,
    ctx: Option<Ctx>,
    service_error: Option<InternalError>,
    client_error: Option<ClientError>,
    timestamp_ms: u128,
) -> (r: LogRecord)
    ensures
        records(r, uuid, timestamp_ms, req_method@, req_path@, ctx, service_error, client_error),
{
    let user_id = match ctx {
        Some(c) => Some(c.user_id()),
        None => None,
    };
    let client_error_type = match client_error {
        Some(c) => Some(String::from_str(c.as_str())),
        None => None,
    };
    let (error_type, error_data) = match service_error {
        Some(e) => (Some(String::from_str(e.as_str())), e.data()),
        None => (None, None),
    };
    LogRecord {
        uuid,
        timestamp_ms,
        req_path,
        req_method,
        user_id,
        client_error_type,
        error_type,
        error_data,
    }
}

} // verus!
