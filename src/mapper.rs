//! The response-side interceptor: every response passes through here once.
use vstd::prelude::*;
use crate::correlation::{is_random_uuid, CorrelationId};
use crate::ctx::Ctx;
use crate::error::{classification, ClientError, InternalError};
use crate::log::{log_request, records, LogRecord};
use crate::response::{map_response, mapped, Body, ErrorBody, Response};

verus! {

/// The client error kind reported for an optional internal error.
pub open spec fn client_error_of(e: Option<InternalError>) -> Option<ClientError> {
    match e {
        Some(e) => Some(classification(e).1),
        None => None,
    }
}

/// Maps `res` with correlation id `id` and builds the request's log record,
/// which holds the internal error, if any, and the client error it became.
pub fn respond_and_log(
    id: CorrelationId,
    ctx: Option<Ctx>,
    req_method: String,
    req_path: String,
    res: Response,
    timestamp_ms: u128,
) -> (r: (Response, LogRecord))
    ensures
        r.0 == mapped(res, id),
        records(
            r.1,
            id,
            timestamp_ms,
            req_method@,
            req_path@,
            ctx,
            res.error,
            client_error_of(res.error),
        ),
{
    let service_error = res.error;
    let client_error = match service_error {
        Some(e) => Some(e.client_status_and_error().1),
        None => None,
    };
    let record = log_request(
        id,
        req_method,
        req_path,
        ctx,
        service_error,
        client_error,
        timestamp_ms,
    );
    (map_response(res, id), record)
}

/// Draws a fresh correlation id, maps the response with it, and builds the
/// one log record of the request.
pub fn main_response_mapper(
    ctx: Option<Ctx>,
    req_method: String,
    req_path: String,
    res: Response,
    timestamp_ms: u128,
) -> (r: (Response, LogRecord))
    ensures
        is_random_uuid(r.1.uuid.value),
        r.0 == mapped(res, r.1.uuid),
        records(
            r.1,
            r.1.uuid,
            timestamp_ms,
            req_method@,
            req_path@,
            ctx,
            res.error,
            client_error_of(res.error),
        ),
{
    let id = CorrelationId::new_v4();
    respond_and_log(id, ctx, req_method, req_path, res, timestamp_ms)
}

/// The log record of a request names the same correlation id as the error
/// body sent to the client, and records an error exactly when one occurred.
pub proof fn lemma_log_matches_error_body(
    res: Response,
    id: CorrelationId,
    record: LogRecord,
    timestamp_ms: u128,
    req_method: Seq<char>,
    req_path: Seq<char>,
    ctx: Option<Ctx>,
)
    requires
        records(
            record,
            id,
            timestamp_ms,
            req_method,
            req_path,
            ctx,
            res.error,
            client_error_of(res.error),
        ),
    ensures
        res.error is Some ==> mapped(res, id).body == Body::Error(
            ErrorBody { error_type: classification(res.error->Some_0).1, req_uuid: record.uuid },
        ),
        res.error is None <==> record.error_type is None,
        res.error is None <==> record.client_error_type is None,
{
}

} // verus!
