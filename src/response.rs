//! Responses as handlers produce them, and the mapper that every response
//! passes through on its way out.
use vstd::prelude::*;
use vstd::string::*;
use crate::correlation::{hyphenated, CorrelationId};
use crate::error::{
    classification, client_tag, ClientError, InternalError, STATUS_INTERNAL_SERVER_ERROR,
};
use crate::model::Ticket;

verus! {

/// HTTP status of a successful response.
pub const STATUS_OK: u16 = 200;

/// The client-facing body of a failed request: the error kind and the
/// correlation id, and nothing else.
#[derive(Debug, Clone, Copy, PartialEq, Eq, Structural)]
pub struct ErrorBody {
    pub error_type: ClientError,
    pub req_uuid: CorrelationId,
}

/// What a response carries.
#[derive(Debug, Clone, PartialEq, Eq)]
pub enum Body {
    Empty,
    Html(String),
    Ticket(Ticket),
    Tickets(Vec<Ticket>),
    Error(ErrorBody),
}

/// A response, with the internal error that the handler attached to it, if any.
#[derive(Debug, Clone, PartialEq, Eq)]
pub struct Response {
    pub status: u16,
    pub body: Body,
    pub error: Option<InternalError>,
}

/// The JSON text of an error body with the given type tag and id text.
pub open spec fn error_body_text(tag: Seq<char>, id_text: Seq<char>) -> Seq<char> {
    "{\"error\":{\"type\":\""@ + tag + "\",\"req_uuid\":\""@ + id_text + "\"}}"@
}

impl ErrorBody {
    /// The JSON text sent to the client: `{"error":{"type":..,"req_uuid":..}}`.
    pub fn to_json(&self) -> (r: String)
        ensures
            r@ == error_body_text(client_tag(self.error_type), hyphenated(self.req_uuid.value)),
    {
        let id_text = self.req_uuid.to_hyphenated();
        let mut s = String::from_str("{\"error\":{\"type\":\"");
        s.append(self.error_type.as_str());
        s.append("\",\"req_uuid\":\"");
        s.append(id_text.as_str());
        s.append("\"}}");
        s
    }
}

/// The response a handler's failure becomes before it is mapped: status 500,
/// no body, and the error attached.
pub open spec fn failure_response(e: InternalError) -> Response {
    Response { status: STATUS_INTERNAL_SERVER_ERROR, body: Body::Empty, error: Some(e) }
}

/// The response that the mapper makes of `res`, with correlation id `id`.
pub open spec fn mapped(res: Response, id: CorrelationId) -> Response {
    match res.error {
        Some(e) => Response {
            status: classification(e).0,
            body: Body::Error(ErrorBody { error_type: classification(e).1, req_uuid: id }),
            error: None,
        },
        None => res,
    }
}

impl Response {
    /// A successful response with the given body.
    pub fn ok(body: Body) -> (r: Response)
        ensures
            r == (Response { status: STATUS_OK, body, error: None }),
    {
        Response { status: STATUS_OK, body, error: None }
    }

    /// The unmapped response of a failed handler.
    pub fn from_error(e: InternalError) -> (r: Response)
        ensures
            r == failure_response(e),
    {
        Response { status: STATUS_INTERNAL_SERVER_ERROR, body: Body::Empty, error: Some(e) }
    }
}

/// Replaces a response that carries an internal error by one that carries
/// only the client error kind and `id`, with the mapped status; a response
/// without an internal error is returned as it is.
pub fn map_response(res: Response, id: CorrelationId) -> (r: Response)
    ensures
        r == mapped(res, id),
{
    match res.error {
        Some(e) => {
            let (status, client_error) = e.client_status_and_error();
            Response {
                status,
                body: Body::Error(ErrorBody { error_type: client_error, req_uuid: id }),
                error: None,
            }
        },
        None => res,
    }
}

/// Mapping a response twice is mapping it once: the second pass neither wraps
/// the body again nor changes the correlation id in it.
pub proof fn lemma_mapping_is_idempotent(res: Response, id1: CorrelationId, id2: CorrelationId)
    ensures
        mapped(mapped(res, id1), id2) == mapped(res, id1),
{
}

/// A mapped failure carries nothing of the internal error but its client
/// kind: responses whose errors share a client kind are mapped to the same
/// status and body, whatever else the errors or the original bodies held.
pub proof fn lemma_mapped_body_hides_internal_error(
    res1: Response,
    res2: Response,
    id: CorrelationId,
)
    requires
        res1.error is Some,
        res2.error is Some,
        classification(res1.error->Some_0).1 == classification(res2.error->Some_0).1,
    ensures
        mapped(res1, id).body == mapped(res2, id).body,
        mapped(res1, id).body == Body::Error(
            ErrorBody { error_type: classification(res1.error->Some_0).1, req_uuid: id },
        ),
        mapped(res1, id).error is None,
{
}

} // verus!
