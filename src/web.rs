//! The request handlers: the public greeting pages and the ticket routes,
//! which sit behind the authentication check.
use vstd::prelude::*;
use vstd::string::*;
use crate::auth::{auth_failure, require_auth, TokenVerdict};
use crate::correlation::CorrelationId;
use crate::ctx::Ctx;
use crate::error::{ClientError, InternalError, STATUS_FORBIDDEN};
use crate::model::{live_tickets, ModelController, Ticket, TicketForCreate};
use crate::response::{failure_response, mapped, Body, ErrorBody, Response, STATUS_OK};

verus! {

/// The greeting page for a name.
pub open spec fn hello_html(name: Seq<char>) -> Seq<char> {
    "Hello <strong> "@ + name + "!! </strong>"@
}

/// Whether `res` is a successful page with the given text.
pub open spec fn is_html_page(res: Response, text: Seq<char>) -> bool {
    &&& res.status == STATUS_OK
    &&& res.error is None
    &&& res.body is Html
    &&& res.body->Html_0@ == text
}

fn greeting(name: &str) -> (r: Response)
    ensures
        is_html_page(r, hello_html(name@)),
{
    let mut s = String::from_str("Hello <strong> ");
    s.append(name);
    s.append("!! </strong>");
    Response::ok(Body::Html(s))
}

/// The greeting for the name given as a query parameter, or for "World!".
pub fn handler_hello(name: Option<String>) -> (r: Response)
    ensures
        is_html_page(
            r,
            hello_html(
                match name {
                    Some(n) => n@,
                    None => "World!"@,
                },
            ),
        ),
{
    match name {
        Some(n) => greeting(n.as_str()),
        None => greeting("World!"),
    }
}

/// The greeting for the name given as a path segment.
pub fn handler_hello2(name: String) -> (r: Response)
    ensures
        is_html_page(r, hello_html(name@)),
{
    greeting(name.as_str())
}

/// Creates a ticket; fails with `ModelAccessFail` once every id is taken.
pub fn create_ticket(mc: &mut ModelController, ticket_fc: TicketForCreate) -> (r: Result<
    Ticket,
    InternalError,
>)
    requires
        old(mc).wf(),
    ensures
        final(mc).wf(),
        old(mc)@.len() < u64::MAX ==> r == Ok::<Ticket, InternalError>(
            Ticket { id: old(mc)@.len() as u64, title: ticket_fc.title },
        ) && final(mc)@ == old(mc)@.push(Some(r->Ok_0)),
        old(mc)@.len() >= u64::MAX ==> r == Err::<Ticket, InternalError>(
            InternalError::ModelAccessFail,
        ) && final(mc)@ == old(mc)@,
{
    if mc.slot_count() as u64 >= u64::MAX {
        return Err(InternalError::ModelAccessFail);
    }
    Ok(mc.create_ticket(ticket_fc))
}

/// All tickets present, in the order of their ids.
pub fn list_tickets(mc: &ModelController) -> (r: Result<Vec<Ticket>, InternalError>)
    ensures
        r is Ok,
        r->Ok_0@ == live_tickets(mc@),
{
    Ok(mc.list_tickets())
}

/// Deletes the ticket with the given id and returns it.
pub fn delete_ticket(mc: &mut ModelController, id: u64) -> (r: Result<Ticket, InternalError>)
    requires
        old(mc).wf(),
    ensures
        final(mc).wf(),
        match r {
            Ok(t) => id < old(mc)@.len() && old(mc)@[id as int] == Some(t) && final(mc)@ == old(
                mc,
            )@.update(id as int, None),
            Err(e) => e == InternalError::TicketDeleteFailIdNotFound { id } && final(mc)@ == old(
                mc,
            )@ && !(id < old(mc)@.len() && old(mc)@[id as int] is Some),
        },
{
    mc.delete_ticket(id)
}

/// A request to one of the ticket routes.
#[derive(Debug, Clone, PartialEq, Eq)]
pub enum TicketRoute {
    Create(TicketForCreate),
    List,
    Delete(u64),
    /// A request whose path or body could not be read.
    InvalidParams,
}

/// What an authenticated ticket request does to the store (`before` to
/// `after`) and which unmapped response it gives.
pub open spec fn route_outcome(
    route: TicketRoute,
    before: Seq<Option<Ticket>>,
    after: Seq<Option<Ticket>>,
    res: Response,
) -> bool {
    match route {
        TicketRoute::Create(fc) => if before.len() < u64::MAX {
            let t = Ticket { id: before.len() as u64, title: fc.title };
            after == before.push(Some(t)) && res == (Response {
                status: STATUS_OK,
                body: Body::Ticket(t),
                error: None,
            })
        } else {
            after == before && res == failure_response(InternalError::ModelAccessFail)
        },
        TicketRoute::List => {
            &&& after == before
            &&& res.status == STATUS_OK
            &&& res.error is None
            &&& res.body is Tickets
            &&& res.body->Tickets_0@ == live_tickets(before)
        },
        TicketRoute::Delete(id) => if id < before.len() && before[id as int] is Some {
            after == before.update(id as int, None) && res == (Response {
                status: STATUS_OK,
                body: Body::Ticket(before[id as int]->Some_0),
                error: None,
            })
        } else {
            after == before && res == failure_response(
                InternalError::TicketDeleteFailIdNotFound { id },
            )
        },
        TicketRoute::InvalidParams => after == before && res == failure_response(
            InternalError::InvalidParams,
        ),
    }
}

/// What a ticket request with the given token does: rejected by the authentication check,
/// with the store untouched, or run as the authenticated user.
pub open spec fn ticket_request_outcome(
    token: Option<TokenVerdict>,
    route: TicketRoute,
    before: Seq<Option<Ticket>>,
    after: Seq<Option<Ticket>>,
    r: (Option<Ctx>, Response),
) -> bool {
    match auth_failure(token) {
        Some(e) => r.0 is None && r.1 == failure_response(e) && after == before,
        None => r.0 is Some && token == Some(
            TokenVerdict::Valid { user_id: r.0->Some_0.spec_user_id() },
        ) && route_outcome(route, before, after, r.1),
    }
}

/// Runs a request to a ticket route: the authentication check first, and
/// the handler only once the check let the request through. Returns the caller's
/// identity, if established, and the unmapped response.
pub fn handle_ticket_route(
    mc: &mut ModelController,
    token: Option<TokenVerdict>,
    route: TicketRoute,
) -> (r: (Option<Ctx>, Response))
    requires
        old(mc).wf(),
    ensures
        final(mc).wf(),
        ticket_request_outcome(token, route, old(mc)@, final(mc)@, r),
{
    let ctx = match require_auth(token) {
        Ok(ctx) => ctx,
        Err(e) => {
            return (None, Response::from_error(e));
        },
    };
    let res = match route {
        TicketRoute::Create(fc) => match create_ticket(mc, fc) {
            Ok(t) => Response::ok(Body::Ticket(t)),
            Err(e) => Response::from_error(e),
        },
        TicketRoute::List => match list_tickets(mc) {
            Ok(ts) => Response::ok(Body::Tickets(ts)),
            Err(e) => Response::from_error(e),
        },
        TicketRoute::Delete(id) => match delete_ticket(mc, id) {
            Ok(t) => Response::ok(Body::Ticket(t)),
            Err(e) => Response::from_error(e),
        },
        TicketRoute::InvalidParams => Response::from_error(InternalError::InvalidParams),
    };
    (Some(ctx), res)
}

/// A ticket request without a valid token leaves the store as it was and,
/// once mapped, is answered with status 403 and a `NO_AUTH` body.
pub proof fn lemma_unauthenticated_request_is_rejected(
    token: Option<TokenVerdict>,
    route: TicketRoute,
    before: Seq<Option<Ticket>>,
    after: Seq<Option<Ticket>>,
    r: (Option<Ctx>, Response),
    id: CorrelationId,
)
    requires
        auth_failure(token) is Some,
        ticket_request_outcome(token, route, before, after, r),
    ensures
        after == before,
        r.0 is None,
        mapped(r.1, id) == (Response {
            status: STATUS_FORBIDDEN,
            body: Body::Error(ErrorBody { error_type: ClientError::NoAuth, req_uuid: id }),
            error: None,
        }),
{
}

} // verus!
