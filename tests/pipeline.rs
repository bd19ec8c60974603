use ticket_service::auth::TokenVerdict;
use ticket_service::correlation::CorrelationId;
use ticket_service::ctx::Ctx;
use ticket_service::error::{ClientError, ErrorData, InternalError};
use ticket_service::mapper::{main_response_mapper, respond_and_log};
use ticket_service::model::{ModelController, Ticket, TicketForCreate};
use ticket_service::response::{map_response, Body, ErrorBody, Response};
use ticket_service::web::{handle_ticket_route, TicketRoute};

const ID: u128 = 0xa1a2a3a4_b1b2_41c2_91d2_d3d4d5d6d7d8;

fn valid() -> Option<TokenVerdict> {
    Some(TokenVerdict::Valid { user_id: 7 })
}

#[test]
fn scenario_delete_missing_ticket() {
    let mut mc = ModelController::new();
    let (ctx, res) = handle_ticket_route(&mut mc, valid(), TicketRoute::Delete(999));
    let id = CorrelationId { value: ID };
    let (out, log) = respond_and_log(id, ctx, "DELETE".to_string(), "/api/tickets/999".to_string(), res, 1);
    assert_eq!(out.status, 404);
    assert_eq!(out.error, None);
    let body = match out.body {
        Body::Error(b) => b,
        other => panic!("not an error body: {other:?}"),
    };
    assert_eq!(
        body.to_json(),
        "{\"error\":{\"type\":\"ENTITY_NOT_FOUND\",\"req_uuid\":\"a1a2a3a4-b1b2-41c2-91d2-d3d4d5d6d7d8\"}}"
    );
    assert_eq!(log.uuid, id);
    assert_eq!(log.user_id, Some(7));
    assert_eq!(log.client_error_type.as_deref(), Some("ENTITY_NOT_FOUND"));
    assert_eq!(log.error_type.as_deref(), Some("TicketDeleteFailIdNotFound"));
    assert_eq!(log.error_data, Some(ErrorData { id: 999 }));
    assert_eq!(log.req_method, "DELETE");
    assert_eq!(log.req_path, "/api/tickets/999");
}

#[test]
fn scenario_no_auth_token() {
    let mut mc = ModelController::new();
    mc.create_ticket(TicketForCreate { title: "kept".to_string() });
    let before = mc.list_tickets();
    let route = TicketRoute::Create(TicketForCreate { title: "new".to_string() });
    let (ctx, res) = handle_ticket_route(&mut mc, None, route);
    assert_eq!(ctx, None);
    let id = CorrelationId { value: ID };
    let (out, log) = respond_and_log(id, ctx, "POST".to_string(), "/api/tickets".to_string(), res, 2);
    assert_eq!(out.status, 403);
    let body = ErrorBody { error_type: ClientError::NoAuth, req_uuid: id };
    assert_eq!(out.body, Body::Error(body));
    assert_eq!(
        body.to_json(),
        "{\"error\":{\"type\":\"NO_AUTH\",\"req_uuid\":\"a1a2a3a4-b1b2-41c2-91d2-d3d4d5d6d7d8\"}}"
    );
    assert_eq!(mc.list_tickets(), before);
    assert_eq!(mc.slot_count(), 1);
    assert_eq!(log.user_id, None);
    assert_eq!(log.error_type.as_deref(), Some("AuthFailNoAuthTokenCookie"));
    assert_eq!(log.client_error_type.as_deref(), Some("NO_AUTH"));
}

#[test]
fn bad_and_expired_tokens_are_no_auth() {
    for token in [TokenVerdict::WrongFormat, TokenVerdict::Expired] {
        let mut mc = ModelController::new();
        let (ctx, res) = handle_ticket_route(&mut mc, Some(token), TicketRoute::List);
        assert_eq!(ctx, None);
        let out = map_response(res, CorrelationId { value: ID });
        assert_eq!(out.status, 403);
        assert!(matches!(out.body, Body::Error(ErrorBody { error_type: ClientError::NoAuth, .. })));
        assert_eq!(mc.slot_count(), 0);
    }
}

#[test]
fn scenario_create_ticket() {
    let mut mc = ModelController::new();
    let route = TicketRoute::Create(TicketForCreate { title: "first".to_string() });
    let (ctx, res) = handle_ticket_route(&mut mc, valid(), route);
    assert_eq!(ctx, Some(Ctx::new(7)));
    let created = Ticket { id: 0, title: "first".to_string() };
    assert_eq!(res.body, Body::Ticket(created.clone()));
    let (out, log) = main_response_mapper(ctx, "POST".to_string(), "/api/tickets".to_string(), res, 3);
    assert_eq!(out.status, 200);
    assert_eq!(out.body, Body::Ticket(created));
    assert_eq!(out.error, None);
    assert_eq!(log.client_error_type, None);
    assert_eq!(log.error_type, None);
    assert_eq!(log.error_data, None);
    assert_eq!(log.user_id, Some(7));
    assert_eq!(log.timestamp_ms, 3);
}

#[test]
fn mapping_twice_changes_nothing() {
    let res = Response::from_error(InternalError::TicketDeleteFailIdNotFound { id: 3 });
    let once = map_response(res, CorrelationId { value: 1 });
    let twice = map_response(once.clone(), CorrelationId { value: 2 });
    assert_eq!(once, twice);
    match twice.body {
        Body::Error(b) => assert_eq!(b.req_uuid, CorrelationId { value: 1 }),
        other => panic!("not an error body: {other:?}"),
    }
}

#[test]
fn success_response_passes_unchanged() {
    let res = Response::ok(Body::Html("page".to_string()));
    assert_eq!(map_response(res.clone(), CorrelationId { value: 9 }), res);
}

#[test]
fn log_uuid_matches_error_body() {
    let res = Response::from_error(InternalError::ModelAccessFail);
    let (out, log) = main_response_mapper(None, "GET".to_string(), "/api/tickets".to_string(), res, 4);
    assert_eq!(out.status, 500);
    assert_eq!(out.body, Body::Error(ErrorBody { error_type: ClientError::ServiceError, req_uuid: log.uuid }));
    assert_eq!(log.client_error_type.as_deref(), Some("SERVICE_ERROR"));
    assert_eq!(log.error_data, None);
}

#[test]
fn invalid_params_and_login_fail() {
    let out = map_response(Response::from_error(InternalError::InvalidParams), CorrelationId { value: 0 });
    assert_eq!(out.status, 400);
    let out = map_response(Response::from_error(InternalError::LoginFail), CorrelationId { value: 0 });
    assert_eq!(out.status, 403);
    assert_eq!(out.body, Body::Error(ErrorBody { error_type: ClientError::LoginFail, req_uuid: CorrelationId { value: 0 } }));
}

#[test]
fn hyphenated_matches_uuid_text() {
    for v in [0u128, ID, u128::MAX, 0x0123456789abcdef0123456789abcdef] {
        let text = CorrelationId { value: v }.to_hyphenated();
        assert_eq!(text, uuid::Uuid::from_u128(v).to_string());
    }
    assert_eq!(CorrelationId { value: 0 }.to_hyphenated(), "00000000-0000-0000-0000-000000000000");
}

#[test]
fn fresh_ids_are_random_v4() {
    let a = CorrelationId::new_v4();
    let b = CorrelationId::new_v4();
    assert_ne!(a, b);
    for id in [a, b] {
        assert_eq!((id.value >> 76) & 0xf, 4);
        assert_eq!((id.value >> 62) & 0x3, 2);
        assert_eq!(uuid::Uuid::from_u128(id.value).get_version_num(), 4);
    }
}

#[test]
fn list_and_delete_when_authenticated() {
    let mut mc = ModelController::new();
    for title in ["a", "b"] {
        let route = TicketRoute::Create(TicketForCreate { title: title.to_string() });
        handle_ticket_route(&mut mc, valid(), route);
    }
    let (_, res) = handle_ticket_route(&mut mc, valid(), TicketRoute::Delete(0));
    assert_eq!(res.body, Body::Ticket(Ticket { id: 0, title: "a".to_string() }));
    let (_, res) = handle_ticket_route(&mut mc, valid(), TicketRoute::List);
    assert_eq!(res.body, Body::Tickets(vec![Ticket { id: 1, title: "b".to_string() }]));
}

#[test]
fn unreadable_request_is_invalid_params_once_authenticated() {
    let mut mc = ModelController::new();
    let (ctx, res) = handle_ticket_route(&mut mc, None, TicketRoute::InvalidParams);
    assert_eq!(ctx, None);
    assert_eq!(res.error, Some(InternalError::AuthFailNoAuthTokenCookie));
    let (ctx, res) = handle_ticket_route(&mut mc, valid(), TicketRoute::InvalidParams);
    assert_eq!(ctx, Some(Ctx::new(7)));
    let out = map_response(res, CorrelationId { value: ID });
    assert_eq!(out.status, 400);
    assert_eq!(out.body, Body::Error(ErrorBody { error_type: ClientError::InvalidParams, req_uuid: CorrelationId { value: ID } }));
}
