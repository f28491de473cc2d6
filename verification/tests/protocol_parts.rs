use ha_bridge::controller::Controller;
use ha_bridge::errors::{error_code, ServiceError};
use ha_bridge::ha_client::{HaAction, HaClient, HaClientState, HaRequestKind, HaServerFrame};
use ha_bridge::media_player::handle_media_player;
use ha_bridge::messages::{
    Action, AvailableEntity, CallService, ConnectionState, EntityChange, EntityCommand, R2Frame,
    R2MessagePayload, R2Request, R2RequestPayload,
};
use ha_bridge::settings::{compute_next_backoff, HomeAssistantSettings};
use ha_bridge::setup_flow::{parse_tenths, parse_value};

fn kv(pairs: &[(&str, &str)]) -> Vec<(String, String)> {
    pairs.iter().map(|(k, v)| (k.to_string(), v.to_string())).collect()
}

#[test]
fn request_ids_start_at_one_and_increase() {
    let mut c = HaClient::new();
    assert_eq!(c.next_id, 1);
    let (a, _) = c.request_get_states();
    let (b, _) = c.request_call_service(sample_command());
    let (d, _) = c.request_get_states();
    assert_eq!((a, b, d), (1, 2, 3));
    assert!(a < b && b < d);
}

#[test]
fn handshake_subscribes_and_connects() {
    let mut c = HaClient::new();
    let acts = c.handle_server_frame(HaServerFrame::AuthRequired);
    assert!(matches!(acts[0], HaAction::SendAuth));
    assert_eq!(c.state, HaClientState::AwaitAuthOk);
    let acts = c.handle_server_frame(HaServerFrame::AuthOk);
    assert!(matches!(acts[0], HaAction::SendSubscribe { id: 1 }));
    assert_eq!(c.state, HaClientState::Subscribing);
    let acts = c.handle_server_frame(HaServerFrame::ResultFrame { id: 1, success: true });
    assert!(matches!(
        acts[0],
        HaAction::EmitConnEvent { state: ConnectionState::Connected }
    ));
    assert_eq!(c.state, HaClientState::Running);
}

#[test]
fn auth_invalid_fails_and_closes() {
    let mut c = HaClient::new();
    let _ = c.handle_server_frame(HaServerFrame::AuthRequired);
    let acts = c.handle_server_frame(HaServerFrame::AuthInvalid);
    assert!(matches!(
        acts[0],
        HaAction::EmitConnEvent { state: ConnectionState::AuthenticationFailed }
    ));
    assert!(matches!(acts[1], HaAction::CloseSocket));
    assert_eq!(c.state, HaClientState::AuthFailed);
}

#[test]
fn close_fails_pending_service_calls() {
    let mut c = HaClient::new();
    let (_id, _) = c.request_get_states();
    let (cid, _) = c.request_call_service(sample_command());
    let acts = c.on_close();
    assert_eq!(acts.len(), 2);
    assert!(matches!(acts[0], HaAction::CallServiceDone { id, success: false } if id == cid));
    assert!(matches!(
        acts[1],
        HaAction::EmitConnEvent { state: ConnectionState::Closed }
    ));
    assert!(c.pending.is_empty());
    // a second close reports nothing further
    let acts = c.on_close();
    assert!(acts.is_empty());
}

#[test]
fn unknown_result_ids_are_dropped() {
    let mut c = HaClient::new();
    let _ = c.request_get_states();
    let acts = c.handle_server_frame(HaServerFrame::ResultFrame { id: 999, success: true });
    assert!(acts.is_empty());
    assert_eq!(c.pending.len(), 1);
}

#[test]
fn states_result_posts_entities() {
    let mut c = HaClient::new();
    let (id, _) = c.request_get_states();
    let acts = c.handle_server_frame(HaServerFrame::StatesResult {
        id,
        entities: vec![sample_entity()],
    });
    assert!(matches!(&acts[0], HaAction::PostAvailableEntities { entities } if entities.len() == 1));
    assert!(c.pending.is_empty());
}

#[test]
fn heartbeat_pings_and_times_out() {
    let mut c = HaClient::new();
    let _ = c.handle_server_frame(HaServerFrame::AuthRequired);
    let _ = c.handle_server_frame(HaServerFrame::AuthOk);
    let _ = c.handle_server_frame(HaServerFrame::ResultFrame { id: 1, success: true });
    assert_eq!(c.state, HaClientState::Running);
    let acts = c.on_heartbeat();
    assert!(matches!(acts[0], HaAction::SendPing { id: 2 }));
    // the pong arrives in time: the next tick pings again
    let acts = c.handle_server_frame(HaServerFrame::PongFrame { id: 2 });
    assert!(acts.is_empty());
    let acts = c.on_heartbeat();
    assert!(matches!(acts[0], HaAction::SendPing { id: 3 }));
    // no pong this time: the next tick closes the connection
    let acts = c.on_heartbeat();
    assert!(matches!(acts[0], HaAction::CloseSocket));
}

#[test]
fn heartbeat_only_runs_after_handshake() {
    let mut c = HaClient::new();
    let acts = c.on_heartbeat();
    assert!(acts.is_empty());
    assert!(c.pending.iter().all(|p| p.kind != HaRequestKind::Ping));
}

#[test]
fn parse_value_reads_decimal_fields() {
    let values = kv(&[("connection_timeout", "12"), ("bad", "12x"), ("huge",
        "99999999999999999999999")]);
    assert_eq!(parse_value(&values, "connection_timeout"), Some(12));
    assert_eq!(parse_value(&values, "bad"), None);
    assert_eq!(parse_value(&values, "huge"), None);
    assert_eq!(parse_value(&values, "missing"), None);
}

#[test]
fn parse_tenths_reads_one_decimal() {
    assert_eq!(parse_tenths("2"), Some(20));
    assert_eq!(parse_tenths("2.5"), Some(25));
    assert_eq!(parse_tenths("1.0"), Some(10));
    assert_eq!(parse_tenths("abc"), None);
    assert_eq!(parse_tenths("2.55"), None);
    assert_eq!(parse_tenths(""), None);
}

#[test]
fn backoff_scaling_is_exact() {
    assert_eq!(compute_next_backoff(1000, 15, 30000), 1500);
    assert_eq!(compute_next_backoff(1000, 20, 8000), 2000);
    assert_eq!(compute_next_backoff(7000, 20, 8000), 8000);
    assert_eq!(compute_next_backoff(u64::MAX, 100, 5000), 5000);
}

#[test]
fn error_envelope_codes() {
    assert_eq!(error_code(&ServiceError::InternalServerError), 500);
    assert_eq!(error_code(&ServiceError::SerializationError("x".to_string())), 400);
    assert_eq!(error_code(&ServiceError::BadRequest("x".to_string())), 400);
    assert_eq!(error_code(&ServiceError::NotConnected), 503);
    assert_eq!(error_code(&ServiceError::NotYetImplemented), 501);
    assert_eq!(error_code(&ServiceError::ServiceUnavailable("x".to_string())), 503);
}

#[test]
fn media_player_commands() {
    let known = CallService { command: sample_command() };
    assert!(matches!(handle_media_player(&known), Err(ServiceError::NotYetImplemented)));
    let mut cmd = sample_command();
    cmd.cmd_id = "warp_speed".to_string();
    let unknown = CallService { command: cmd };
    assert!(matches!(handle_media_player(&unknown), Err(ServiceError::BadRequest(_))));
}

#[test]
fn available_entities_answer_pending_requests() {
    let mut c = Controller::new(HomeAssistantSettings::default());
    c.ha_client = true;
    let _ = c.handle_new_r2_session("a".to_string());
    let _ = c.handle_new_r2_session("b".to_string());
    let acts = c.handle_r2_request("a", 5, R2Request::GetAvailableEntities, None);
    assert!(matches!(acts[0], Action::HaGetStates));
    let acts = c.handle_r2_request("b", 6, R2Request::GetEntityStates, None);
    assert!(matches!(acts[0], Action::HaGetStates));
    let acts = c.handle_available_entities(&vec![sample_entity()]);
    assert_eq!(acts.len(), 2);
    assert!(matches!(
        &acts[0],
        Action::SendR2 {
            ws_id,
            frame: R2Frame::ResponseFrame {
                req_id: 5,
                data: R2MessagePayload::AvailableEntitiesData { .. },
            },
        } if ws_id == "a"
    ));
    assert!(matches!(
        &acts[1],
        Action::SendR2 {
            ws_id,
            frame: R2Frame::ResponseFrame {
                req_id: 6,
                data: R2MessagePayload::EntityStatesData { .. },
            },
        } if ws_id == "b"
    ));
    // both pending ids are cleared: a second batch answers nobody
    let acts = c.handle_available_entities(&vec![sample_entity()]);
    assert!(acts.is_empty());
}

#[test]
fn unsupported_entity_types_are_dropped() {
    let mut climate = sample_entity();
    climate.entity_type = "climate".to_string();
    climate.entity_id = "climate.hall".to_string();
    let mut vacuum = sample_entity();
    vacuum.entity_type = "vacuum".to_string();
    vacuum.entity_id = "vacuum.bot".to_string();
    let entities = vec![sample_entity(), climate, vacuum];
    let allowed = vec!["light".to_string(), "climate".to_string()];
    let kept = ha_bridge::messages::filter_entities_by_type(&entities, &allowed);
    assert_eq!(kept.len(), 2);
    assert_eq!(kept[0].entity_id, "light.kitchen");
    assert_eq!(kept[1].entity_id, "climate.hall");
}

#[test]
fn entity_events_fan_out_to_all_sessions() {
    let mut c = Controller::new(HomeAssistantSettings::default());
    let _ = c.handle_new_r2_session("a".to_string());
    let _ = c.handle_new_r2_session("b".to_string());
    let change = EntityChange {
        device_id: None,
        entity_type: "light".to_string(),
        entity_id: "light.k".to_string(),
        attributes: None,
    };
    let acts = c.handle_entity_event(&change);
    assert_eq!(acts.len(), 2);
}

#[test]
fn call_service_result_answers_remote() {
    let c = Controller::new(HomeAssistantSettings::default());
    let acts = c.handle_call_service_result("a", 9, Ok(()));
    assert!(matches!(
        &acts[0],
        Action::SendR2 {
            ws_id,
            frame: R2Frame::ResponseFrame { req_id: 9, data: R2MessagePayload::ResultData { data } },
        } if ws_id == "a" && data.code == "OK"
    ));
    let acts = c.handle_call_service_result("a", 9, Err(ServiceError::NotConnected));
    assert!(matches!(
        &acts[0],
        Action::SendR2 { frame: R2Frame::ErrorFrame { code: 503, .. }, .. }
    ));
}

#[test]
fn bad_entity_command_payloads() {
    let mut c = Controller::new(HomeAssistantSettings::default());
    let _ = c.handle_new_r2_session("a".to_string());
    let acts = c.handle_r2_request("a", 1, R2Request::EntityCommand, None);
    assert!(matches!(
        &acts[0],
        Action::SendR2 { frame: R2Frame::ErrorFrame { code: 400, .. }, .. }
    ));
    let acts = c.handle_r2_request(
        "a",
        2,
        R2Request::EntityCommand,
        Some(R2RequestPayload::Malformed),
    );
    assert!(matches!(
        &acts[0],
        Action::SendR2 { frame: R2Frame::ErrorFrame { code: 400, .. }, .. }
    ));
}

#[test]
fn driver_version_response() {
    let mut c = Controller::new(HomeAssistantSettings::default());
    let _ = c.handle_new_r2_session("a".to_string());
    let acts = c.handle_r2_request("a", 3, R2Request::GetDriverVersion, None);
    assert!(matches!(
        &acts[0],
        Action::SendR2 {
            ws_id,
            frame: R2Frame::ResponseFrame {
                req_id: 3,
                data: R2MessagePayload::VersionData { version },
            },
        } if ws_id == "a" && version.api == "0.4.0" && version.integration == "0.1.0"
    ));
}

fn sample_command() -> EntityCommand {
    EntityCommand {
        device_id: None,
        entity_type: "media_player".to_string(),
        entity_id: "media_player.kitchen".to_string(),
        cmd_id: "on".to_string(),
        params: None,
    }
}

fn sample_entity() -> AvailableEntity {
    AvailableEntity {
        device_id: None,
        entity_type: "light".to_string(),
        entity_id: "light.kitchen".to_string(),
        name: "Kitchen".to_string(),
        attributes: None,
    }
}
