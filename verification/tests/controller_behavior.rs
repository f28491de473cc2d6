use ha_bridge::controller::Controller;
use ha_bridge::errors::ServiceError;
use ha_bridge::messages::{
    Action, ConnectionState, DeviceState, EntityCommand, R2Event, R2Frame, R2MessagePayload,
    R2Request, R2RequestPayload,
};
use ha_bridge::settings::HomeAssistantSettings;
use ha_bridge::setup_flow::OperationModeState;

fn settings_for_backoff() -> HomeAssistantSettings {
    let mut s = HomeAssistantSettings::default();
    s.reconnect.attempts = 3;
    s.reconnect.duration_ms = 1000;
    s.reconnect.duration_max_ms = 8000;
    s.reconnect.backoff_factor_tenths = 20;
    s
}

fn connecting_controller() -> Controller {
    let mut c = Controller::new(settings_for_backoff());
    let _ = c.handle_new_r2_session("remote".to_string());
    let _ = c.handle_r2_event("remote", R2Event::Connect);
    assert_eq!(c.get_device_state(), DeviceState::Connecting);
    c
}

#[test]
fn reconnect_backoff_delays() {
    let mut c = connecting_controller();
    let acts = c.on_connect_failed();
    assert!(matches!(acts[0], Action::ConnectLater { delay_ms: 1000 }));
    let acts = c.on_connect_failed();
    assert!(matches!(acts[0], Action::ConnectLater { delay_ms: 2000 }));
    let acts = c.on_connect_failed();
    assert!(matches!(acts[0], Action::ConnectLater { delay_ms: 4000 }));
    // the delay has reached the 8000 ms cap, but a fourth attempt is
    // never scheduled: the retry budget is exhausted
    assert_eq!(c.ha_reconnect_duration_ms, 8000);
    let acts = c.on_connect_failed();
    assert_eq!(c.get_device_state(), DeviceState::Error);
    for a in &acts {
        assert!(!matches!(a, Action::ConnectNow));
        assert!(!matches!(a, Action::ConnectLater { .. }));
    }
}

#[test]
fn backoff_is_capped() {
    let mut c = connecting_controller();
    c.ha_reconnect_duration_ms = 7000;
    let _ = c.on_connect_failed();
    // 7000 * 2.0 exceeds the cap
    assert_eq!(c.ha_reconnect_duration_ms, 8000);
}

#[test]
fn auth_failure_prevents_reconnect() {
    let mut c = connecting_controller();
    let acts = c.handle_connection_event(ConnectionState::AuthenticationFailed);
    assert_eq!(c.get_device_state(), DeviceState::Error);
    for a in &acts {
        assert!(!matches!(a, Action::ConnectNow));
        assert!(!matches!(a, Action::ConnectLater { .. }));
    }
    // the upcoming close must not trigger a reconnect either
    let acts = c.handle_connection_event(ConnectionState::Closed);
    assert_eq!(c.get_device_state(), DeviceState::Error);
    for a in &acts {
        assert!(!matches!(a, Action::ConnectNow));
        assert!(!matches!(a, Action::ConnectLater { .. }));
    }
}

#[test]
fn disconnect_suppresses_reconnect() {
    let mut c = connecting_controller();
    c.on_connect_established();
    let acts = c.handle_connection_event(ConnectionState::Connected);
    assert_eq!(c.get_device_state(), DeviceState::Connected);
    drop(acts);
    let acts = c.handle_r2_event("remote", R2Event::Disconnect);
    assert_eq!(c.get_device_state(), DeviceState::Disconnected);
    assert!(matches!(acts[0], Action::HaClose));
    // the close that follows the user disconnect schedules nothing
    let acts = c.handle_connection_event(ConnectionState::Closed);
    assert_eq!(c.get_device_state(), DeviceState::Disconnected);
    assert!(acts.is_empty());
    let acts = c.on_connect_failed();
    assert!(acts.is_empty());
}

#[test]
fn connected_event_resets_backoff() {
    let mut c = connecting_controller();
    let _ = c.on_connect_failed();
    let _ = c.on_connect_failed();
    assert_eq!(c.ha_reconnect_attempt, 2);
    let _ = c.handle_connection_event(ConnectionState::Connected);
    assert_eq!(c.ha_reconnect_attempt, 0);
    assert_eq!(c.ha_reconnect_duration_ms, 1000);
}

#[test]
fn setup_happy_path() {
    let mut c = Controller::new(HomeAssistantSettings::default());
    let _ = c.handle_new_r2_session("r1".to_string());
    let payload = R2RequestPayload::SetupData {
        values: vec![
            ("url".to_string(), "ha.local:8123".to_string()),
            ("token".to_string(), "abc".to_string()),
            ("expert".to_string(), "false".to_string()),
        ],
    };
    let acts = c.handle_r2_request("r1", 7, R2Request::SetupDevice, Some(payload));
    assert_eq!(c.settings.url, "ws://ha.local:8123/");
    assert_eq!(c.settings.token, "abc");
    assert_eq!(c.setup_state, OperationModeState::WaitSetupData);
    assert!(matches!(acts[0], Action::StartSetupTimer));
    assert!(matches!(&acts[1], Action::PersistSettings { settings } if settings.url == "ws://ha.local:8123/" && settings.token == "abc"));
    assert!(
        matches!(&acts[2], Action::ScheduleFinishSetup { ws_id, error: None, delay_ms: 100 } if ws_id == "r1")
    );
    // the scheduled finish fires after ~100 ms
    let acts = c.handle_finish_setup_flow("r1", None);
    assert_eq!(c.setup_state, OperationModeState::Running);
    assert!(matches!(acts[0], Action::CancelSetupTimer));
    assert!(matches!(&acts[1], Action::SendR2 { ws_id, frame: R2Frame::EventFrame { data: R2MessagePayload::SetupChangeData { error: None, .. }, .. } } if ws_id == "r1"));
}

#[test]
fn setup_expert_path_with_out_of_range_user_data() {
    let mut c = Controller::new(HomeAssistantSettings::default());
    let _ = c.handle_new_r2_session("r1".to_string());
    let payload = R2RequestPayload::SetupData {
        values: vec![
            ("url".to_string(), "ha.local:8123".to_string()),
            ("token".to_string(), "abc".to_string()),
            ("expert".to_string(), "true".to_string()),
        ],
    };
    let acts = c.handle_r2_request("r1", 7, R2Request::SetupDevice, Some(payload));
    assert!(
        matches!(&acts[2], Action::ScheduleExpertOptions { ws_id, delay_ms: 100 } if ws_id == "r1")
    );
    let acts = c.handle_request_expert_options("r1");
    assert_eq!(c.setup_state, OperationModeState::WaitUserInput);
    assert!(acts.iter().any(|a| matches!(a, Action::SendR2 { .. })));
    let user_data = R2RequestPayload::InputValues {
        values: vec![
            ("connection_timeout".to_string(), "2".to_string()),
            ("heartbeat_interval".to_string(), "10".to_string()),
        ],
    };
    let _ = c.handle_r2_request("r1", 8, R2Request::SetDriverUserData, Some(user_data));
    // 2 is below the minimum of 3: retained; 10 s is applied
    assert_eq!(c.settings.connection_timeout, 5);
    assert_eq!(c.settings.heartbeat.interval, 10);
    assert_eq!(c.setup_state, OperationModeState::Running);
}

#[test]
fn entity_command_while_disconnected() {
    let mut c = Controller::new(HomeAssistantSettings::default());
    let _ = c.handle_new_r2_session("r1".to_string());
    let cmd = EntityCommand {
        device_id: None,
        entity_type: "media_player".to_string(),
        entity_id: "media_player.kitchen".to_string(),
        cmd_id: "on".to_string(),
        params: None,
    };
    let acts = c.handle_r2_request(
        "r1",
        42,
        R2Request::EntityCommand,
        Some(R2RequestPayload::Command { command: cmd }),
    );
    assert_eq!(acts.len(), 1);
    match &acts[0] {
        Action::SendR2 { ws_id, frame: R2Frame::ErrorFrame { req_id, code, data } } => {
            assert_eq!(ws_id, "r1");
            assert_eq!(*req_id, 42);
            assert_eq!(*code, 503);
            assert_eq!(data.code, "SERVICE_UNAVAILABLE");
        },
        other => panic!("expected an error envelope, got {other:?}"),
    }
}

#[test]
fn setup_rejected_outside_table() {
    let mut c = Controller::new(HomeAssistantSettings::default());
    let (r, acts) = c.handle_set_driver_user_data(
        "r1",
        &R2RequestPayload::InputValues { values: vec![] },
    );
    // Idle does not accept SetupUserData: unchanged, BadRequest
    assert!(matches!(r, Err(ServiceError::BadRequest(_))));
    assert_eq!(c.setup_state, OperationModeState::Idle);
    assert!(acts.is_empty());
    let acts = c.handle_finish_setup_flow("r1", None);
    assert_eq!(c.setup_state, OperationModeState::Idle);
    assert!(acts.is_empty());
}

#[test]
fn device_state_broadcast_once_per_session() {
    let mut c = Controller::new(HomeAssistantSettings::default());
    let _ = c.handle_new_r2_session("a".to_string());
    let _ = c.handle_new_r2_session("b".to_string());
    let acts = c.handle_connection_event(ConnectionState::AuthenticationFailed);
    let to_a = acts
        .iter()
        .filter(|a| matches!(a, Action::SendR2 { ws_id, .. } if ws_id == "a"))
        .count();
    let to_b = acts
        .iter()
        .filter(|a| matches!(a, Action::SendR2 { ws_id, .. } if ws_id == "b"))
        .count();
    assert_eq!(to_a, 1);
    assert_eq!(to_b, 1);
}

#[test]
fn standby_suppresses_sends() {
    let mut c = Controller::new(HomeAssistantSettings::default());
    let _ = c.handle_new_r2_session("a".to_string());
    let _ = c.handle_r2_event("a", R2Event::EnterStandby);
    let acts = c.handle_connection_event(ConnectionState::AuthenticationFailed);
    assert!(acts.is_empty());
    // any request wakes the remote again
    let _ = c.handle_r2_request("a", 1, R2Request::GetDriverVersion, None);
    let acts = c.handle_connection_event(ConnectionState::Connected);
    assert_eq!(acts.len(), 1);
}

#[test]
fn subscribe_and_unsubscribe_entities() {
    let mut c = Controller::new(HomeAssistantSettings::default());
    c.setup_state = OperationModeState::Running;
    let _ = c.handle_new_r2_session("a".to_string());
    let ids = R2RequestPayload::EntityIds {
        entity_ids: vec!["light.k".to_string(), "switch.s".to_string()],
    };
    let acts = c.handle_r2_request("a", 1, R2Request::SubscribeEvents, Some(ids));
    assert!(acts.is_empty());
    assert_eq!(c.sessions.items[0].subscribed_entities.len(), 2);
    let ids = R2RequestPayload::EntityIds { entity_ids: vec!["light.k".to_string()] };
    let acts = c.handle_r2_request("a", 2, R2Request::UnsubscribeEvents, Some(ids));
    assert!(acts.is_empty());
    assert_eq!(c.sessions.items[0].subscribed_entities, vec!["switch.s".to_string()]);
}

#[test]
fn subscribe_requires_running_setup() {
    let mut c = Controller::new(HomeAssistantSettings::default());
    let _ = c.handle_new_r2_session("a".to_string());
    let ids = R2RequestPayload::EntityIds { entity_ids: vec!["light.k".to_string()] };
    let acts = c.handle_r2_request("a", 1, R2Request::SubscribeEvents, Some(ids));
    assert!(matches!(
        &acts[0],
        Action::SendR2 { frame: R2Frame::ErrorFrame { code: 503, .. }, .. }
    ));
}
