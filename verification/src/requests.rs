//! R2 request handling: the dispatcher, the error envelope, and the
//! fanout of HA entity data to the sessions.

use vstd::prelude::*;
use vstd::string::StringExecFns;

use crate::controller::{
    broadcast_frames, device_frame, entity_frame, Controller,
};
use crate::messages::R2Request;
use crate::messages::R2RequestPayload;
use crate::setup_flow::{
    expert_flag, num_field, sm_next, tenths_field, timer_actions, timer_armed, token_result, upd,
    url_result, OperationModeInput, OperationModeState,
};
use crate::errors::{error_code, error_code_spec, ServiceError};
use crate::messages::{
    entity_change_of, Action, AvailableEntity, EntityChange, EventCategory, R2Frame,
    R2MessagePayload, WsResultData,
};
use crate::session::{has_id, R2Session};

verus! {

/// The code/message payload of the error envelope for each error.
pub open spec fn err_data_matches(e: ServiceError, d: WsResultData) -> bool {
    match e {
        ServiceError::InternalServerError => d.code@ == "ERROR"@ && d.message@
            == "Internal server error"@,
        ServiceError::SerializationError(m) => d.code@ == "BAD_REQUEST"@ && d.message@ == m@,
        ServiceError::BadRequest(m) => d.code@ == "BAD_REQUEST"@ && d.message@ == m@,
        ServiceError::NotConnected => d.code@ == "SERVICE_UNAVAILABLE"@ && d.message@
            == "HomeAssistant is not connected"@,
        ServiceError::NotYetImplemented => d.code@ == "NOT_IMPLEMENTED"@ && d.message@
            == "Not yet implemented"@,
        ServiceError::ServiceUnavailable(m) => d.code@ == "SERVICE_UNAVAILABLE"@ && d.message@
            == m@,
    }
}

/// Build the R2 error envelope for a failed request.
pub fn send_r2_err_response(req_id: u32, error: &ServiceError) -> (f: R2Frame)
    ensures
        (f matches R2Frame::ErrorFrame { req_id: rid, code, data } && rid == req_id && code
            == error_code_spec(*error) && err_data_matches(*error, data)),
{
    let data = match error {
        ServiceError::InternalServerError => WsResultData {
            code: String::from_str("ERROR"),
            message: String::from_str("Internal server error"),
        },
        ServiceError::SerializationError(m) => WsResultData {
            code: String::from_str("BAD_REQUEST"),
            message: m.clone(),
        },
        ServiceError::BadRequest(m) => WsResultData {
            code: String::from_str("BAD_REQUEST"),
            message: m.clone(),
        },
        ServiceError::NotConnected => WsResultData {
            code: String::from_str("SERVICE_UNAVAILABLE"),
            message: String::from_str("HomeAssistant is not connected"),
        },
        ServiceError::NotYetImplemented => WsResultData {
            code: String::from_str("NOT_IMPLEMENTED"),
            message: String::from_str("Not yet implemented"),
        },
        ServiceError::ServiceUnavailable(m) => WsResultData {
            code: String::from_str("SERVICE_UNAVAILABLE"),
            message: m.clone(),
        },
    };
    R2Frame::ErrorFrame { req_id, code: error_code(error), data }
}

/// An action carrying the error envelope for `e` to the session `id`.
pub open spec fn err_envelope_ok(
    a: Action,
    id: Seq<char>,
    req_id: u32,
    code: u16,
    key: Seq<char>,
) -> bool {
    a matches Action::SendR2 { ws_id, frame } && ws_id@ == id && (frame
        matches R2Frame::ErrorFrame { req_id: rid, code: c, data } && rid == req_id && c == code
        && data.code@ == key)
}

impl Controller {
    /// Deliver the outcome of an HA service call to the requesting remote:
    /// the `result` response on success, the error envelope otherwise.
    pub fn handle_call_service_result(
        &self,
        ws_id: &str,
        req_id: u32,
        outcome: Result<(), ServiceError>,
    ) -> (acts: Vec<Action>)
        ensures
            acts@.len() == 1,
            (match outcome {
                Ok(_) => acts@[0] matches Action::SendR2 { ws_id: w, frame } && w@ == ws_id@
                    && (frame matches R2Frame::ResponseFrame { req_id: rid, data } && rid == req_id
                    && (data matches R2MessagePayload::ResultData { data: d } && d.code@ == "OK"@
                    && d.message@ == "Service call sent"@)),
                Err(e) => acts@[0] matches Action::SendR2 { ws_id: w, frame } && w@ == ws_id@
                    && (frame matches R2Frame::ErrorFrame { req_id: rid, code, data } && rid
                    == req_id && code == error_code_spec(e) && err_data_matches(e, data)),
            }),
    {
        let mut acts: Vec<Action> = Vec::new();
        match &outcome {
            Ok(_) => {
                acts.push(Action::SendR2 {
                    ws_id: ws_id.to_owned(),
                    frame: R2Frame::ResponseFrame {
                        req_id,
                        data: R2MessagePayload::ResultData {
                            data: WsResultData {
                                code: String::from_str("OK"),
                                message: String::from_str("Service call sent"),
                            },
                        },
                    },
                });
            },
            Err(e) => {
                acts.push(Action::SendR2 {
                    ws_id: ws_id.to_owned(),
                    frame: send_r2_err_response(req_id, e),
                });
            },
        }
        acts
    }

    /// Fan an entity state change out to every session not in standby.
    pub fn handle_entity_event(&self, change: &EntityChange) -> (acts: Vec<Action>)
        ensures
            acts@ =~= broadcast_frames(self.sessions.items@, entity_frame(*change)),
    {
        let n = self.sessions.items.len();
        let mut acts: Vec<Action> = Vec::new();
        let mut i: usize = 0;
        while i < n
            invariant
                i <= n,
                n == self.sessions.items@.len(),
                acts@ =~= broadcast_frames(
                    self.sessions.items@.take(i as int),
                    entity_frame(*change),
                ),
            decreases n - i,
        {
            proof {
                assert(self.sessions.items@.take(i as int + 1).drop_last()
                    =~= self.sessions.items@.take(i as int));
            }
            if !self.sessions.items[i].standby {
                acts.push(Action::SendR2 {
                    ws_id: self.sessions.items[i].ws_id.clone(),
                    frame: R2Frame::EventFrame {
                        cat: EventCategory::Entity,
                        data: R2MessagePayload::EntityChangeData { change: change.duplicate() },
                    },
                });
            }
            i = i + 1;
        }
        proof {
            assert(self.sessions.items@.take(n as int) =~= self.sessions.items@);
        }
        acts
    }
}

/// A session after the available-entities fanout: its served pending id is
/// cleared; a standby session keeps both ids for later.
pub open spec fn avail_after(s: R2Session) -> R2Session {
    if s.standby {
        s
    } else if s.get_available_entities_id is Some {
        (R2Session { get_available_entities_id: None, ..s })
    } else if s.get_entity_states_id is Some {
        (R2Session { get_entity_states_id: None, ..s })
    } else {
        s
    }
}

/// The response owed to one session: its id, the pending request id, and
/// whether the projection to entity states was asked for.
pub open spec fn avail_plan_of(s: R2Session) -> Option<(String, u32, bool)> {
    if s.standby {
        None
    } else {
        match s.get_available_entities_id {
            Some(id) => Some((s.ws_id, id, false)),
            None => match s.get_entity_states_id {
                Some(id) => Some((s.ws_id, id, true)),
                None => None,
            },
        }
    }
}

/// The responses owed, in registry order.
pub open spec fn avail_plan(s: Seq<R2Session>) -> Seq<(String, u32, bool)>
    decreases s.len(),
{
    if s.len() == 0 {
        Seq::empty()
    } else {
        avail_plan(s.drop_last()) + (match avail_plan_of(s.last()) {
            Some(p) => seq![p],
            None => Seq::empty(),
        })
    }
}

/// One fanout action answers one planned response with the right payload.
pub open spec fn plan_matches(
    a: Action,
    p: (String, u32, bool),
    ents: Seq<AvailableEntity>,
) -> bool {
    a matches Action::SendR2 { ws_id, frame } && ws_id@ == p.0@ && (frame
        matches R2Frame::ResponseFrame { req_id, data } && req_id == p.1 && (match data {
        R2MessagePayload::EntityStatesData { states } => p.2 && states@ =~= ents.map_values(
            |e: AvailableEntity| entity_change_of(e),
        ),
        R2MessagePayload::AvailableEntitiesData { entities } => !p.2 && entities@ =~= ents,
        _ => false,
    }))
}

impl Controller {
    /// Answer the pending `get_available_entities` and `get_entity_states`
    /// requests with the states just fetched from HA, clearing each served
    /// pending id.  Sessions in standby are skipped and keep their ids.
    pub fn handle_available_entities(&mut self, entities: &Vec<AvailableEntity>) -> (acts: Vec<
        Action,
    >)
        requires
            old(self).wf(),
        ensures
            final(self).wf(),
            *final(self) == (Controller { sessions: final(self).sessions, ..*old(self) }),
            final(self).sessions.items@ =~= old(self).sessions.items@.map_values(
                |s: R2Session| avail_after(s),
            ),
            acts@.len() == avail_plan(old(self).sessions.items@).len(),
            forall|k: int|
                0 <= k < acts@.len() ==> plan_matches(
                    #[trigger] acts@[k],
                    avail_plan(old(self).sessions.items@)[k],
                    entities@,
                ),
    {
        let ghost orig = self.sessions.items@;
        let n = self.sessions.items.len();
        let mut acts: Vec<Action> = Vec::new();
        let mut i: usize = 0;
        while i < n
            invariant
                i <= n,
                n == orig.len(),
                self.sessions.items@.len() == n,
                self.settings == old(self).settings,
                self.device_state == old(self).device_state,
                self.ha_client == old(self).ha_client,
                self.ha_reconnect_duration_ms == old(self).ha_reconnect_duration_ms,
                self.ha_reconnect_attempt == old(self).ha_reconnect_attempt,
                self.setup_state == old(self).setup_state,
                self.setup_timer == old(self).setup_timer,
                forall|j: int| i <= j < n ==> self.sessions.items@[j] == orig[j],
                forall|j: int|
                    0 <= j < i ==> self.sessions.items@[j] == avail_after(#[trigger] orig[j]),
                acts@.len() == avail_plan(orig.take(i as int)).len(),
                forall|k: int|
                    0 <= k < acts@.len() ==> plan_matches(
                        #[trigger] acts@[k],
                        avail_plan(orig.take(i as int))[k],
                        entities@,
                    ),
            decreases n - i,
        {
            proof {
                assert(orig.take(i as int + 1).drop_last() =~= orig.take(i as int));
                assert(orig.take(i as int + 1).last() == orig[i as int]);
            }
            let standby = self.sessions.items[i].standby;
            if standby {
                // keep the pending ids: the remote is asleep
            } else if let Some(id) = self.sessions.items[i].get_available_entities_id {
                acts.push(Action::SendR2 {
                    ws_id: self.sessions.items[i].ws_id.clone(),
                    frame: R2Frame::ResponseFrame {
                        req_id: id,
                        data: R2MessagePayload::AvailableEntitiesData {
                            entities: crate::messages::duplicate_entities(entities),
                        },
                    },
                });
                self.sessions.set_avail_id_at(i, None);
            } else if let Some(id) = self.sessions.items[i].get_entity_states_id {
                acts.push(Action::SendR2 {
                    ws_id: self.sessions.items[i].ws_id.clone(),
                    frame: R2Frame::ResponseFrame {
                        req_id: id,
                        data: R2MessagePayload::EntityStatesData {
                            states: crate::messages::project_entity_states(entities),
                        },
                    },
                });
                self.sessions.set_states_id_at(i, None);
            }
            i = i + 1;
        }
        proof {
            assert(orig.take(n as int) =~= orig);
            assert(self.sessions.items@ =~= orig.map_values(|s: R2Session| avail_after(s)));
            assert forall|j: int|
                0 <= j < n implies self.sessions.items@[j].ws_id@ == orig[j].ws_id@ by {
                assert(self.sessions.items@[j] == avail_after(orig[j]));
            }
        }
        acts
    }
}

/// The session list with the session at `i` woken from standby; a live
/// request proves the remote is active.
pub open spec fn woken(items: Seq<R2Session>, i: int) -> Seq<R2Session> {
    items.update(i, (R2Session { standby: false, ..items[i] }))
}

/// All controller fields except the sessions are unchanged.
pub open spec fn keeps_rest(prev: Controller, post: Controller) -> bool {
    post == (Controller {
        sessions: crate::session::SessionRegistry { items: post.sessions.items },
        ..prev
    })
}

/// The connection-side fields are unchanged (the setup arms touch only the
/// settings and the setup machine).
pub open spec fn keeps_conn_fields(prev: Controller, post: Controller) -> bool {
    &&& post.device_state == prev.device_state
    &&& post.ha_client == prev.ha_client
    &&& post.ha_reconnect_duration_ms == prev.ha_reconnect_duration_ms
    &&& post.ha_reconnect_attempt == prev.ha_reconnect_attempt
}

pub open spec fn bad_req_envelope(a: Action, id: Seq<char>, req_id: u32) -> bool {
    err_envelope_ok(a, id, req_id, 400, "BAD_REQUEST"@)
}

pub open spec fn unavailable_envelope(a: Action, id: Seq<char>, req_id: u32) -> bool {
    err_envelope_ok(a, id, req_id, 503, "SERVICE_UNAVAILABLE"@)
}

/// The `driver_version` response.
pub open spec fn version_response_ok(a: Action, id: Seq<char>, req_id: u32) -> bool {
    a matches Action::SendR2 { ws_id, frame } && ws_id@ == id && (frame
        matches R2Frame::ResponseFrame { req_id: rid, data } && rid == req_id && (data
        matches R2MessagePayload::VersionData { version } && version.api@ == "0.4.0"@
        && version.integration@ == "0.1.0"@))
}

/// What the `setup_driver` arm does after the session wake-up.
pub open spec fn setup_driver_rel(
    prev: Controller,
    post: Controller,
    acts: Seq<Action>,
    id: Seq<char>,
    req_id: u32,
    values: Seq<(String, String)>,
) -> bool {
    keeps_conn_fields(prev, post) && (match sm_next(
        prev.setup_state,
        OperationModeInput::SetupDriverRequest,
    ) {
        None => post.settings == prev.settings && post.setup_state == prev.setup_state
            && post.setup_timer == prev.setup_timer && acts.len() == 1 && bad_req_envelope(
            acts[0],
            id,
            req_id,
        ),
        Some(s2) => post.setup_state == s2 && post.setup_timer == timer_armed(s2) && {
            let tacts = timer_actions(prev.setup_state, s2);
            match url_result(values) {
                Err(_) => post.settings == prev.settings && acts.len() == tacts.len() + 1
                    && acts.take(tacts.len() as int) =~= tacts && bad_req_envelope(
                    acts.last(),
                    id,
                    req_id,
                ),
                Ok(u) => match token_result(values, prev.settings.token@) {
                    None => post.settings == prev.settings && acts.len() == tacts.len() + 1
                        && acts.take(tacts.len() as int) =~= tacts && bad_req_envelope(
                        acts.last(),
                        id,
                        req_id,
                    ),
                    Some(tok) => post.settings.url@ == u && post.settings.token@ == tok
                        && post.settings.connection_timeout == prev.settings.connection_timeout
                        && post.settings.max_frame_size_kb == prev.settings.max_frame_size_kb
                        && post.settings.heartbeat == prev.settings.heartbeat
                        && post.settings.reconnect == prev.settings.reconnect && acts.len()
                        == tacts.len() + 2 && acts.take(tacts.len() as int) =~= tacts
                        && (acts[acts.len() - 2] matches Action::PersistSettings { settings }
                        && settings == post.settings) && (if expert_flag(values) {
                        acts.last() matches Action::ScheduleExpertOptions { ws_id: w, delay_ms }
                            && w@ == id && delay_ms == 100
                    } else {
                        acts.last() matches Action::ScheduleFinishSetup {
                            ws_id: w,
                            error,
                            delay_ms,
                        } && w@ == id && error is None && delay_ms == 100
                    }),
                },
            }
        },
    })
}

/// What the `set_driver_user_data` arm does after the session wake-up.
pub open spec fn set_user_data_rel(
    prev: Controller,
    post: Controller,
    acts: Seq<Action>,
    id: Seq<char>,
    req_id: u32,
    data: R2RequestPayload,
) -> bool {
    keeps_conn_fields(prev, post) && (match sm_next(
        prev.setup_state,
        OperationModeInput::SetupUserData,
    ) {
        None => post.settings == prev.settings && post.setup_state == prev.setup_state
            && post.setup_timer == prev.setup_timer && acts.len() == 1 && bad_req_envelope(
            acts[0],
            id,
            req_id,
        ),
        Some(s2) => post.setup_state == s2 && post.setup_timer == timer_armed(s2) && {
            let tacts = timer_actions(prev.setup_state, s2);
            match data {
                R2RequestPayload::InputValues { values } => post.settings.url
                    == prev.settings.url && post.settings.token == prev.settings.token
                    && post.settings.connection_timeout as int == upd(
                    prev.settings.connection_timeout as int,
                    num_field(values@, "connection_timeout"@),
                    3,
                    u32::MAX as int,
                ) && post.settings.max_frame_size_kb as int == upd(
                    prev.settings.max_frame_size_kb as int,
                    num_field(values@, "max_frame_size_kb"@),
                    1024,
                    u32::MAX as int,
                ) && post.settings.heartbeat.interval as int == upd(
                    prev.settings.heartbeat.interval as int,
                    num_field(values@, "heartbeat_interval"@),
                    3,
                    u64::MAX as int,
                ) && post.settings.heartbeat.timeout as int == upd(
                    prev.settings.heartbeat.timeout as int,
                    num_field(values@, "heartbeat_timeout"@),
                    6,
                    u64::MAX as int,
                ) && post.settings.reconnect.attempts as int == upd(
                    prev.settings.reconnect.attempts as int,
                    num_field(values@, "reconnect.attempts"@),
                    0,
                    u16::MAX as int,
                ) && post.settings.reconnect.duration_ms as int == upd(
                    prev.settings.reconnect.duration_ms as int,
                    num_field(values@, "reconnect.duration_ms"@),
                    0,
                    u64::MAX as int,
                ) && post.settings.reconnect.duration_max_ms as int == upd(
                    prev.settings.reconnect.duration_max_ms as int,
                    num_field(values@, "reconnect.duration_max_ms"@),
                    0,
                    u64::MAX as int,
                ) && post.settings.reconnect.backoff_factor_tenths as int == upd(
                    prev.settings.reconnect.backoff_factor_tenths as int,
                    tenths_field(values@, "reconnect.backoff_factor"@),
                    10,
                    u64::MAX as int,
                ) && acts.len() == tacts.len() + 2 && acts.take(tacts.len() as int) =~= tacts
                    && (acts[acts.len() - 2] matches Action::PersistSettings { settings }
                    && settings == post.settings) && (acts.last()
                    matches Action::ScheduleFinishSetup { ws_id: w, error, delay_ms } && w@ == id
                    && error is None && delay_ms == 100),
                _ => post.settings == prev.settings && acts.len() == tacts.len() + 1
                    && acts.take(tacts.len() as int) =~= tacts && bad_req_envelope(
                    acts.last(),
                    id,
                    req_id,
                ),
            }
        },
    })
}

/// What the `abort_driver_setup` arm does after the session wake-up.
pub open spec fn abort_rel(
    prev: Controller,
    post: Controller,
    acts: Seq<Action>,
) -> bool {
    keeps_conn_fields(prev, post) && post.settings == prev.settings && (match sm_next(
        prev.setup_state,
        OperationModeInput::AbortSetup,
    ) {
        None => post.setup_state == prev.setup_state && post.setup_timer == prev.setup_timer
            && acts =~= Seq::<Action>::empty(),
        Some(s2) => post.setup_state == s2 && post.setup_timer == timer_armed(s2) && acts
            =~= timer_actions(prev.setup_state, s2),
    })
}

/// The full behavior of `handle_r2_request`, given the index of the
/// session the request came from.
pub open spec fn r2_request_post(
    prev: Controller,
    post: Controller,
    acts: Seq<Action>,
    i: int,
    id: Seq<char>,
    req_id: u32,
    request: R2Request,
    data: Option<R2RequestPayload>,
) -> bool {
    let items = prev.sessions.items@;
    let wk = woken(items, i);
    match request {
        R2Request::GetDriverVersion => keeps_rest(prev, post) && post.sessions.items@ =~= wk
            && acts.len() == 1 && version_response_ok(acts[0], id, req_id),
        R2Request::GetDeviceState => keeps_rest(prev, post) && post.sessions.items@ =~= wk
            && acts.len() == 1 && (acts[0] matches Action::SendR2 { ws_id, frame } && ws_id@ == id
            && frame == device_frame(prev.device_state)),
        R2Request::SetupDevice => post.sessions.items@ =~= wk && (match data {
            Some(R2RequestPayload::SetupData { values }) => setup_driver_rel(
                prev,
                post,
                acts,
                id,
                req_id,
                values@,
            ),
            _ => keeps_rest(prev, post) && acts.len() == 1 && bad_req_envelope(
                acts[0],
                id,
                req_id,
            ),
        }),
        R2Request::SetDriverUserData => post.sessions.items@ =~= wk && (match data {
            Some(R2RequestPayload::InputValues { values }) => set_user_data_rel(
                prev,
                post,
                acts,
                id,
                req_id,
                R2RequestPayload::InputValues { values },
            ),
            Some(R2RequestPayload::ConfirmationChoice { confirm }) => set_user_data_rel(
                prev,
                post,
                acts,
                id,
                req_id,
                R2RequestPayload::ConfirmationChoice { confirm },
            ),
            _ => keeps_rest(prev, post) && acts.len() == 1 && bad_req_envelope(
                acts[0],
                id,
                req_id,
            ),
        }),
        R2Request::AbortDriverSetup => post.sessions.items@ =~= wk && abort_rel(
            prev,
            post,
            acts,
        ),
        R2Request::GetAvailableEntities => keeps_rest(prev, post) && (if prev.ha_client {
            post.sessions.items@ =~= items.update(
                i,
                (R2Session {
                    standby: false,
                    get_available_entities_id: Some(req_id),
                    ..items[i]
                }),
            ) && acts =~= seq![Action::HaGetStates]
        } else {
            post.sessions.items@ =~= wk && acts.len() == 1 && unavailable_envelope(
                acts[0],
                id,
                req_id,
            )
        }),
        R2Request::GetEntityStates => keeps_rest(prev, post) && (if prev.ha_client {
            post.sessions.items@ =~= items.update(
                i,
                (R2Session { standby: false, get_entity_states_id: Some(req_id), ..items[i] }),
            ) && acts =~= seq![Action::HaGetStates]
        } else {
            post.sessions.items@ =~= wk && acts.len() == 1 && unavailable_envelope(
                acts[0],
                id,
                req_id,
            )
        }),
        R2Request::SubscribeEvents => keeps_rest(prev, post) && (if !(prev.setup_state
            is Running) {
            post.sessions.items@ =~= wk && acts.len() == 1 && unavailable_envelope(
                acts[0],
                id,
                req_id,
            )
        } else {
            match data {
                Some(R2RequestPayload::EntityIds { entity_ids }) => post.sessions.items@
                    =~= items.update(
                    i,
                    (R2Session {
                        standby: false,
                        subscribed_entities: post.sessions.items@[i].subscribed_entities,
                        ..items[i]
                    }),
                ) && post.sessions.items@[i].subscribed_entities@
                    =~= items[i].subscribed_entities@ + entity_ids@ && acts
                    =~= Seq::<Action>::empty(),
                None => post.sessions.items@ =~= wk && acts =~= Seq::<Action>::empty(),
                _ => post.sessions.items@ =~= wk && acts.len() == 1 && bad_req_envelope(
                    acts[0],
                    id,
                    req_id,
                ),
            }
        }),
        R2Request::UnsubscribeEvents => keeps_rest(prev, post) && (if !(prev.setup_state
            is Running) {
            post.sessions.items@ =~= wk && acts.len() == 1 && unavailable_envelope(
                acts[0],
                id,
                req_id,
            )
        } else {
            match data {
                Some(R2RequestPayload::EntityIds { entity_ids }) => post.sessions.items@
                    =~= items.update(
                    i,
                    (R2Session {
                        standby: false,
                        subscribed_entities: post.sessions.items@[i].subscribed_entities,
                        ..items[i]
                    }),
                ) && post.sessions.items@[i].subscribed_entities@
                    =~= items[i].subscribed_entities@.filter(
                    |e: String| !crate::session::entity_set(entity_ids@).contains(e@),
                ) && acts =~= Seq::<Action>::empty(),
                None => post.sessions.items@ =~= wk && acts =~= Seq::<Action>::empty(),
                _ => post.sessions.items@ =~= wk && acts.len() == 1 && bad_req_envelope(
                    acts[0],
                    id,
                    req_id,
                ),
            }
        }),
        R2Request::EntityCommand => keeps_rest(prev, post) && post.sessions.items@ =~= wk
            && (match data {
            Some(R2RequestPayload::Command { command }) => if prev.ha_client {
                acts =~= seq![(Action::HaCallService { command: command })]
            } else {
                acts.len() == 1 && unavailable_envelope(acts[0], id, req_id)
            },
            _ => acts.len() == 1 && bad_req_envelope(acts[0], id, req_id),
        }),
    }
}

impl Controller {
    /// Handle one R2 request.  A request from an unknown session is
    /// dropped; otherwise the session is woken from standby and the
    /// request dispatched per the protocol table.
    pub fn handle_r2_request(
        &mut self,
        ws_id: &str,
        req_id: u32,
        request: R2Request,
        msg_data: Option<R2RequestPayload>,
    ) -> (acts: Vec<Action>)
        requires
            old(self).wf(),
        ensures
            final(self).wf(),
            !has_id(old(self).sessions.items@, ws_id@) ==> *final(self) == *old(self) && acts@
                =~= Seq::<Action>::empty(),
            has_id(old(self).sessions.items@, ws_id@) ==> exists|i: int|
                0 <= i < old(self).sessions.items@.len()
                    && #[trigger] old(self).sessions.items@[i].ws_id@ == ws_id@
                    && r2_request_post(
                    *old(self),
                    *final(self),
                    acts@,
                    i,
                    ws_id@,
                    req_id,
                    request,
                    msg_data,
                ),
    {
        let i = match self.sessions.find(ws_id) {
            Some(i) => i,
            None => {
                return Vec::new();
            },
        };
        let ghost gi = i as int;
        let ghost prev = *self;
        proof {
            crate::session::lemma_update_keeps_distinct(
                self.sessions.items@,
                gi,
                (R2Session { standby: false, ..self.sessions.items@[gi] }),
            );
        }
        self.sessions.set_standby_at(i, false);
        let ghost wk_state = *self;
        let mut acts: Vec<Action> = Vec::new();
        match request {
            R2Request::GetDriverVersion => {
                acts.push(Action::SendR2 {
                    ws_id: ws_id.to_owned(),
                    frame: R2Frame::ResponseFrame {
                        req_id,
                        data: R2MessagePayload::VersionData {
                            version: crate::messages::IntegrationVersion {
                                api: String::from_str("0.4.0"),
                                integration: String::from_str("0.1.0"),
                            },
                        },
                    },
                });
            },
            R2Request::GetDeviceState => {
                acts.push(Action::SendR2 {
                    ws_id: ws_id.to_owned(),
                    frame: R2Frame::EventFrame {
                        cat: EventCategory::Device,
                        data: R2MessagePayload::DeviceStateData { state: self.device_state },
                    },
                });
            },
            R2Request::SetupDevice => {
                match msg_data {
                    Some(R2RequestPayload::SetupData { values }) => {
                        let (r, mut inner) = self.handle_setup_driver(ws_id, &values);
                        acts.append(&mut inner);
                        if let Err(e) = r {
                            acts.push(Action::SendR2 {
                                ws_id: ws_id.to_owned(),
                                frame: send_r2_err_response(req_id, &e),
                            });
                        }
                    },
                    _ => {
                        let e = ServiceError::BadRequest(String::from_str(
                            "Invalid setup_driver payload",
                        ));
                        acts.push(Action::SendR2 {
                            ws_id: ws_id.to_owned(),
                            frame: send_r2_err_response(req_id, &e),
                        });
                    },
                }
            },
            R2Request::SetDriverUserData => {
                match msg_data {
                    Some(R2RequestPayload::InputValues { values }) => {
                        let payload = R2RequestPayload::InputValues { values };
                        let (r, mut inner) = self.handle_set_driver_user_data(ws_id, &payload);
                        acts.append(&mut inner);
                        if let Err(e) = r {
                            acts.push(Action::SendR2 {
                                ws_id: ws_id.to_owned(),
                                frame: send_r2_err_response(req_id, &e),
                            });
                        }
                    },
                    Some(R2RequestPayload::ConfirmationChoice { confirm }) => {
                        let payload = R2RequestPayload::ConfirmationChoice { confirm };
                        let (r, mut inner) = self.handle_set_driver_user_data(ws_id, &payload);
                        acts.append(&mut inner);
                        if let Err(e) = r {
                            acts.push(Action::SendR2 {
                                ws_id: ws_id.to_owned(),
                                frame: send_r2_err_response(req_id, &e),
                            });
                        }
                    },
                    _ => {
                        let e = ServiceError::BadRequest(String::from_str(
                            "Invalid set_driver_user_data payload",
                        ));
                        acts.push(Action::SendR2 {
                            ws_id: ws_id.to_owned(),
                            frame: send_r2_err_response(req_id, &e),
                        });
                    },
                }
            },
            R2Request::AbortDriverSetup => {
                let mut inner = self.handle_abort_driver_setup(ws_id, false);
                acts.append(&mut inner);
            },
            R2Request::GetAvailableEntities => {
                if self.ha_client {
                    self.sessions.set_avail_id_at(i, Some(req_id));
                    proof {
                        assert(self.sessions.items@ =~= prev.sessions.items@.update(
                            gi,
                            (R2Session {
                                standby: false,
                                get_available_entities_id: Some(req_id),
                                ..prev.sessions.items@[gi]
                            }),
                        ));
                        crate::session::lemma_update_keeps_distinct(
                            prev.sessions.items@,
                            gi,
                            (R2Session {
                                standby: false,
                                get_available_entities_id: Some(req_id),
                                ..prev.sessions.items@[gi]
                            }),
                        );
                    }
                    acts.push(Action::HaGetStates);
                } else {
                    acts.push(Action::SendR2 {
                        ws_id: ws_id.to_owned(),
                        frame: send_r2_err_response(req_id, &ServiceError::NotConnected),
                    });
                }
            },
            R2Request::GetEntityStates => {
                if self.ha_client {
                    self.sessions.set_states_id_at(i, Some(req_id));
                    proof {
                        assert(self.sessions.items@ =~= prev.sessions.items@.update(
                            gi,
                            (R2Session {
                                standby: false,
                                get_entity_states_id: Some(req_id),
                                ..prev.sessions.items@[gi]
                            }),
                        ));
                        crate::session::lemma_update_keeps_distinct(
                            prev.sessions.items@,
                            gi,
                            (R2Session {
                                standby: false,
                                get_entity_states_id: Some(req_id),
                                ..prev.sessions.items@[gi]
                            }),
                        );
                    }
                    acts.push(Action::HaGetStates);
                } else {
                    acts.push(Action::SendR2 {
                        ws_id: ws_id.to_owned(),
                        frame: send_r2_err_response(req_id, &ServiceError::NotConnected),
                    });
                }
            },
            R2Request::SubscribeEvents => {
                let running = match self.setup_state {
                    OperationModeState::Running => true,
                    _ => false,
                };
                if !running {
                    let e = ServiceError::ServiceUnavailable(String::from_str("Setup required"));
                    acts.push(Action::SendR2 {
                        ws_id: ws_id.to_owned(),
                        frame: send_r2_err_response(req_id, &e),
                    });
                } else {
                    match msg_data {
                        Some(R2RequestPayload::EntityIds { entity_ids }) => {
                            self.sessions.append_subscribed_at(i, entity_ids);
                            proof {
                                assert(self.sessions.items@ =~= prev.sessions.items@.update(
                                    gi,
                                    (R2Session {
                                        standby: false,
                                        subscribed_entities:
                                            self.sessions.items@[gi].subscribed_entities,
                                        ..prev.sessions.items@[gi]
                                    }),
                                ));
                                crate::session::lemma_update_keeps_distinct(
                                    prev.sessions.items@,
                                    gi,
                                    (R2Session {
                                        standby: false,
                                        subscribed_entities:
                                            self.sessions.items@[gi].subscribed_entities,
                                        ..prev.sessions.items@[gi]
                                    }),
                                );
                            }
                        },
                        None => {},
                        _ => {
                            let e = ServiceError::BadRequest(String::from_str(
                                "Invalid subscribe_events payload",
                            ));
                            acts.push(Action::SendR2 {
                                ws_id: ws_id.to_owned(),
                                frame: send_r2_err_response(req_id, &e),
                            });
                        },
                    }
                }
            },
            R2Request::UnsubscribeEvents => {
                let running = match self.setup_state {
                    OperationModeState::Running => true,
                    _ => false,
                };
                if !running {
                    let e = ServiceError::ServiceUnavailable(String::from_str("Setup required"));
                    acts.push(Action::SendR2 {
                        ws_id: ws_id.to_owned(),
                        frame: send_r2_err_response(req_id, &e),
                    });
                } else {
                    match msg_data {
                        Some(R2RequestPayload::EntityIds { entity_ids }) => {
                            self.sessions.remove_subscribed_at(i, &entity_ids);
                            proof {
                                assert(self.sessions.items@ =~= prev.sessions.items@.update(
                                    gi,
                                    (R2Session {
                                        standby: false,
                                        subscribed_entities:
                                            self.sessions.items@[gi].subscribed_entities,
                                        ..prev.sessions.items@[gi]
                                    }),
                                ));
                                crate::session::lemma_update_keeps_distinct(
                                    prev.sessions.items@,
                                    gi,
                                    (R2Session {
                                        standby: false,
                                        subscribed_entities:
                                            self.sessions.items@[gi].subscribed_entities,
                                        ..prev.sessions.items@[gi]
                                    }),
                                );
                            }
                        },
                        None => {},
                        _ => {
                            let e = ServiceError::BadRequest(String::from_str(
                                "Invalid unsubscribe_events payload",
                            ));
                            acts.push(Action::SendR2 {
                                ws_id: ws_id.to_owned(),
                                frame: send_r2_err_response(req_id, &e),
                            });
                        },
                    }
                }
            },
            R2Request::EntityCommand => {
                match msg_data {
                    None => {
                        let e = ServiceError::BadRequest(String::from_str(
                            "Missing msg_data in entity command",
                        ));
                        acts.push(Action::SendR2 {
                            ws_id: ws_id.to_owned(),
                            frame: send_r2_err_response(req_id, &e),
                        });
                    },
                    Some(R2RequestPayload::Command { command }) => {
                        if self.ha_client {
                            acts.push(Action::HaCallService { command });
                        } else {
                            acts.push(Action::SendR2 {
                                ws_id: ws_id.to_owned(),
                                frame: send_r2_err_response(req_id, &ServiceError::NotConnected),
                            });
                        }
                    },
                    Some(_) => {
                        let e = ServiceError::BadRequest(String::from_str(
                            "Invalid entity command",
                        ));
                        acts.push(Action::SendR2 {
                            ws_id: ws_id.to_owned(),
                            frame: send_r2_err_response(req_id, &e),
                        });
                    },
                }
            },
        }
        proof {
            assert(r2_request_post(prev, *self, acts@, gi, ws_id@, req_id, request, msg_data));
        }
        acts
    }
}

} // verus!
