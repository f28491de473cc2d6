//! The driver-setup state machine and its handlers.
//!
//! A rejected input leaves the machine unchanged and surfaces `BadRequest`;
//! an accepted input moves the machine and runs the side effects: persist,
//! emit `driver_setup_change`, schedule the follow-up self-notification,
//! and arm or cancel the setup timeout timer.

use vstd::prelude::*;
use vstd::string::StrSliceExecFns;

use crate::controller::Controller;
use crate::errors::ServiceError;
use crate::messages::{
    Action, EventCategory, IntegrationSetupError, IntegrationSetupState, NumberField, R2Frame,
    R2MessagePayload, R2RequestPayload, SettingsPage, SetupChangeEventType,
};
use crate::settings::HomeAssistantSettings;
use crate::text::{
    all_digits, digit_val, digits_val, is_digit, parse_u64_digits, prefix_len_until, trim_spec,
    trim_str,
};
use crate::url_norm::{normalize_trimmed, validate_url};

verus! {

/// Operation mode of the controller: the setup flow states around the
/// normal `Running` mode.
#[derive(Clone, Copy, Debug, PartialEq, Eq, Structural)]
pub enum OperationModeState {
    Idle,
    WaitSetupData,
    WaitUserInput,
    Running,
    Error,
}

/// Inputs consumed by the setup state machine.
#[derive(Clone, Copy, Debug, PartialEq, Eq, Structural)]
pub enum OperationModeInput {
    SetupDriverRequest,
    RequestUserInput,
    SetupUserData,
    Successful,
    SetupError,
    AbortSetup,
}

/// The transition table.  `None` means the input is rejected in this state.
pub open spec fn sm_next(s: OperationModeState, i: OperationModeInput) -> Option<
    OperationModeState,
> {
    match i {
        OperationModeInput::SetupDriverRequest => match s {
            OperationModeState::Idle => Some(OperationModeState::WaitSetupData),
            OperationModeState::Running => Some(OperationModeState::WaitSetupData),
            _ => None,
        },
        OperationModeInput::RequestUserInput => match s {
            OperationModeState::WaitSetupData => Some(OperationModeState::WaitUserInput),
            _ => None,
        },
        OperationModeInput::SetupUserData => match s {
            OperationModeState::WaitUserInput => Some(OperationModeState::Running),
            _ => None,
        },
        OperationModeInput::Successful => match s {
            OperationModeState::WaitSetupData => Some(OperationModeState::Running),
            _ => None,
        },
        OperationModeInput::SetupError => Some(OperationModeState::Error),
        OperationModeInput::AbortSetup => Some(OperationModeState::Idle),
    }
}

/// The states in which the setup timeout timer is armed.
pub open spec fn timer_armed(s: OperationModeState) -> bool {
    s is WaitSetupData || s is WaitUserInput
}

/// Timer actions on a transition: cancelled on leaving an armed state,
/// started on entering one (restarted when both hold).
pub open spec fn timer_actions(s1: OperationModeState, s2: OperationModeState) -> Seq<Action> {
    if timer_armed(s1) && timer_armed(s2) {
        seq![Action::CancelSetupTimer, Action::StartSetupTimer]
    } else if timer_armed(s2) {
        seq![Action::StartSetupTimer]
    } else if timer_armed(s1) {
        seq![Action::CancelSetupTimer]
    } else {
        Seq::empty()
    }
}

impl Controller {
    /// Feed one input to the setup state machine.  Accepted exactly when
    /// the transition table has an entry for the current state; a rejected
    /// input changes nothing.
    pub fn sm_consume(&mut self, input: &OperationModeInput, acts: &mut Vec<Action>) -> (r:
        Result<(), ()>)
        ensures
            (match sm_next(old(self).setup_state, *input) {
                Some(s2) => r is Ok && *final(self) == (Controller {
                    setup_state: s2,
                    setup_timer: timer_armed(s2),
                    ..*old(self)
                }) && final(acts)@ =~= old(acts)@ + timer_actions(old(self).setup_state, s2),
                None => r is Err && *final(self) == *old(self) && final(acts)@ =~= old(acts)@,
            }),
    {
        let next = match input {
            OperationModeInput::SetupDriverRequest => match self.setup_state {
                OperationModeState::Idle => Some(OperationModeState::WaitSetupData),
                OperationModeState::Running => Some(OperationModeState::WaitSetupData),
                _ => None,
            },
            OperationModeInput::RequestUserInput => match self.setup_state {
                OperationModeState::WaitSetupData => Some(OperationModeState::WaitUserInput),
                _ => None,
            },
            OperationModeInput::SetupUserData => match self.setup_state {
                OperationModeState::WaitUserInput => Some(OperationModeState::Running),
                _ => None,
            },
            OperationModeInput::Successful => match self.setup_state {
                OperationModeState::WaitSetupData => Some(OperationModeState::Running),
                _ => None,
            },
            OperationModeInput::SetupError => Some(OperationModeState::Error),
            OperationModeInput::AbortSetup => Some(OperationModeState::Idle),
        };
        match next {
            None => Err(()),
            Some(s2) => {
                let arm = match s2 {
                    OperationModeState::WaitSetupData => true,
                    OperationModeState::WaitUserInput => true,
                    _ => false,
                };
                let from_armed = match self.setup_state {
                    OperationModeState::WaitSetupData => true,
                    OperationModeState::WaitUserInput => true,
                    _ => false,
                };
                if from_armed {
                    acts.push(Action::CancelSetupTimer);
                }
                if arm {
                    acts.push(Action::StartSetupTimer);
                }
                self.setup_state = s2;
                self.setup_timer = arm;
                Ok(())
            },
        }
    }
}

/// The value of the first pair whose key matches, if any.
pub open spec fn lookup_spec(values: Seq<(String, String)>, key: Seq<char>) -> Option<Seq<char>>
    decreases values.len(),
{
    if values.len() == 0 {
        None
    } else if values[0].0@ == key {
        Some(values[0].1@)
    } else {
        lookup_spec(values.drop_first(), key)
    }
}

proof fn lemma_lookup_at(values: Seq<(String, String)>, key: Seq<char>, k: int)
    requires
        0 <= k <= values.len(),
        forall|j: int| 0 <= j < k ==> values[j].0@ != key,
        k < values.len() ==> values[k].0@ == key,
    ensures
        lookup_spec(values, key) == if k < values.len() {
            Some(values[k].1@)
        } else {
            None::<Seq<char>>
        },
    decreases k,
{
    if k > 0 {
        let t = values.drop_first();
        assert(forall|j: int| 0 <= j < k - 1 ==> #[trigger] t[j] == values[j + 1]);
        lemma_lookup_at(t, key, k - 1);
    }
}

/// Look a key up in the decoded key/value pairs.
pub fn lookup_value(values: &Vec<(String, String)>, key: &str) -> (r: Option<String>)
    ensures
        (match r {
            Some(v) => lookup_spec(values@, key@) == Some(v@),
            None => lookup_spec(values@, key@) is None,
        }),
{
    let n = values.len();
    let mut i: usize = 0;
    while i < n
        invariant
            i <= n,
            n == values@.len(),
            forall|j: int| 0 <= j < i ==> values@[j].0@ != key@,
        decreases n - i,
    {
        if crate::text::str_eq_str(values[i].0.as_str(), key) {
            proof {
                lemma_lookup_at(values@, key@, i as int);
            }
            return Some(values[i].1.clone());
        }
        i = i + 1;
    }
    proof {
        lemma_lookup_at(values@, key@, n as int);
    }
    None
}

/// The numeric value of a field: its digits, when they all are digits and
/// fit a `u64`.
pub open spec fn num_field(values: Seq<(String, String)>, key: Seq<char>) -> Option<int> {
    match lookup_spec(values, key) {
        Some(s) => if s.len() > 0 && all_digits(s) && digits_val(s) <= u64::MAX {
            Some(digits_val(s) as int)
        } else {
            None
        },
        None => None,
    }
}

/// Parse the field named `key` as a decimal integer, as the setup dialog's
/// numeric inputs need; anything else yields `None`.
pub fn parse_value(values: &Vec<(String, String)>, key: &str) -> (r: Option<u64>)
    ensures
        (match r {
            Some(v) => num_field(values@, key@) == Some(v as int),
            None => num_field(values@, key@) is None,
        }),
{
    match lookup_value(values, key) {
        Some(v) => parse_u64_digits(v.as_str()),
        None => None,
    }
}

/// A decimal number with at most one fractional digit, in tenths:
/// `2` gives 20, `2.5` gives 25.
pub open spec fn tenths_spec(s: Seq<char>) -> Option<int> {
    let k = prefix_len_until(s, '.') as int;
    if k == s.len() {
        if s.len() > 0 && all_digits(s) && 10 * digits_val(s) <= u64::MAX {
            Some(10 * digits_val(s) as int)
        } else {
            None
        }
    } else {
        let ip = s.take(k);
        let fp = s.skip(k + 1);
        if ip.len() > 0 && all_digits(ip) && fp.len() == 1 && is_digit(fp[0]) && 10 * digits_val(
            ip,
        ) + digit_val(fp[0]) <= u64::MAX {
            Some(10 * digits_val(ip) as int + digit_val(fp[0]) as int)
        } else {
            None
        }
    }
}

/// The backoff-factor field in tenths, when it parses.
pub open spec fn tenths_field(values: Seq<(String, String)>, key: Seq<char>) -> Option<int> {
    match lookup_spec(values, key) {
        Some(s) => tenths_spec(s),
        None => None,
    }
}

/// What the setup payload's `url` field normalizes to.
pub open spec fn url_result(values: Seq<(String, String)>) -> Result<Seq<char>, ()> {
    match lookup_spec(values, "url"@) {
        Some(u) => normalize_trimmed(trim_spec(u)),
        None => Err(()),
    }
}

/// The token after setup: kept when the field is empty or whitespace,
/// replaced otherwise; `None` when the key is missing (an error).
pub open spec fn token_result(values: Seq<(String, String)>, old_token: Seq<char>) -> Option<
    Seq<char>,
> {
    match lookup_spec(values, "token"@) {
        Some(t) => Some(
            if trim_spec(t).len() == 0 {
                old_token
            } else {
                t
            },
        ),
        None => None,
    }
}

/// Whether the setup payload asks for the expert options screen.
pub open spec fn expert_flag(values: Seq<(String, String)>) -> bool {
    lookup_spec(values, "expert"@) matches Some(v) && v == "true"@
}

/// A numeric field applied only when it parses and lies within bounds.
pub open spec fn upd(cur: int, v: Option<int>, minv: int, maxv: int) -> int {
    match v {
        Some(x) => if minv <= x <= maxv {
            x
        } else {
            cur
        },
        None => cur,
    }
}

impl Controller {
    /// `setup_driver`: validate the URL and token, persist, and schedule
    /// either the expert-options screen or the end of the flow.
    pub fn handle_setup_driver(&mut self, ws_id: &str, setup_data: &Vec<(String, String)>) -> (out:
        (Result<(), ServiceError>, Vec<Action>))
        requires
            old(self).wf(),
        ensures
            final(self).wf(),
            final(self).sessions == old(self).sessions,
            final(self).device_state == old(self).device_state,
            final(self).ha_client == old(self).ha_client,
            final(self).ha_reconnect_duration_ms == old(self).ha_reconnect_duration_ms,
            final(self).ha_reconnect_attempt == old(self).ha_reconnect_attempt,
            (match sm_next(old(self).setup_state, OperationModeInput::SetupDriverRequest) {
                None => out.0 matches Err(e) && e matches ServiceError::BadRequest(_)
                    && *final(self) == *old(self) && out.1@ =~= Seq::<Action>::empty(),
                Some(s2) => final(self).setup_state == s2 && final(self).setup_timer
                    == timer_armed(s2) && (match url_result(setup_data@) {
                    Err(_) => out.0 matches Err(e) && e matches ServiceError::BadRequest(_)
                        && final(self).settings == old(self).settings
                        && out.1@ =~= timer_actions(old(self).setup_state, s2),
                    Ok(u) => (match token_result(setup_data@, old(self).settings.token@) {
                        None => out.0 matches Err(e) && e matches ServiceError::BadRequest(_)
                            && final(self).settings == old(self).settings
                            && out.1@ =~= timer_actions(old(self).setup_state, s2),
                        Some(tok) => out.0 is Ok && final(self).settings.url@ == u
                            && final(self).settings.token@ == tok
                            && final(self).settings.connection_timeout
                                == old(self).settings.connection_timeout
                            && final(self).settings.max_frame_size_kb
                                == old(self).settings.max_frame_size_kb
                            && final(self).settings.heartbeat == old(self).settings.heartbeat
                            && final(self).settings.reconnect == old(self).settings.reconnect
                            && out.1@.len() == timer_actions(old(self).setup_state, s2).len() + 2
                            && out.1@.take(timer_actions(old(self).setup_state, s2).len() as int)
                                =~= timer_actions(old(self).setup_state, s2)
                            && (out.1@[out.1@.len() - 2] matches Action::PersistSettings {
                                settings,
                            } && settings == final(self).settings)
                            && (if expert_flag(setup_data@) {
                                out.1@.last() matches Action::ScheduleExpertOptions {
                                    ws_id: w,
                                    delay_ms,
                                } && w@ == ws_id@ && delay_ms == 100
                            } else {
                                out.1@.last() matches Action::ScheduleFinishSetup {
                                    ws_id: w,
                                    error,
                                    delay_ms,
                                } && w@ == ws_id@ && error is None && delay_ms == 100
                            }),
                    }),
                }),
            }),
    {
        let mut acts: Vec<Action> = Vec::new();
        if self.sm_consume(&OperationModeInput::SetupDriverRequest, &mut acts).is_err() {
            return (
                Err(ServiceError::BadRequest(String::from_str(
                    "Cannot start driver setup. Please abort setup first.",
                ))),
                acts,
            );
        }
        let mut cfg = self.settings.duplicate();
        let url_in = lookup_value(setup_data, "url");
        let validated = match &url_in {
            Some(u) => validate_url(Some(u.as_str())),
            None => validate_url(None),
        };
        let url_ok = match validated {
            Ok(u) => u,
            Err(e) => {
                return (Err(e), acts);
            },
        };
        cfg.url = url_ok;
        match lookup_value(setup_data, "token") {
            None => {
                return (
                    Err(ServiceError::BadRequest(String::from_str("Missing field: token"))),
                    acts,
                );
            },
            Some(tok) => {
                let trimmed = trim_str(tok.as_str());
                if trimmed.as_str().unicode_len() == 0 {
                    // no token provided: keep the existing one
                } else {
                    cfg.token = tok;
                }
            },
        }
        acts.push(Action::PersistSettings { settings: cfg.duplicate() });
        self.settings = cfg;
        let expert = match lookup_value(setup_data, "expert") {
            Some(v) => crate::text::str_eq_str(v.as_str(), "true"),
            None => false,
        };
        if expert {
            acts.push(Action::ScheduleExpertOptions { ws_id: ws_id.to_owned(), delay_ms: 100 });
        } else {
            acts.push(Action::ScheduleFinishSetup {
                ws_id: ws_id.to_owned(),
                error: None,
                delay_ms: 100,
            });
        }
        (Ok(()), acts)
    }

    /// `set_driver_user_data`: apply each expert option that parses and
    /// meets its bound, persist, and schedule the end of the flow.
    pub fn handle_set_driver_user_data(&mut self, ws_id: &str, data: &R2RequestPayload) -> (out:
        (Result<(), ServiceError>, Vec<Action>))
        requires
            old(self).wf(),
        ensures
            final(self).wf(),
            final(self).sessions == old(self).sessions,
            final(self).device_state == old(self).device_state,
            final(self).ha_client == old(self).ha_client,
            final(self).ha_reconnect_duration_ms == old(self).ha_reconnect_duration_ms,
            final(self).ha_reconnect_attempt == old(self).ha_reconnect_attempt,
            (match sm_next(old(self).setup_state, OperationModeInput::SetupUserData) {
                None => out.0 matches Err(e) && e matches ServiceError::BadRequest(_)
                    && *final(self) == *old(self) && out.1@ =~= Seq::<Action>::empty(),
                Some(s2) => final(self).setup_state == s2 && final(self).setup_timer
                    == timer_armed(s2) && (match data {
                    R2RequestPayload::InputValues { values } => out.0 is Ok
                        && final(self).settings.url == old(self).settings.url
                        && final(self).settings.token == old(self).settings.token
                        && final(self).settings.connection_timeout as int == upd(
                            old(self).settings.connection_timeout as int,
                            num_field(values@, "connection_timeout"@),
                            3,
                            u32::MAX as int,
                        )
                        && final(self).settings.max_frame_size_kb as int == upd(
                            old(self).settings.max_frame_size_kb as int,
                            num_field(values@, "max_frame_size_kb"@),
                            1024,
                            u32::MAX as int,
                        )
                        && final(self).settings.heartbeat.interval as int == upd(
                            old(self).settings.heartbeat.interval as int,
                            num_field(values@, "heartbeat_interval"@),
                            3,
                            u64::MAX as int,
                        )
                        && final(self).settings.heartbeat.timeout as int == upd(
                            old(self).settings.heartbeat.timeout as int,
                            num_field(values@, "heartbeat_timeout"@),
                            6,
                            u64::MAX as int,
                        )
                        && final(self).settings.reconnect.attempts as int == upd(
                            old(self).settings.reconnect.attempts as int,
                            num_field(values@, "reconnect.attempts"@),
                            0,
                            u16::MAX as int,
                        )
                        && final(self).settings.reconnect.duration_ms as int == upd(
                            old(self).settings.reconnect.duration_ms as int,
                            num_field(values@, "reconnect.duration_ms"@),
                            0,
                            u64::MAX as int,
                        )
                        && final(self).settings.reconnect.duration_max_ms as int == upd(
                            old(self).settings.reconnect.duration_max_ms as int,
                            num_field(values@, "reconnect.duration_max_ms"@),
                            0,
                            u64::MAX as int,
                        )
                        && final(self).settings.reconnect.backoff_factor_tenths as int == upd(
                            old(self).settings.reconnect.backoff_factor_tenths as int,
                            tenths_field(values@, "reconnect.backoff_factor"@),
                            10,
                            u64::MAX as int,
                        )
                        && out.1@.len() == timer_actions(old(self).setup_state, s2).len() + 2
                        && out.1@.take(timer_actions(old(self).setup_state, s2).len() as int)
                            =~= timer_actions(old(self).setup_state, s2)
                        && (out.1@[out.1@.len() - 2] matches Action::PersistSettings { settings }
                            && settings == final(self).settings)
                        && (out.1@.last() matches Action::ScheduleFinishSetup {
                            ws_id: w,
                            error,
                            delay_ms,
                        } && w@ == ws_id@ && error is None && delay_ms == 100),
                    _ => out.0 matches Err(e) && e matches ServiceError::BadRequest(_)
                        && final(self).settings == old(self).settings
                        && out.1@ =~= timer_actions(old(self).setup_state, s2),
                }),
            }),
    {
        let mut acts: Vec<Action> = Vec::new();
        if self.sm_consume(&OperationModeInput::SetupUserData, &mut acts).is_err() {
            return (
                Err(ServiceError::BadRequest(String::from_str(
                    "Not waiting for driver user data. Please restart setup.",
                ))),
                acts,
            );
        }
        let values = match data {
            R2RequestPayload::InputValues { values } => values,
            _ => {
                return (
                    Err(ServiceError::BadRequest(String::from_str(
                        "Invalid response: require input_values",
                    ))),
                    acts,
                );
            },
        };
        let mut cfg = self.settings.duplicate();
        if let Some(v) = parse_value(values, "connection_timeout") {
            if v >= 3 && v <= u32::MAX as u64 {
                cfg.connection_timeout = v as u32;
            }
        }
        if let Some(v) = parse_value(values, "max_frame_size_kb") {
            if v >= 1024 && v <= u32::MAX as u64 {
                cfg.max_frame_size_kb = v as u32;
            }
        }
        if let Some(v) = parse_value(values, "heartbeat_interval") {
            if v >= 3 {
                cfg.heartbeat.interval = v;
            }
        }
        if let Some(v) = parse_value(values, "heartbeat_timeout") {
            if v >= 6 {
                cfg.heartbeat.timeout = v;
            }
        }
        if let Some(v) = parse_value(values, "reconnect.attempts") {
            if v <= u16::MAX as u64 {
                cfg.reconnect.attempts = v as u16;
            }
        }
        if let Some(v) = parse_value(values, "reconnect.duration_ms") {
            cfg.reconnect.duration_ms = v;
        }
        if let Some(v) = parse_value(values, "reconnect.duration_max_ms") {
            cfg.reconnect.duration_max_ms = v;
        }
        let factor_in = lookup_value(values, "reconnect.backoff_factor");
        if let Some(fv) = &factor_in {
            if let Some(t) = parse_tenths(fv.as_str()) {
                if t >= 10 {
                    cfg.reconnect.backoff_factor_tenths = t;
                }
            }
        }
        acts.push(Action::PersistSettings { settings: cfg.duplicate() });
        self.settings = cfg;
        acts.push(Action::ScheduleFinishSetup {
            ws_id: ws_id.to_owned(),
            error: None,
            delay_ms: 100,
        });
        (Ok(()), acts)
    }
}

/// One numeric field of the expert form matches id, value and bounds.
pub open spec fn field_ok(
    f: NumberField,
    id: Seq<char>,
    value: int,
    minv: int,
    maxv: int,
    dec: int,
) -> bool {
    f.id@ == id && f.value == value && f.min == minv && f.max == maxv && f.decimals == dec
}

/// The expert-options form mirrors the current settings, with the bounds
/// of the configuration dialog.
pub open spec fn expert_form_ok(s: HomeAssistantSettings, page: SettingsPage) -> bool {
    &&& page.title@ == "Expert configuration"@
    &&& page.fields@.len() == 8
    &&& field_ok(
        page.fields@[0],
        "connection_timeout"@,
        s.connection_timeout as int,
        3,
        30,
        0,
    )
    &&& field_ok(
        page.fields@[1],
        "max_frame_size_kb"@,
        s.max_frame_size_kb as int,
        1024,
        16384,
        0,
    )
    &&& field_ok(
        page.fields@[2],
        "reconnect.attempts"@,
        s.reconnect.attempts as int,
        1,
        65536,
        0,
    )
    &&& field_ok(
        page.fields@[3],
        "reconnect.duration_ms"@,
        s.reconnect.duration_ms as int,
        100,
        600000,
        0,
    )
    &&& field_ok(
        page.fields@[4],
        "reconnect.duration_max_ms"@,
        s.reconnect.duration_max_ms as int,
        1000,
        600000,
        0,
    )
    &&& field_ok(
        page.fields@[5],
        "reconnect.backoff_factor"@,
        s.reconnect.backoff_factor_tenths as int,
        10,
        100,
        1,
    )
    &&& field_ok(
        page.fields@[6],
        "heartbeat_interval"@,
        s.heartbeat.interval as int,
        3,
        60,
        0,
    )
    &&& field_ok(
        page.fields@[7],
        "heartbeat_timeout"@,
        s.heartbeat.timeout as int,
        6,
        300,
        0,
    )
}

impl Controller {
    /// Ask the remote for the expert options: emit a `driver_setup_change`
    /// event of type `Setup` carrying the input form.
    pub fn handle_request_expert_options(&mut self, ws_id: &str) -> (acts: Vec<Action>)
        requires
            old(self).wf(),
        ensures
            final(self).wf(),
            (match sm_next(old(self).setup_state, OperationModeInput::RequestUserInput) {
                None => *final(self) == *old(self) && acts@ =~= Seq::<Action>::empty(),
                Some(s2) => *final(self) == (Controller {
                    setup_state: s2,
                    setup_timer: timer_armed(s2),
                    ..*old(self)
                }) && {
                    let tacts = timer_actions(old(self).setup_state, s2);
                    if exists|i: int|
                        0 <= i < old(self).sessions.items@.len()
                            && old(self).sessions.items@[i].ws_id@ == ws_id@
                            && !old(self).sessions.items@[i].standby {
                        acts@.len() == tacts.len() + 1 && acts@.take(tacts.len() as int) =~= tacts
                            && (acts@.last() matches Action::SendR2 { ws_id: w, frame }
                            && w@ == ws_id@ && (frame matches R2Frame::EventFrame {
                            cat: EventCategory::Device,
                            data: R2MessagePayload::SetupChangeData {
                                event_type: SetupChangeEventType::Setup,
                                state: IntegrationSetupState::WaitUserAction,
                                error: None,
                                require_user_action: Some(page),
                            },
                        } && expert_form_ok(old(self).settings, page)))
                    } else {
                        acts@ =~= tacts
                    }
                },
            }),
    {
        let mut acts: Vec<Action> = Vec::new();
        if self.sm_consume(&OperationModeInput::RequestUserInput, &mut acts).is_err() {
            return acts;
        }
        let mut fields: Vec<NumberField> = Vec::new();
        fields.push(NumberField {
            id: String::from_str("connection_timeout"),
            value: self.settings.connection_timeout as u64,
            min: 3,
            max: 30,
            decimals: 0,
        });
        fields.push(NumberField {
            id: String::from_str("max_frame_size_kb"),
            value: self.settings.max_frame_size_kb as u64,
            min: 1024,
            max: 16384,
            decimals: 0,
        });
        fields.push(NumberField {
            id: String::from_str("reconnect.attempts"),
            value: self.settings.reconnect.attempts as u64,
            min: 1,
            max: 65536,
            decimals: 0,
        });
        fields.push(NumberField {
            id: String::from_str("reconnect.duration_ms"),
            value: self.settings.reconnect.duration_ms,
            min: 100,
            max: 600000,
            decimals: 0,
        });
        fields.push(NumberField {
            id: String::from_str("reconnect.duration_max_ms"),
            value: self.settings.reconnect.duration_max_ms,
            min: 1000,
            max: 600000,
            decimals: 0,
        });
        fields.push(NumberField {
            id: String::from_str("reconnect.backoff_factor"),
            value: self.settings.reconnect.backoff_factor_tenths,
            min: 10,
            max: 100,
            decimals: 1,
        });
        fields.push(NumberField {
            id: String::from_str("heartbeat_interval"),
            value: self.settings.heartbeat.interval,
            min: 3,
            max: 60,
            decimals: 0,
        });
        fields.push(NumberField {
            id: String::from_str("heartbeat_timeout"),
            value: self.settings.heartbeat.timeout,
            min: 6,
            max: 300,
            decimals: 0,
        });
        let page = SettingsPage { title: String::from_str("Expert configuration"), fields };
        let event = R2Frame::EventFrame {
            cat: EventCategory::Device,
            data: R2MessagePayload::SetupChangeData {
                event_type: SetupChangeEventType::Setup,
                state: IntegrationSetupState::WaitUserAction,
                error: None,
                require_user_action: Some(page),
            },
        };
        if let Some(a) = self.send_r2_msg(event, ws_id) {
            acts.push(a);
        }
        acts
    }

    /// Finish the setup flow: emit a `driver_setup_change` event of type
    /// `Stop` with state `Ok` or `Error`.
    pub fn handle_finish_setup_flow(&mut self, ws_id: &str, error: Option<IntegrationSetupError>)
        -> (acts: Vec<Action>)
        requires
            old(self).wf(),
        ensures
            final(self).wf(),
            (match sm_next(
                old(self).setup_state,
                if error is None {
                    OperationModeInput::Successful
                } else {
                    OperationModeInput::SetupError
                },
            ) {
                None => *final(self) == *old(self) && acts@ =~= Seq::<Action>::empty(),
                Some(s2) => *final(self) == (Controller {
                    setup_state: s2,
                    setup_timer: timer_armed(s2),
                    ..*old(self)
                }) && {
                    let tacts = timer_actions(old(self).setup_state, s2);
                    if exists|i: int|
                        0 <= i < old(self).sessions.items@.len()
                            && old(self).sessions.items@[i].ws_id@ == ws_id@
                            && !old(self).sessions.items@[i].standby {
                        acts@.len() == tacts.len() + 1 && acts@.take(tacts.len() as int) =~= tacts
                            && (acts@.last() matches Action::SendR2 { ws_id: w, frame }
                            && w@ == ws_id@ && frame == stop_frame(error))
                    } else {
                        acts@ =~= tacts
                    }
                },
            }),
    {
        let input = if error.is_none() {
            OperationModeInput::Successful
        } else {
            OperationModeInput::SetupError
        };
        let mut acts: Vec<Action> = Vec::new();
        if self.sm_consume(&input, &mut acts).is_err() {
            return acts;
        }
        let event = R2Frame::EventFrame {
            cat: EventCategory::Device,
            data: R2MessagePayload::SetupChangeData {
                event_type: SetupChangeEventType::Stop,
                state: if error.is_none() {
                    IntegrationSetupState::SetupOk
                } else {
                    IntegrationSetupState::SetupError
                },
                error,
                require_user_action: None,
            },
        };
        if let Some(a) = self.send_r2_msg(event, ws_id) {
            acts.push(a);
        }
        acts
    }

    /// Abort the setup flow: on a timeout consume `SetupError` and finish
    /// with a timeout error; on a remote abort consume `AbortSetup`.  The
    /// setup timer is cancelled either way.
    pub fn handle_abort_driver_setup(&mut self, ws_id: &str, timeout: bool) -> (acts: Vec<Action>)
        requires
            old(self).wf(),
        ensures
            final(self).wf(),
            (match sm_next(
                old(self).setup_state,
                if timeout {
                    OperationModeInput::SetupError
                } else {
                    OperationModeInput::AbortSetup
                },
            ) {
                None => *final(self) == *old(self) && acts@ =~= Seq::<Action>::empty(),
                Some(s2) => *final(self) == (Controller {
                    setup_state: s2,
                    setup_timer: timer_armed(s2),
                    ..*old(self)
                }) && {
                    let tacts = timer_actions(old(self).setup_state, s2);
                    if timeout {
                        acts@.len() == tacts.len() + 1 && acts@.take(tacts.len() as int) =~= tacts
                            && (acts@.last() matches Action::ScheduleFinishSetup {
                            ws_id: w,
                            error,
                            delay_ms,
                        } && w@ == ws_id@ && error == Some(IntegrationSetupError::Timeout)
                            && delay_ms == 0)
                    } else {
                        acts@ =~= tacts
                    }
                },
            }),
    {
        let mut acts: Vec<Action> = Vec::new();
        if timeout {
            if self.sm_consume(&OperationModeInput::SetupError, &mut acts).is_err() {
                return acts;
            }
            acts.push(Action::ScheduleFinishSetup {
                ws_id: ws_id.to_owned(),
                error: Some(IntegrationSetupError::Timeout),
                delay_ms: 0,
            });
        } else {
            if self.sm_consume(&OperationModeInput::AbortSetup, &mut acts).is_err() {
                return acts;
            }
        }
        acts
    }
}

/// The final `driver_setup_change` event of a setup flow.
pub open spec fn stop_frame(error: Option<IntegrationSetupError>) -> R2Frame {
    R2Frame::EventFrame {
        cat: EventCategory::Device,
        data: R2MessagePayload::SetupChangeData {
            event_type: SetupChangeEventType::Stop,
            state: if error is None {
                IntegrationSetupState::SetupOk
            } else {
                IntegrationSetupState::SetupError
            },
            error: error,
            require_user_action: None,
        },
    }
}

/// Parse a one-decimal number into tenths (`2.5` gives 25).
pub fn parse_tenths(s: &str) -> (r: Option<u64>)
    ensures
        (match r {
            Some(v) => tenths_spec(s@) == Some(v as int),
            None => tenths_spec(s@) is None,
        }),
{
    let n = s.unicode_len();
    let k = crate::text::find_char_pos(s, '.');
    if k == n {
        match parse_u64_digits(s) {
            Some(v) => {
                if v <= u64::MAX / 10 {
                    Some(v * 10)
                } else {
                    None
                }
            },
            None => None,
        }
    } else {
        let ip = s.substring_char(0, k);
        let fp = s.substring_char(k + 1, n);
        proof {
            assert(ip@ =~= s@.take(k as int));
            assert(fp@ =~= s@.skip(k as int + 1));
        }
        if fp.unicode_len() != 1 {
            return None;
        }
        let d = match crate::text::digit_char_value(fp.get_char(0)) {
            Some(d) => d,
            None => {
                return None;
            },
        };
        match parse_u64_digits(ip) {
            Some(v) => {
                if v <= (u64::MAX - d as u64) / 10 {
                    Some(v * 10 + d as u64)
                } else {
                    proof {
                        assert(10 * (v as int) + d > u64::MAX) by (nonlinear_arith)
                            requires
                                v as int > (u64::MAX - d as u64) as int / 10,
                                0 <= d <= 9,
                        ;
                    }
                    None
                }
            },
            None => None,
        }
    }
}

} // verus!
