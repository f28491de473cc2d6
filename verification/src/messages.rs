//! The message and event model of the bridge.
//!
//! Values of these types cross the boundary between the verified core and
//! the I/O shell: the shell decodes R2 and HA JSON frames into them and
//! encodes them back, and it performs the `Action`s that handlers return.

use vstd::prelude::*;

verus! {

/// The upstream connection state surfaced to R2.
#[derive(Clone, Copy, Debug, PartialEq, Eq, Structural)]
pub enum DeviceState {
    Disconnected,
    Connecting,
    Connected,
    Error,
}

/// Event category of an R2 event frame.
#[derive(Clone, Copy, Debug, PartialEq, Eq, Structural)]
pub enum EventCategory {
    Device,
    Entity,
}

/// Requests a remote sends to the integration driver.
#[derive(Clone, Copy, Debug, PartialEq, Eq, Structural)]
pub enum R2Request {
    GetDriverVersion,
    GetDeviceState,
    SetupDevice,
    SetDriverUserData,
    AbortDriverSetup,
    GetAvailableEntities,
    GetEntityStates,
    SubscribeEvents,
    UnsubscribeEvents,
    EntityCommand,
}

/// Events a remote sends to the integration driver.
#[derive(Clone, Copy, Debug, PartialEq, Eq, Structural)]
pub enum R2Event {
    Connect,
    Disconnect,
    EnterStandby,
    ExitStandby,
}

/// Connection lifecycle notifications from the HA client.
#[derive(Clone, Copy, Debug, PartialEq, Eq, Structural)]
pub enum ConnectionState {
    AuthenticationFailed,
    Connected,
    Closed,
}

/// An entity command from a remote, ready for translation to an HA service
/// call.  `params` carries the already-serialized parameter object, which
/// the bridge forwards without looking inside.
#[derive(Clone, Debug)]
pub struct EntityCommand {
    pub device_id: Option<String>,
    pub entity_type: String,
    pub entity_id: String,
    pub cmd_id: String,
    pub params: Option<String>,
}

/// A service call handed to the HA client.
#[derive(Clone, Debug)]
pub struct CallService {
    pub command: EntityCommand,
}

/// One entity as reported by HA, already filtered to a supported type.
/// `attributes` is the serialized attribute object, opaque to the bridge.
#[derive(Clone, Debug)]
pub struct AvailableEntity {
    pub device_id: Option<String>,
    pub entity_type: String,
    pub entity_id: String,
    pub name: String,
    pub attributes: Option<String>,
}

/// An entity state change fanned out to subscribed remotes.
#[derive(Clone, Debug)]
pub struct EntityChange {
    pub device_id: Option<String>,
    pub entity_type: String,
    pub entity_id: String,
    pub attributes: Option<String>,
}

/// What an entity change carries of an available entity.
pub open spec fn entity_change_of(e: AvailableEntity) -> EntityChange {
    EntityChange {
        device_id: e.device_id,
        entity_type: e.entity_type,
        entity_id: e.entity_id,
        attributes: e.attributes,
    }
}

fn clone_opt_string(o: &Option<String>) -> (r: Option<String>)
    ensures
        r == *o,
{
    match o {
        Some(s) => Some(s.clone()),
        None => None,
    }
}

impl AvailableEntity {
    /// A field-by-field copy with a contract.
    pub fn duplicate(&self) -> (r: AvailableEntity)
        ensures
            r == *self,
    {
        AvailableEntity {
            device_id: clone_opt_string(&self.device_id),
            entity_type: self.entity_type.clone(),
            entity_id: self.entity_id.clone(),
            name: self.name.clone(),
            attributes: clone_opt_string(&self.attributes),
        }
    }

    /// The entity-state projection answered to `get_entity_states`.
    pub fn to_entity_change(&self) -> (r: EntityChange)
        ensures
            r == entity_change_of(*self),
    {
        EntityChange {
            device_id: clone_opt_string(&self.device_id),
            entity_type: self.entity_type.clone(),
            entity_id: self.entity_id.clone(),
            attributes: clone_opt_string(&self.attributes),
        }
    }
}

impl EntityChange {
    /// A field-by-field copy with a contract.
    pub fn duplicate(&self) -> (r: EntityChange)
        ensures
            r == *self,
    {
        EntityChange {
            device_id: clone_opt_string(&self.device_id),
            entity_type: self.entity_type.clone(),
            entity_id: self.entity_id.clone(),
            attributes: clone_opt_string(&self.attributes),
        }
    }
}

/// Copy a list of available entities, keeping every field.
pub fn duplicate_entities(v: &Vec<AvailableEntity>) -> (r: Vec<AvailableEntity>)
    ensures
        r@ =~= v@,
{
    let n = v.len();
    let mut out: Vec<AvailableEntity> = Vec::new();
    let mut i: usize = 0;
    while i < n
        invariant
            i <= n,
            n == v@.len(),
            out@ =~= v@.take(i as int),
        decreases n - i,
    {
        out.push(v[i].duplicate());
        proof {
            assert(out@ =~= v@.take(i as int + 1));
        }
        i = i + 1;
    }
    out
}

/// Project a list of available entities to entity changes.
pub fn project_entity_states(v: &Vec<AvailableEntity>) -> (r: Vec<EntityChange>)
    ensures
        r@ =~= v@.map_values(|e: AvailableEntity| entity_change_of(e)),
{
    let n = v.len();
    let mut out: Vec<EntityChange> = Vec::new();
    let mut i: usize = 0;
    while i < n
        invariant
            i <= n,
            n == v@.len(),
            out@ =~= v@.take(i as int).map_values(|e: AvailableEntity| entity_change_of(e)),
        decreases n - i,
    {
        out.push(v[i].to_entity_change());
        proof {
            assert(out@ =~= v@.take(i as int + 1).map_values(
                |e: AvailableEntity| entity_change_of(e),
            ));
        }
        i = i + 1;
    }
    out
}

/// Keep only the entities whose type occurs in `allowed`: the configured
/// entity-type filter applied to what HA reports, so that unsupported
/// entity types are dropped before they reach a remote.
pub fn filter_entities_by_type(
    entities: &Vec<AvailableEntity>,
    allowed: &Vec<String>,
) -> (r: Vec<AvailableEntity>)
    ensures
        r@ =~= entities@.filter(
            |e: AvailableEntity|
                crate::session::entity_set(allowed@).contains(e.entity_type@),
        ),
{
    let ghost pred = |e: AvailableEntity|
        crate::session::entity_set(allowed@).contains(e.entity_type@);
    let n = entities.len();
    let mut out: Vec<AvailableEntity> = Vec::new();
    let mut i: usize = 0;
    proof {
        reveal(Seq::filter);
        assert(entities@.take(0) =~= Seq::<AvailableEntity>::empty());
    }
    while i < n
        invariant
            i <= n,
            n == entities@.len(),
            pred == (|e: AvailableEntity|
                crate::session::entity_set(allowed@).contains(e.entity_type@)),
            out@ =~= entities@.take(i as int).filter(pred),
        decreases n - i,
    {
        proof {
            crate::session::lemma_filter_take_step(entities@, pred, i as int);
        }
        if crate::session::contains_str(allowed, entities[i].entity_type.as_str()) {
            out.push(entities[i].duplicate());
        }
        i = i + 1;
    }
    proof {
        assert(entities@.take(n as int) =~= entities@);
    }
    out
}

/// The driver/API version pair answered to `get_driver_version`.
#[derive(Clone, Debug)]
pub struct IntegrationVersion {
    pub api: String,
    pub integration: String,
}

/// Code/message payload of result and error envelopes.
#[derive(Clone, Debug)]
pub struct WsResultData {
    pub code: String,
    pub message: String,
}

/// Event type of a `driver_setup_change` event.
#[derive(Clone, Copy, Debug, PartialEq, Eq, Structural)]
pub enum SetupChangeEventType {
    Setup,
    Stop,
}

/// State reported in a `driver_setup_change` event.
#[derive(Clone, Copy, Debug, PartialEq, Eq, Structural)]
pub enum IntegrationSetupState {
    SetupState,
    WaitUserAction,
    SetupOk,
    SetupError,
}

/// Error reported in a final `driver_setup_change` event.
#[derive(Clone, Copy, Debug, PartialEq, Eq, Structural)]
pub enum IntegrationSetupError {
    Timeout,
    AuthorizationError,
    ConnectionRefused,
    OtherError,
}

/// A numeric input field of the expert-options settings page.  `value`,
/// `min` and `max` are scaled by `10^decimals`, so a backoff factor of 2.0
/// is carried as `value = 20`, `decimals = 1`.
#[derive(Clone, Debug)]
pub struct NumberField {
    pub id: String,
    pub value: u64,
    pub min: u64,
    pub max: u64,
    pub decimals: u32,
}

/// The input form of the expert-options dialog.
#[derive(Clone, Debug)]
pub struct SettingsPage {
    pub title: String,
    pub fields: Vec<NumberField>,
}

/// Payload of an outbound R2 frame.  The wire-level `msg` name is implied
/// by the variant (`device_state`, `driver_version`, `entity_change`,
/// `available_entities`, `entity_states`, `result`, `driver_setup_change`).
#[derive(Clone, Debug)]
pub enum R2MessagePayload {
    DeviceStateData { state: DeviceState },
    VersionData { version: IntegrationVersion },
    EntityChangeData { change: EntityChange },
    AvailableEntitiesData { entities: Vec<AvailableEntity> },
    EntityStatesData { states: Vec<EntityChange> },
    ResultData { data: WsResultData },
    SetupChangeData {
        event_type: SetupChangeEventType,
        state: IntegrationSetupState,
        error: Option<IntegrationSetupError>,
        require_user_action: Option<SettingsPage>,
    },
}

/// An outbound WebSocket frame to one R2 session.
#[derive(Clone, Debug)]
pub enum R2Frame {
    EventFrame { cat: EventCategory, data: R2MessagePayload },
    ResponseFrame { req_id: u32, data: R2MessagePayload },
    ErrorFrame { req_id: u32, code: u16, data: WsResultData },
}

/// Payload attached to an R2 request, already decoded by the shell.
/// `Malformed` stands for JSON that did not decode to the expected shape.
#[derive(Clone, Debug)]
pub enum R2RequestPayload {
    SetupData { values: Vec<(String, String)> },
    InputValues { values: Vec<(String, String)> },
    ConfirmationChoice { confirm: bool },
    EntityIds { entity_ids: Vec<String> },
    Command { command: EntityCommand },
    Malformed,
}

/// What a handler asks the shell to do.  The shell performs these in order.
#[derive(Clone, Debug)]
pub enum Action {
    /// Enqueue a frame on the session's outbound sink.
    SendR2 { ws_id: String, frame: R2Frame },
    /// Ask the HA client for all entity states.
    HaGetStates,
    /// Ask the HA client to perform a service call.
    HaCallService { command: EntityCommand },
    /// Ask the HA client for a graceful close.
    HaClose,
    /// Start a connection attempt at once.
    ConnectNow,
    /// Schedule a connection attempt.
    ConnectLater { delay_ms: u64 },
    /// Deliver a request-expert-options self-notification after the delay.
    ScheduleExpertOptions { ws_id: String, delay_ms: u64 },
    /// Deliver a finish-setup-flow self-notification after the delay.
    ScheduleFinishSetup {
        ws_id: String,
        error: Option<IntegrationSetupError>,
        delay_ms: u64,
    },
    /// Arm the single setup timeout timer.
    StartSetupTimer,
    /// Cancel the setup timeout timer.
    CancelSetupTimer,
    /// Write the settings to the configuration store.
    PersistSettings { settings: crate::settings::HomeAssistantSettings },
}

} // verus!
