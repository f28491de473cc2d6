//! The controller: the top-level coordinator of the bridge.
//!
//! Every handler is a pure state transition: it mutates the controller and
//! returns the list of `Action`s the I/O shell must perform, in order.  The
//! shell owns the sockets and timers; connection attempts, their outcomes
//! and upstream events are fed back in through the handlers below.

use vstd::prelude::*;

use crate::messages::{
    Action, ConnectionState, DeviceState, EntityChange, EventCategory, R2Event, R2Frame,
    R2MessagePayload,
};
use crate::session::{
    distinct_ids, has_id, lemma_update_keeps_distinct, R2Session, SessionRegistry,
};
use crate::settings::{next_backoff, HomeAssistantSettings};
use crate::setup_flow::OperationModeState;

verus! {

/// The `device_state` event frame broadcast to remotes.
pub open spec fn device_frame(st: DeviceState) -> R2Frame {
    R2Frame::EventFrame {
        cat: EventCategory::Device,
        data: R2MessagePayload::DeviceStateData { state: st },
    }
}

/// The `entity_change` event frame.
pub open spec fn entity_frame(change: EntityChange) -> R2Frame {
    R2Frame::EventFrame {
        cat: EventCategory::Entity,
        data: R2MessagePayload::EntityChangeData { change: change },
    }
}

/// Whether an action sends a frame to the session with this id.
pub open spec fn is_send_to(a: Action, id: Seq<char>) -> bool {
    a matches Action::SendR2 { ws_id, frame } && ws_id@ == id
}

/// How many actions of the list send to this session.
pub open spec fn count_sends_to(acts: Seq<Action>, id: Seq<char>) -> nat
    decreases acts.len(),
{
    if acts.len() == 0 {
        0
    } else {
        count_sends_to(acts.drop_last(), id) + if is_send_to(acts.last(), id) {
            1nat
        } else {
            0nat
        }
    }
}

/// No connection attempt is started or scheduled by these actions.
pub open spec fn no_connect_scheduled(acts: Seq<Action>) -> bool {
    forall|i: int|
        0 <= i < acts.len() ==> !(#[trigger] acts[i] is ConnectNow) && !(acts[i] is ConnectLater)
}

/// One send of `frame` to every session not in standby, in registry order.
pub open spec fn broadcast_frames(s: Seq<R2Session>, frame: R2Frame) -> Seq<Action>
    decreases s.len(),
{
    if s.len() == 0 {
        Seq::empty()
    } else {
        broadcast_frames(s.drop_last(), frame) + if s.last().standby {
            Seq::empty()
        } else {
            seq![(Action::SendR2 { ws_id: s.last().ws_id, frame: frame })]
        }
    }
}

/// The top-level coordinator state.
pub struct Controller {
    /// Active R2 sessions.
    pub sessions: SessionRegistry,
    /// Home Assistant connection state as surfaced to R2.
    pub device_state: DeviceState,
    pub settings: HomeAssistantSettings,
    /// Whether an HA client handle is currently held by the shell.
    pub ha_client: bool,
    /// Delay before the next reconnect attempt.
    pub ha_reconnect_duration_ms: u64,
    /// Consecutive failed connection attempts.
    pub ha_reconnect_attempt: u32,
    /// Driver-setup state machine.
    pub setup_state: OperationModeState,
    /// Whether the setup timeout timer is armed (the handle lives in the
    /// shell).
    pub setup_timer: bool,
}

impl Controller {
    pub open spec fn wf(self) -> bool {
        self.sessions.wf()
    }

    pub fn new(settings: HomeAssistantSettings) -> (c: Controller)
        ensures
            c.wf(),
            c.sessions.items@ =~= Seq::<R2Session>::empty(),
            c.device_state == DeviceState::Disconnected,
            c.settings == settings,
            !c.ha_client,
            c.ha_reconnect_duration_ms == settings.reconnect.duration_ms,
            c.ha_reconnect_attempt == 0,
            c.setup_state == OperationModeState::Idle,
            !c.setup_timer,
    {
        let dur = settings.reconnect.duration_ms;
        Controller {
            sessions: SessionRegistry::new(),
            device_state: DeviceState::Disconnected,
            settings,
            ha_client: false,
            ha_reconnect_duration_ms: dur,
            ha_reconnect_attempt: 0,
            setup_state: OperationModeState::Idle,
            setup_timer: false,
        }
    }

    /// Send a frame to one remote: dropped without a trace when the session
    /// is unknown, suppressed when the remote is in standby.
    pub fn send_r2_msg(&self, frame: R2Frame, ws_id: &str) -> (a: Option<Action>)
        requires
            self.wf(),
        ensures
            (a is Some) == (exists|i: int|
                0 <= i < self.sessions.items@.len()
                    && self.sessions.items@[i].ws_id@ == ws_id@
                    && !self.sessions.items@[i].standby),
            (match a {
                Some(act) => act matches Action::SendR2 { ws_id: w, frame: f } && w@ == ws_id@
                    && f == frame,
                None => true,
            }),
    {
        match self.sessions.find(ws_id) {
            Some(i) => {
                if self.sessions.items[i].standby {
                    proof {
                        let items = self.sessions.items@;
                        assert forall|j: int|
                            0 <= j < items.len() && items[j].ws_id@ == ws_id@
                            implies items[j].standby by {
                            if j < i as int {
                                assert(items[j].ws_id@ != items[i as int].ws_id@);
                            } else if j > i as int {
                                assert(items[i as int].ws_id@ != items[j].ws_id@);
                            }
                        }
                    }
                    None
                } else {
                    Some(Action::SendR2 { ws_id: self.sessions.items[i].ws_id.clone(), frame })
                }
            },
            None => None,
        }
    }

    /// The current `device_state` as an event for one session.
    pub fn send_device_state(&self, ws_id: &str) -> (a: Option<Action>)
        requires
            self.wf(),
        ensures
            (a is Some) == (exists|i: int|
                0 <= i < self.sessions.items@.len()
                    && self.sessions.items@[i].ws_id@ == ws_id@
                    && !self.sessions.items@[i].standby),
            (match a {
                Some(act) => act matches Action::SendR2 { ws_id: w, frame: f } && w@ == ws_id@
                    && f == device_frame(self.device_state),
                None => true,
            }),
    {
        self.send_r2_msg(
            R2Frame::EventFrame {
                cat: EventCategory::Device,
                data: R2MessagePayload::DeviceStateData { state: self.device_state },
            },
            ws_id,
        )
    }

    /// One `device_state` event to every session not in standby.
    pub fn broadcast_device_state(&self) -> (acts: Vec<Action>)
        ensures
            acts@ =~= broadcast_frames(self.sessions.items@, device_frame(self.device_state)),
    {
        let st = self.device_state;
        let n = self.sessions.items.len();
        let mut acts: Vec<Action> = Vec::new();
        let mut i: usize = 0;
        while i < n
            invariant
                i <= n,
                n == self.sessions.items@.len(),
                st == self.device_state,
                acts@ =~= broadcast_frames(self.sessions.items@.take(i as int), device_frame(st)),
            decreases n - i,
        {
            proof {
                assert(self.sessions.items@.take(i as int + 1).drop_last()
                    =~= self.sessions.items@.take(i as int));
            }
            if !self.sessions.items[i].standby {
                acts.push(Action::SendR2 {
                    ws_id: self.sessions.items[i].ws_id.clone(),
                    frame: R2Frame::EventFrame {
                        cat: EventCategory::Device,
                        data: R2MessagePayload::DeviceStateData { state: st },
                    },
                });
            }
            i = i + 1;
        }
        proof {
            assert(self.sessions.items@.take(n as int) =~= self.sessions.items@);
        }
        acts
    }

    /// Change the device state and broadcast it.
    pub fn set_device_state(&mut self, state: DeviceState) -> (acts: Vec<Action>)
        ensures
            *final(self) == (Controller { device_state: state, ..*old(self) }),
            acts@ =~= broadcast_frames(old(self).sessions.items@, device_frame(state)),
    {
        self.device_state = state;
        self.broadcast_device_state()
    }

    /// Scale the reconnect delay by the backoff factor, capped at the
    /// configured maximum.
    pub fn increment_reconnect_timeout(&mut self)
        ensures
            *final(self) == (Controller {
                ha_reconnect_duration_ms: final(self).ha_reconnect_duration_ms,
                ..*old(self)
            }),
            final(self).ha_reconnect_duration_ms as int == next_backoff(
                old(self).ha_reconnect_duration_ms as int,
                old(self).settings.reconnect.backoff_factor_tenths as int,
                old(self).settings.reconnect.duration_max_ms as int,
            ),
    {
        self.ha_reconnect_duration_ms = crate::settings::compute_next_backoff(
            self.ha_reconnect_duration_ms,
            self.settings.reconnect.backoff_factor_tenths,
            self.settings.reconnect.duration_max_ms,
        );
    }
}

/// A just-created session record for this id.
pub open spec fn fresh_session_ok(s: R2Session, id: Seq<char>) -> bool {
    &&& s.ws_id@ == id
    &&& !s.standby
    &&& s.subscribed_entities@.len() == 0
    &&& !s.ha_connect
    &&& s.get_available_entities_id is None
    &&& s.get_entity_states_id is None
}

/// The attempt counter with a saturating increment.
pub open spec fn sat_inc(a: int) -> int {
    if a < u32::MAX {
        a + 1
    } else {
        a
    }
}

/// Broadcasts consist of sends only: they never start a connection.
pub proof fn lemma_broadcast_only_sends(s: Seq<R2Session>, frame: R2Frame)
    ensures
        no_connect_scheduled(broadcast_frames(s, frame)),
    decreases s.len(),
{
    if s.len() > 0 {
        lemma_broadcast_only_sends(s.drop_last(), frame);
    }
}

impl Controller {
    /// A remote opened a session: register it and send the current
    /// `device_state`.
    pub fn handle_new_r2_session(&mut self, ws_id: String) -> (acts: Vec<Action>)
        requires
            old(self).wf(),
        ensures
            final(self).wf(),
            *final(self) == (Controller { sessions: final(self).sessions, ..*old(self) }),
            has_id(final(self).sessions.items@, ws_id@),
            (exists|sess: R2Session|
                #[trigger] fresh_session_ok(sess, ws_id@) && (if has_id(
                    old(self).sessions.items@,
                    ws_id@,
                ) {
                    exists|i: int|
                        0 <= i < old(self).sessions.items@.len()
                            && old(self).sessions.items@[i].ws_id@ == ws_id@
                            && final(self).sessions.items@ =~= old(self).sessions.items@.update(
                            i,
                            sess,
                        )
                } else {
                    final(self).sessions.items@ =~= old(self).sessions.items@.push(sess)
                })),
            acts@.len() == 1,
            (acts@[0] matches Action::SendR2 { ws_id: w, frame } && w@ == ws_id@ && frame
                == device_frame(old(self).device_state)),
    {
        let id_copy = ws_id.clone();
        let fresh = R2Session::new(ws_id);
        let ghost fresh_g = fresh;
        self.sessions.insert(fresh);
        proof {
            assert(fresh_session_ok(fresh_g, ws_id@));
        }
        let mut acts: Vec<Action> = Vec::new();
        match self.send_device_state(id_copy.as_str()) {
            Some(a) => {
                acts.push(a);
            },
            None => {
                proof {
                    if has_id(old(self).sessions.items@, ws_id@) {
                        let i = choose|i: int|
                            0 <= i < old(self).sessions.items@.len()
                                && old(self).sessions.items@[i].ws_id@ == ws_id@
                                && self.sessions.items@ =~= old(self).sessions.items@.update(
                                i,
                                fresh_g,
                            );
                        assert(self.sessions.items@[i] == fresh_g);
                        assert(false);
                    } else {
                        let n = old(self).sessions.items@.len() as int;
                        assert(self.sessions.items@[n] == fresh_g);
                        assert(false);
                    }
                }
            },
        }
        acts
    }

    /// A remote's socket closed: drop its session.
    pub fn handle_r2_session_disconnect(&mut self, ws_id: &str)
        requires
            old(self).wf(),
        ensures
            final(self).wf(),
            *final(self) == (Controller { sessions: final(self).sessions, ..*old(self) }),
            !has_id(final(self).sessions.items@, ws_id@),
            (if has_id(old(self).sessions.items@, ws_id@) {
                exists|i: int|
                    0 <= i < old(self).sessions.items@.len()
                        && old(self).sessions.items@[i].ws_id@ == ws_id@
                        && final(self).sessions.items@ =~= old(self).sessions.items@.remove(i)
            } else {
                final(self).sessions.items@ =~= old(self).sessions.items@
            }),
    {
        let _removed = self.sessions.remove(ws_id);
    }

    /// Answer `GetDeviceState`.
    pub fn get_device_state(&self) -> (st: DeviceState)
        ensures
            st == self.device_state,
    {
        self.device_state
    }

    /// Upstream connection lifecycle notifications from the HA client.
    pub fn handle_connection_event(&mut self, state: ConnectionState) -> (acts: Vec<Action>)
        requires
            old(self).wf(),
        ensures
            final(self).wf(),
            (match state {
                ConnectionState::AuthenticationFailed => *final(self) == (Controller {
                    device_state: DeviceState::Error,
                    ..*old(self)
                }) && acts@ =~= broadcast_frames(
                    old(self).sessions.items@,
                    device_frame(DeviceState::Error),
                ) && no_connect_scheduled(acts@),
                ConnectionState::Connected => *final(self) == (Controller {
                    device_state: DeviceState::Connected,
                    ha_reconnect_duration_ms: old(self).settings.reconnect.duration_ms,
                    ha_reconnect_attempt: 0,
                    ..*old(self)
                }) && acts@ =~= broadcast_frames(
                    old(self).sessions.items@,
                    device_frame(DeviceState::Connected),
                ),
                ConnectionState::Closed => {
                    if old(self).device_state is Connecting || old(self).device_state
                        is Connected {
                        *final(self) == (Controller {
                            ha_client: false,
                            device_state: DeviceState::Connecting,
                            ..*old(self)
                        }) && acts@ =~= broadcast_frames(
                            old(self).sessions.items@,
                            device_frame(DeviceState::Connecting),
                        ) + seq![Action::ConnectNow]
                    } else {
                        *final(self) == (Controller { ha_client: false, ..*old(self) }) && acts@
                            =~= Seq::<Action>::empty() && no_connect_scheduled(acts@)
                    }
                },
            }),
    {
        match state {
            ConnectionState::AuthenticationFailed => {
                // an error state prevents the auto-reconnect in the
                // upcoming Closed event
                let acts = self.set_device_state(DeviceState::Error);
                proof {
                    lemma_broadcast_only_sends(
                        old(self).sessions.items@,
                        device_frame(DeviceState::Error),
                    );
                }
                acts
            },
            ConnectionState::Connected => {
                self.ha_reconnect_duration_ms = self.settings.reconnect.duration_ms;
                self.ha_reconnect_attempt = 0;
                self.set_device_state(DeviceState::Connected)
            },
            ConnectionState::Closed => {
                self.ha_client = false;
                let reconnect = match self.device_state {
                    DeviceState::Connecting => true,
                    DeviceState::Connected => true,
                    _ => false,
                };
                if reconnect {
                    let mut acts = self.set_device_state(DeviceState::Connecting);
                    acts.push(Action::ConnectNow);
                    acts
                } else {
                    Vec::new()
                }
            },
        }
    }

    /// The shell's connection attempt produced a client handle: keep it and
    /// reset the backoff.
    pub fn on_connect_established(&mut self)
        ensures
            *final(self) == (Controller {
                ha_client: true,
                ha_reconnect_duration_ms: old(self).settings.reconnect.duration_ms,
                ha_reconnect_attempt: 0,
                ..*old(self)
            }),
    {
        self.ha_client = true;
        self.ha_reconnect_duration_ms = self.settings.reconnect.duration_ms;
        self.ha_reconnect_attempt = 0;
    }

    /// The shell's connection attempt failed: apply the reconnect policy.
    /// A user-requested disconnect stops the attempts; beyond the
    /// configured retries the device goes to `Error`; otherwise the next
    /// attempt is scheduled after the current delay and the delay is
    /// scaled.
    pub fn on_connect_failed(&mut self) -> (acts: Vec<Action>)
        requires
            old(self).wf(),
        ensures
            final(self).wf(),
            old(self).device_state == DeviceState::Disconnected ==> *final(self) == *old(self)
                && acts@ =~= Seq::<Action>::empty() && no_connect_scheduled(acts@),
            old(self).device_state != DeviceState::Disconnected ==> {
                let na = sat_inc(old(self).ha_reconnect_attempt as int);
                if na > old(self).settings.reconnect.attempts as int {
                    *final(self) == (Controller {
                        device_state: DeviceState::Error,
                        ha_reconnect_attempt: final(self).ha_reconnect_attempt,
                        ..*old(self)
                    }) && final(self).ha_reconnect_attempt as int == na && acts@
                        =~= broadcast_frames(
                        old(self).sessions.items@,
                        device_frame(DeviceState::Error),
                    ) && no_connect_scheduled(acts@)
                } else {
                    *final(self) == (Controller {
                        ha_reconnect_attempt: final(self).ha_reconnect_attempt,
                        ha_reconnect_duration_ms: final(self).ha_reconnect_duration_ms,
                        ..*old(self)
                    }) && final(self).ha_reconnect_attempt as int == na
                        && final(self).ha_reconnect_duration_ms as int == next_backoff(
                        old(self).ha_reconnect_duration_ms as int,
                        old(self).settings.reconnect.backoff_factor_tenths as int,
                        old(self).settings.reconnect.duration_max_ms as int,
                    ) && acts@ =~= seq![
                        (Action::ConnectLater { delay_ms: old(self).ha_reconnect_duration_ms }),
                    ]
                }
            },
            old(self).ha_reconnect_attempt < u32::MAX ==> ({
                let q = failure_step(
                    old(self).device_state,
                    old(self).ha_reconnect_attempt as int,
                    old(self).ha_reconnect_duration_ms as int,
                    old(self).settings.reconnect.attempts as int,
                    old(self).settings.reconnect.backoff_factor_tenths as int,
                    old(self).settings.reconnect.duration_max_ms as int,
                );
                final(self).device_state == q.0 && final(self).ha_reconnect_attempt as int == q.1
                    && final(self).ha_reconnect_duration_ms as int == q.2 && (match q.3 {
                    Some(d) => acts@ =~= seq![(Action::ConnectLater { delay_ms: d as u64 })],
                    None => no_connect_scheduled(acts@),
                })
            }),
    {
        if self.device_state == DeviceState::Disconnected {
            // the user asked for a disconnect: stop trying
            return Vec::new();
        }
        if self.ha_reconnect_attempt < u32::MAX {
            self.ha_reconnect_attempt = self.ha_reconnect_attempt + 1;
        }
        if self.ha_reconnect_attempt as u64 > self.settings.reconnect.attempts as u64 {
            self.device_state = DeviceState::Error;
            let acts = self.broadcast_device_state();
            proof {
                lemma_broadcast_only_sends(
                    old(self).sessions.items@,
                    device_frame(DeviceState::Error),
                );
            }
            acts
        } else {
            let mut acts: Vec<Action> = Vec::new();
            acts.push(Action::ConnectLater { delay_ms: self.ha_reconnect_duration_ms });
            self.increment_reconnect_timeout();
            acts
        }
    }

    /// Events a remote sends: connect/disconnect wishes and standby.
    pub fn handle_r2_event(&mut self, ws_id: &str, event: R2Event) -> (acts: Vec<Action>)
        requires
            old(self).wf(),
        ensures
            final(self).wf(),
            !has_id(old(self).sessions.items@, ws_id@) ==> *final(self) == *old(self) && acts@
                =~= Seq::<Action>::empty(),
            has_id(old(self).sessions.items@, ws_id@) ==> exists|i: int|
                0 <= i < old(self).sessions.items@.len()
                    && #[trigger] old(self).sessions.items@[i].ws_id@ == ws_id@
                    && r2_event_post(*old(self), *final(self), acts@, i, ws_id@, event),
    {
        let i = match self.sessions.find(ws_id) {
            Some(i) => i,
            None => {
                return Vec::new();
            },
        };
        let ghost gi = i as int;
        let ghost prev = *self;
        proof {
            lemma_update_keeps_distinct(
                self.sessions.items@,
                gi,
                (R2Session { ha_connect: true, ..self.sessions.items@[gi] }),
            );
            lemma_update_keeps_distinct(
                self.sessions.items@,
                gi,
                (R2Session { ha_connect: false, ..self.sessions.items@[gi] }),
            );
            lemma_update_keeps_distinct(
                self.sessions.items@,
                gi,
                (R2Session { standby: true, ..self.sessions.items@[gi] }),
            );
            lemma_update_keeps_distinct(
                self.sessions.items@,
                gi,
                (R2Session { standby: false, ..self.sessions.items@[gi] }),
            );
        }
        let acts: Vec<Action> = match event {
            R2Event::Connect => {
                self.sessions.set_ha_connect_at(i, true);
                let mut acts: Vec<Action> = Vec::new();
                if self.device_state != DeviceState::Connected {
                    self.device_state = DeviceState::Connecting;
                    proof {
                        let items = self.sessions.items@;
                        assert(items[gi].standby == prev.sessions.items@[gi].standby);
                        assert forall|j: int|
                            0 <= j < items.len() && items[j].ws_id@ == ws_id@ implies j == gi by {
                            if j < gi {
                                assert(items[j].ws_id@ != items[gi].ws_id@);
                            } else if j > gi {
                                assert(items[gi].ws_id@ != items[j].ws_id@);
                            }
                        }
                    }
                    match self.send_device_state(ws_id) {
                        Some(a) => {
                            proof {
                                assert(!prev.sessions.items@[gi].standby);
                            }
                            acts.push(a);
                        },
                        None => {
                            proof {
                                assert(prev.sessions.items@[gi].standby);
                            }
                        },
                    }
                    acts.push(Action::ConnectNow);
                }
                acts
            },
            R2Event::Disconnect => {
                self.sessions.set_ha_connect_at(i, false);
                let mut acts: Vec<Action> = Vec::new();
                if self.ha_client {
                    acts.push(Action::HaClose);
                }
                let mut bcast = self.set_device_state(DeviceState::Disconnected);
                acts.append(&mut bcast);
                proof {
                    lemma_broadcast_only_sends(
                        self.sessions.items@,
                        device_frame(DeviceState::Disconnected),
                    );
                }
                acts
            },
            R2Event::EnterStandby => {
                self.sessions.set_standby_at(i, true);
                Vec::new()
            },
            R2Event::ExitStandby => {
                self.sessions.set_standby_at(i, false);
                Vec::new()
            },
        };
        proof {
            assert(r2_event_post(prev, *self, acts@, gi, ws_id@, event));
        }
        acts
    }
}

/// What `handle_r2_event` does, given the index of the session.
pub open spec fn r2_event_post(
    prev: Controller,
    post: Controller,
    acts: Seq<Action>,
    i: int,
    id: Seq<char>,
    event: R2Event,
) -> bool {
    match event {
        R2Event::Connect => {
            let upd = prev.sessions.items@.update(
                i,
                (R2Session { ha_connect: true, ..prev.sessions.items@[i] }),
            );
            if prev.device_state != DeviceState::Connected {
                post == (Controller {
                    sessions: SessionRegistry { items: post.sessions.items },
                    device_state: DeviceState::Connecting,
                    ..prev
                }) && post.sessions.items@ =~= upd && (if prev.sessions.items@[i].standby {
                    acts =~= seq![Action::ConnectNow]
                } else {
                    acts.len() == 2 && (acts[0] matches Action::SendR2 { ws_id: w, frame } && w@
                        == id && frame == device_frame(DeviceState::Connecting)) && acts[1]
                        == Action::ConnectNow
                })
            } else {
                post == (Controller {
                    sessions: SessionRegistry { items: post.sessions.items },
                    ..prev
                }) && post.sessions.items@ =~= upd && acts =~= Seq::<Action>::empty()
            }
        },
        R2Event::Disconnect => {
            let upd = prev.sessions.items@.update(
                i,
                (R2Session { ha_connect: false, ..prev.sessions.items@[i] }),
            );
            post == (Controller {
                sessions: SessionRegistry { items: post.sessions.items },
                device_state: DeviceState::Disconnected,
                ..prev
            }) && post.sessions.items@ =~= upd && acts =~= (if prev.ha_client {
                seq![Action::HaClose]
            } else {
                Seq::<Action>::empty()
            }) + broadcast_frames(upd, device_frame(DeviceState::Disconnected))
                && no_connect_scheduled(acts)
        },
        R2Event::EnterStandby => post == (Controller {
            sessions: SessionRegistry { items: post.sessions.items },
            ..prev
        }) && post.sessions.items@ =~= prev.sessions.items@.update(
            i,
            (R2Session { standby: true, ..prev.sessions.items@[i] }),
        ) && acts =~= Seq::<Action>::empty(),
        R2Event::ExitStandby => post == (Controller {
            sessions: SessionRegistry { items: post.sessions.items },
            ..prev
        }) && post.sessions.items@ =~= prev.sessions.items@.update(
            i,
            (R2Session { standby: false, ..prev.sessions.items@[i] }),
        ) && acts =~= Seq::<Action>::empty(),
    }
}

proof fn lemma_count_singleton(a: Action, id: Seq<char>)
    ensures
        count_sends_to(seq![a], id) == if is_send_to(a, id) {
            1nat
        } else {
            0nat
        },
{
    let s = seq![a];
    assert(s.len() == 1);
    assert(s.last() == a);
    assert(s.drop_last() =~= Seq::<Action>::empty());
    assert(count_sends_to(s.drop_last(), id) == 0);
}

proof fn lemma_count_concat(a: Seq<Action>, b: Seq<Action>, id: Seq<char>)
    ensures
        count_sends_to(a + b, id) == count_sends_to(a, id) + count_sends_to(b, id),
    decreases b.len(),
{
    if b.len() == 0 {
        assert(a + b =~= a);
    } else {
        assert((a + b).drop_last() =~= a + b.drop_last());
        assert((a + b).last() == b.last());
        lemma_count_concat(a, b.drop_last(), id);
    }
}

proof fn lemma_broadcast_count_absent(s: Seq<R2Session>, frame: R2Frame, id: Seq<char>)
    requires
        forall|j: int| 0 <= j < s.len() ==> s[j].ws_id@ != id,
    ensures
        count_sends_to(broadcast_frames(s, frame), id) == 0,
    decreases s.len(),
{
    if s.len() > 0 {
        let d = s.drop_last();
        assert(forall|j: int| 0 <= j < d.len() ==> #[trigger] d[j].ws_id@ == s[j].ws_id@);
        lemma_broadcast_count_absent(d, frame, id);
        let tail = if s.last().standby {
            Seq::<Action>::empty()
        } else {
            seq![(Action::SendR2 { ws_id: s.last().ws_id, frame: frame })]
        };
        assert(broadcast_frames(s, frame) == broadcast_frames(d, frame) + tail);
        lemma_count_concat(broadcast_frames(d, frame), tail, id);
        if !s.last().standby {
            assert(s.last().ws_id@ != id);
            lemma_count_singleton(
                (Action::SendR2 { ws_id: s.last().ws_id, frame: frame }),
                id,
            );
            assert(!is_send_to((Action::SendR2 { ws_id: s.last().ws_id, frame: frame }), id));
        } else {
            assert(count_sends_to(tail, id) == 0);
        }
    }
}

/// Each `device_state` change is broadcast at most once to every session:
/// with distinct session ids, a broadcast holds at most one send per id.
pub proof fn lemma_broadcast_at_most_once(s: Seq<R2Session>, frame: R2Frame, id: Seq<char>)
    requires
        distinct_ids(s),
    ensures
        count_sends_to(broadcast_frames(s, frame), id) <= 1,
    decreases s.len(),
{
    if s.len() > 0 {
        let d = s.drop_last();
        assert(forall|j: int| 0 <= j < d.len() ==> #[trigger] d[j].ws_id@ == s[j].ws_id@);
        assert(distinct_ids(d));
        lemma_broadcast_at_most_once(d, frame, id);
        let tail = if s.last().standby {
            Seq::<Action>::empty()
        } else {
            seq![(Action::SendR2 { ws_id: s.last().ws_id, frame: frame })]
        };
        assert(broadcast_frames(s, frame) == broadcast_frames(d, frame) + tail);
        lemma_count_concat(broadcast_frames(d, frame), tail, id);
        if !s.last().standby {
            lemma_count_singleton(
                (Action::SendR2 { ws_id: s.last().ws_id, frame: frame }),
                id,
            );
            if s.last().ws_id@ == id {
                assert(forall|j: int| 0 <= j < d.len() ==> #[trigger] d[j].ws_id@ != id);
                lemma_broadcast_count_absent(d, frame, id);
            } else {
                assert(!is_send_to((Action::SendR2 { ws_id: s.last().ws_id, frame: frame }), id));
            }
        } else {
            assert(count_sends_to(tail, id) == 0);
        }
    }
}

/// One failed connection attempt at the model level: the next device
/// state, attempt count and delay, and the scheduled retry delay, if any.
pub open spec fn failure_step(
    ds: DeviceState,
    attempt: int,
    dur: int,
    att_max: int,
    tenths: int,
    dmax: int,
) -> (DeviceState, int, int, Option<int>) {
    if ds == DeviceState::Disconnected {
        (ds, attempt, dur, None::<int>)
    } else if attempt + 1 > att_max {
        (DeviceState::Error, attempt + 1, dur, None::<int>)
    } else {
        (ds, attempt + 1, next_backoff(dur, tenths, dmax), Some(dur))
    }
}

/// The model state after `k` consecutive failed attempts.
pub open spec fn failure_iter(
    ds: DeviceState,
    attempt: int,
    dur: int,
    att_max: int,
    tenths: int,
    dmax: int,
    k: nat,
) -> (DeviceState, int, int)
    decreases k,
{
    if k == 0 {
        (ds, attempt, dur)
    } else {
        let p = failure_iter(ds, attempt, dur, att_max, tenths, dmax, (k - 1) as nat);
        let q = failure_step(p.0, p.1, p.2, att_max, tenths, dmax);
        (q.0, q.1, q.2)
    }
}

proof fn lemma_failure_iter_inv(dur0: int, att_max: int, tenths: int, dmax: int, k: nat)
    requires
        att_max >= 0,
    ensures
        ({
            let p = failure_iter(DeviceState::Connecting, 0, dur0, att_max, tenths, dmax, k);
            p.1 == k && p.0 == (if k <= att_max {
                DeviceState::Connecting
            } else {
                DeviceState::Error
            }) && p.2 == crate::settings::backoff_iter(
                dur0,
                tenths,
                dmax,
                (if k <= att_max {
                    k as int
                } else {
                    att_max
                }) as nat,
            )
        }),
    decreases k,
{
    if k > 0 {
        lemma_failure_iter_inv(dur0, att_max, tenths, dmax, (k - 1) as nat);
    }
}

/// After `attempts + 1` consecutive failures from a fresh `Connecting`
/// state the device state is `Error`, and no later failure schedules a
/// further connection attempt.
pub proof fn lemma_reconnect_gives_up(dur0: int, att_max: int, tenths: int, dmax: int, k: nat)
    requires
        att_max >= 0,
        k > att_max,
    ensures
        ({
            let p = failure_iter(DeviceState::Connecting, 0, dur0, att_max, tenths, dmax, k);
            p.0 == DeviceState::Error && failure_step(p.0, p.1, p.2, att_max, tenths, dmax).3
                is None
        }),
{
    lemma_failure_iter_inv(dur0, att_max, tenths, dmax, k);
}

/// While `attempts` are left, the `k`-th failure schedules the retry after
/// the delay reached by `k - 1` scalings: `min(d0 * f^(k-1), d_max)` for a
/// whole-number factor `f`.
pub proof fn lemma_backoff_schedule(dur0: int, att_max: int, tenths: int, dmax: int, k: nat)
    requires
        att_max >= 0,
        1 <= k <= att_max,
        tenths % 10 == 0,
        tenths >= 10,
        0 <= dur0 <= dmax,
    ensures
        ({
            let p = failure_iter(
                DeviceState::Connecting,
                0,
                dur0,
                att_max,
                tenths,
                dmax,
                (k - 1) as nat,
            );
            failure_step(p.0, p.1, p.2, att_max, tenths, dmax).3 == Some(
                crate::settings::min_int(
                    dur0 * crate::settings::pow_int(tenths / 10, (k - 1) as nat),
                    dmax,
                ),
            )
        }),
{
    lemma_failure_iter_inv(dur0, att_max, tenths, dmax, (k - 1) as nat);
    crate::settings::lemma_backoff_closed_form(dur0, tenths, dmax, (k - 1) as nat);
}

/// Inputs that can reach the controller after a remote asked for a
/// disconnect and before any remote asks to connect again.
pub enum PostDisconnectInput {
    UpstreamClosed,
    AttemptFailed,
    AttemptSucceeded,
    DisconnectRequest,
}

/// The connection model's step for those inputs, mirroring
/// `handle_connection_event(Closed)`, `on_connect_failed`,
/// `on_connect_established` and `handle_r2_event(Disconnect)`.  The `bool`
/// says whether a connection attempt was started or scheduled.
pub open spec fn quiet_step(
    st: (DeviceState, int, int),
    ev: PostDisconnectInput,
    d0: int,
    att_max: int,
    tenths: int,
    dmax: int,
) -> ((DeviceState, int, int), bool) {
    match ev {
        PostDisconnectInput::UpstreamClosed => if st.0 is Connecting || st.0 is Connected {
            ((DeviceState::Connecting, st.1, st.2), true)
        } else {
            (st, false)
        },
        PostDisconnectInput::AttemptFailed => {
            let q = failure_step(st.0, st.1, st.2, att_max, tenths, dmax);
            ((q.0, q.1, q.2), q.3 is Some)
        },
        PostDisconnectInput::AttemptSucceeded => ((st.0, 0, d0), false),
        PostDisconnectInput::DisconnectRequest => ((DeviceState::Disconnected, st.1, st.2), false),
    }
}

pub open spec fn quiet_fold(
    st: (DeviceState, int, int),
    events: Seq<PostDisconnectInput>,
    d0: int,
    att_max: int,
    tenths: int,
    dmax: int,
) -> ((DeviceState, int, int), bool)
    decreases events.len(),
{
    if events.len() == 0 {
        (st, false)
    } else {
        let p = quiet_fold(st, events.drop_last(), d0, att_max, tenths, dmax);
        let q = quiet_step(p.0, events.last(), d0, att_max, tenths, dmax);
        (q.0, p.1 || q.1)
    }
}

/// After a remote's `Disconnect`, the device state stays `Disconnected`
/// and no connection attempt is started or scheduled, whatever sequence of
/// upstream closes, attempt outcomes and further disconnects follows —
/// until a remote sends `Connect` again (an input outside this set).
pub proof fn lemma_disconnect_suppresses_reconnect(
    st: (DeviceState, int, int),
    events: Seq<PostDisconnectInput>,
    d0: int,
    att_max: int,
    tenths: int,
    dmax: int,
)
    requires
        st.0 == DeviceState::Disconnected,
    ensures
        quiet_fold(st, events, d0, att_max, tenths, dmax).0.0 == DeviceState::Disconnected,
        !quiet_fold(st, events, d0, att_max, tenths, dmax).1,
    decreases events.len(),
{
    if events.len() > 0 {
        lemma_disconnect_suppresses_reconnect(
            st,
            events.drop_last(),
            d0,
            att_max,
            tenths,
            dmax,
        );
    }
}

} // verus!
