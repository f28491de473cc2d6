//! The upstream Home Assistant client's protocol state: the handshake
//! (authenticate, subscribe), request/response correlation by id, and the
//! heartbeat.  The socket itself lives in the I/O shell; decoded frames
//! come in and the returned actions go out.

use vstd::prelude::*;

use crate::messages::{AvailableEntity, ConnectionState, EntityChange, EntityCommand};

verus! {

/// The upstream connection's protocol phase.
#[derive(Clone, Copy, Debug, PartialEq, Eq, Structural)]
pub enum HaClientState {
    AwaitAuthRequired,
    AwaitAuthOk,
    Subscribing,
    Running,
    AuthFailed,
    Closed,
}

/// What an outstanding request was for.
#[derive(Clone, Copy, Debug, PartialEq, Eq, Structural)]
pub enum HaRequestKind {
    SubscribeEvents,
    GetStates,
    CallService,
    Ping,
}

/// One outstanding request: its id and kind.
#[derive(Clone, Copy, Debug, PartialEq, Eq, Structural)]
pub struct PendingRequest {
    pub id: u32,
    pub kind: HaRequestKind,
}

/// A decoded frame from the HA server.
#[derive(Clone, Debug)]
pub enum HaServerFrame {
    AuthRequired,
    AuthOk,
    AuthInvalid,
    ResultFrame { id: u32, success: bool },
    StatesResult { id: u32, entities: Vec<AvailableEntity> },
    EventFrame { change: EntityChange },
    PongFrame { id: u32 },
}

/// What the HA client asks the shell to do.
#[derive(Clone, Debug)]
pub enum HaAction {
    /// Send `{"type":"auth","access_token":...}`.
    SendAuth,
    /// Send `{"id":N,"type":"subscribe_events","event_type":"state_changed"}`.
    SendSubscribe { id: u32 },
    /// Send `{"id":N,"type":"get_states"}`.
    SendGetStates { id: u32 },
    /// Send `{"id":N,"type":"call_service",...}` for this command.
    SendCallService { id: u32, command: EntityCommand },
    /// Send `{"id":N,"type":"ping"}`.
    SendPing { id: u32 },
    /// Notify the controller of a connection state change.
    EmitConnEvent { state: ConnectionState },
    /// Post an entity change to the controller.
    PostEntityChange { change: EntityChange },
    /// Post the fetched states to the controller.
    PostAvailableEntities { entities: Vec<AvailableEntity> },
    /// Report the outcome of the service call with this request id.
    CallServiceDone { id: u32, success: bool },
    /// Close the socket.
    CloseSocket,
}

/// What a `result` frame does: the matching outstanding request is
/// served and removed; an unknown id is dropped.  A successful subscribe
/// result completes the handshake; a service-call result is reported.
pub open spec fn result_post(
    prev: HaClient,
    post: HaClient,
    acts: Seq<HaAction>,
    id: u32,
    success: bool,
) -> bool {
    if exists|i: int| 0 <= i < prev.pending@.len() && (#[trigger] prev.pending@[i].id) == id {
        exists|i: int|
            0 <= i < prev.pending@.len() && (#[trigger] prev.pending@[i].id) == id
                && post.pending@ =~= prev.pending@.remove(i) && post.next_id == prev.next_id
                && post.awaiting_pong == prev.awaiting_pong && (match prev.pending@[i].kind {
                HaRequestKind::SubscribeEvents => if success && prev.state
                    == HaClientState::Subscribing {
                    post.state == HaClientState::Running && acts =~= seq![
                        (HaAction::EmitConnEvent { state: ConnectionState::Connected }),
                    ]
                } else {
                    post.state == prev.state && acts =~= Seq::<HaAction>::empty()
                },
                HaRequestKind::CallService => post.state == prev.state && acts =~= seq![
                    (HaAction::CallServiceDone { id: id, success: success }),
                ],
                HaRequestKind::GetStates => post.state == prev.state && acts
                    =~= Seq::<HaAction>::empty(),
                HaRequestKind::Ping => post.state == prev.state && acts
                    =~= Seq::<HaAction>::empty(),
            })
    } else {
        post == prev && acts =~= Seq::<HaAction>::empty()
    }
}

/// What a states result does: a pending `get_states` is served with the
/// entities and removed; anything else is dropped.
pub open spec fn states_post(
    prev: HaClient,
    post: HaClient,
    acts: Seq<HaAction>,
    id: u32,
    entities: Vec<AvailableEntity>,
) -> bool {
    if exists|i: int| 0 <= i < prev.pending@.len() && (#[trigger] prev.pending@[i].id) == id {
        exists|i: int|
            0 <= i < prev.pending@.len() && (#[trigger] prev.pending@[i].id) == id
                && post.pending@ =~= prev.pending@.remove(i) && post.next_id == prev.next_id
                && post.awaiting_pong == prev.awaiting_pong && post.state == prev.state
                && (match prev.pending@[i].kind {
                HaRequestKind::GetStates => acts.len() == 1 && (acts[0]
                    matches HaAction::PostAvailableEntities { entities: es } && es@
                    =~= entities@),
                _ => acts =~= Seq::<HaAction>::empty(),
            })
    } else {
        post == prev && acts =~= Seq::<HaAction>::empty()
    }
}

/// What a `pong` frame does: a pending ping with this id is served and
/// the heartbeat is satisfied; anything else is dropped.
pub open spec fn pong_post(prev: HaClient, post: HaClient, acts: Seq<HaAction>, id: u32) -> bool {
    acts =~= Seq::<HaAction>::empty() && (if exists|i: int|
        0 <= i < prev.pending@.len() && (#[trigger] prev.pending@[i].id) == id {
        exists|i: int|
            0 <= i < prev.pending@.len() && (#[trigger] prev.pending@[i].id) == id
                && post.pending@ =~= prev.pending@.remove(i) && post.next_id == prev.next_id
                && post.state == prev.state && post.awaiting_pong == (if prev.pending@[i].kind
                == HaRequestKind::Ping {
                false
            } else {
                prev.awaiting_pong
            })
    } else {
        post == prev
    })
}

/// The verified core of the HA client.
pub struct HaClient {
    pub state: HaClientState,
    /// The next request id to hand out.
    pub next_id: u32,
    /// Outstanding requests, oldest first.
    pub pending: Vec<PendingRequest>,
    /// A ping is in flight and its pong has not arrived yet.
    pub awaiting_pong: bool,
}

impl HaClient {
    /// Ids are handed out from 1, strictly increasing; every outstanding
    /// id is below the next one, so no id is ever reused.
    pub open spec fn wf(self) -> bool {
        &&& self.next_id >= 1
        &&& forall|i: int, j: int|
            0 <= i < j < self.pending@.len() ==> self.pending@[i].id < self.pending@[j].id
        &&& forall|i: int|
            0 <= i < self.pending@.len() ==> 1 <= #[trigger] self.pending@[i].id
                < self.next_id
    }

    /// A fresh client for a new upstream connection: ids restart at 1.
    pub fn new() -> (c: HaClient)
        ensures
            c.wf(),
            c.state == HaClientState::AwaitAuthRequired,
            c.next_id == 1,
            c.pending@ =~= Seq::<PendingRequest>::empty(),
            !c.awaiting_pong,
    {
        HaClient {
            state: HaClientState::AwaitAuthRequired,
            next_id: 1,
            pending: Vec::new(),
            awaiting_pong: false,
        }
    }

    /// Hand out the next request id and record the outstanding request.
    /// The id is exactly the previous `next_id`: ids are assigned in
    /// dispatch order, strictly increasing.
    pub fn allocate_id(&mut self, kind: HaRequestKind) -> (id: u32)
        requires
            old(self).wf(),
            old(self).next_id < u32::MAX,
        ensures
            final(self).wf(),
            id == old(self).next_id,
            final(self).next_id == id + 1,
            final(self).state == old(self).state,
            final(self).awaiting_pong == old(self).awaiting_pong,
            final(self).pending@ =~= old(self).pending@.push(
                (PendingRequest { id: id, kind: kind }),
            ),
    {
        let id = self.next_id;
        self.next_id = self.next_id + 1;
        self.pending.push(PendingRequest { id, kind });
        id
    }

    /// Index of the outstanding request with this id, if any.
    fn find_pending(&self, id: u32) -> (r: Option<usize>)
        ensures
            (match r {
                Some(i) => i < self.pending@.len() && self.pending@[i as int].id == id,
                None => forall|i: int|
                    0 <= i < self.pending@.len() ==> (#[trigger] self.pending@[i].id) != id,
            }),
    {
        let n = self.pending.len();
        let mut i: usize = 0;
        while i < n
            invariant
                i <= n,
                n == self.pending@.len(),
                forall|j: int| 0 <= j < i ==> (#[trigger] self.pending@[j].id) != id,
            decreases n - i,
        {
            if self.pending[i].id == id {
                return Some(i);
            }
            i = i + 1;
        }
        None
    }

    /// Ask HA for all entity states.
    pub fn request_get_states(&mut self) -> (out: (u32, HaAction))
        requires
            old(self).wf(),
            old(self).next_id < u32::MAX,
        ensures
            final(self).wf(),
            out.0 == old(self).next_id,
            final(self).next_id == out.0 + 1,
            final(self).state == old(self).state,
            final(self).awaiting_pong == old(self).awaiting_pong,
            final(self).pending@ =~= old(self).pending@.push(
                (PendingRequest { id: out.0, kind: HaRequestKind::GetStates }),
            ),
            out.1 == (HaAction::SendGetStates { id: out.0 }),
    {
        let id = self.allocate_id(HaRequestKind::GetStates);
        (id, HaAction::SendGetStates { id })
    }

    /// Translate an entity command into an HA service call.
    pub fn request_call_service(&mut self, command: EntityCommand) -> (out: (u32, HaAction))
        requires
            old(self).wf(),
            old(self).next_id < u32::MAX,
        ensures
            final(self).wf(),
            out.0 == old(self).next_id,
            final(self).next_id == out.0 + 1,
            final(self).state == old(self).state,
            final(self).awaiting_pong == old(self).awaiting_pong,
            final(self).pending@ =~= old(self).pending@.push(
                (PendingRequest { id: out.0, kind: HaRequestKind::CallService }),
            ),
            (out.1 matches HaAction::SendCallService { id, command: c } && id == out.0 && c
                == command),
    {
        let id = self.allocate_id(HaRequestKind::CallService);
        (id, HaAction::SendCallService { id, command })
    }

    /// React to one decoded server frame, per the handshake and
    /// correlation rules.  Results for unknown ids are dropped.
    pub fn handle_server_frame(&mut self, frame: HaServerFrame) -> (acts: Vec<HaAction>)
        requires
            old(self).wf(),
            old(self).next_id < u32::MAX,
        ensures
            final(self).wf(),
            (match frame {
                HaServerFrame::AuthRequired => {
                    if old(self).state == HaClientState::AwaitAuthRequired {
                        final(self).state == HaClientState::AwaitAuthOk && final(self).pending@
                            =~= old(self).pending@ && final(self).next_id == old(self).next_id
                            && final(self).awaiting_pong == old(self).awaiting_pong && acts@
                            =~= seq![HaAction::SendAuth]
                    } else {
                        *final(self) == *old(self) && acts@ =~= Seq::<HaAction>::empty()
                    }
                },
                HaServerFrame::AuthInvalid => final(self).state == HaClientState::AuthFailed
                    && final(self).pending@ =~= old(self).pending@ && final(self).next_id
                    == old(self).next_id && final(self).awaiting_pong == old(self).awaiting_pong
                    && acts@ =~= seq![
                    (HaAction::EmitConnEvent { state: ConnectionState::AuthenticationFailed }),
                    HaAction::CloseSocket,
                ],
                HaServerFrame::AuthOk => {
                    if old(self).state == HaClientState::AwaitAuthOk {
                        final(self).state == HaClientState::Subscribing && final(self).pending@
                            =~= old(self).pending@.push(
                            (PendingRequest {
                                id: old(self).next_id,
                                kind: HaRequestKind::SubscribeEvents,
                            }),
                        ) && final(self).next_id == old(self).next_id + 1
                            && final(self).awaiting_pong == old(self).awaiting_pong && acts@
                            =~= seq![(HaAction::SendSubscribe { id: old(self).next_id })]
                    } else {
                        *final(self) == *old(self) && acts@ =~= Seq::<HaAction>::empty()
                    }
                },
                HaServerFrame::ResultFrame { id, success } => result_post(
                    *old(self),
                    *final(self),
                    acts@,
                    id,
                    success,
                ),
                HaServerFrame::StatesResult { id, entities } => states_post(
                    *old(self),
                    *final(self),
                    acts@,
                    id,
                    entities,
                ),
                HaServerFrame::EventFrame { change } => *final(self) == *old(self) && acts@.len()
                    == 1 && (acts@[0] matches HaAction::PostEntityChange { change: c } && c
                    == change),
                HaServerFrame::PongFrame { id } => pong_post(*old(self), *final(self), acts@, id),
            }),
    {
        let mut acts: Vec<HaAction> = Vec::new();
        match frame {
            HaServerFrame::AuthRequired => {
                if self.state == HaClientState::AwaitAuthRequired {
                    self.state = HaClientState::AwaitAuthOk;
                    acts.push(HaAction::SendAuth);
                }
            },
            HaServerFrame::AuthInvalid => {
                self.state = HaClientState::AuthFailed;
                acts.push(HaAction::EmitConnEvent {
                    state: ConnectionState::AuthenticationFailed,
                });
                acts.push(HaAction::CloseSocket);
            },
            HaServerFrame::AuthOk => {
                if self.state == HaClientState::AwaitAuthOk {
                    let id = self.allocate_id(HaRequestKind::SubscribeEvents);
                    self.state = HaClientState::Subscribing;
                    acts.push(HaAction::SendSubscribe { id });
                }
            },
            HaServerFrame::ResultFrame { id, success } => {
                match self.find_pending(id) {
                    None => {
                        // unknown id: log and drop
                    },
                    Some(i) => {
                        let kind = self.pending[i].kind;
                        let _served = self.pending.remove(i);
                        proof {
                            lemma_remove_keeps_wf(old(self).pending@, i as int, self.next_id);
                        }
                        match kind {
                            HaRequestKind::SubscribeEvents => {
                                if success && self.state == HaClientState::Subscribing {
                                    self.state = HaClientState::Running;
                                    acts.push(HaAction::EmitConnEvent {
                                        state: ConnectionState::Connected,
                                    });
                                }
                            },
                            HaRequestKind::CallService => {
                                acts.push(HaAction::CallServiceDone { id, success });
                            },
                            HaRequestKind::GetStates => {
                                // the states arrive in a `StatesResult`
                            },
                            HaRequestKind::Ping => {
                                // pings are answered by `pong` frames
                            },
                        }
                    },
                }
            },
            HaServerFrame::StatesResult { id, entities } => {
                match self.find_pending(id) {
                    None => {},
                    Some(i) => {
                        let kind = self.pending[i].kind;
                        let _served = self.pending.remove(i);
                        proof {
                            lemma_remove_keeps_wf(old(self).pending@, i as int, self.next_id);
                        }
                        match kind {
                            HaRequestKind::GetStates => {
                                acts.push(HaAction::PostAvailableEntities { entities });
                            },
                            _ => {},
                        }
                    },
                }
            },
            HaServerFrame::EventFrame { change } => {
                acts.push(HaAction::PostEntityChange { change });
            },
            HaServerFrame::PongFrame { id } => {
                match self.find_pending(id) {
                    None => {},
                    Some(i) => {
                        let kind = self.pending[i].kind;
                        let _served = self.pending.remove(i);
                        proof {
                            lemma_remove_keeps_wf(old(self).pending@, i as int, self.next_id);
                        }
                        match kind {
                            HaRequestKind::Ping => {
                                self.awaiting_pong = false;
                            },
                            _ => {},
                        }
                    },
                }
            },
        }
        acts
    }

    /// The connection closed: every outstanding service call fails, the
    /// close is reported exactly once, and the pending table is cleared.
    pub fn on_close(&mut self) -> (acts: Vec<HaAction>)
        requires
            old(self).wf(),
        ensures
            final(self).wf(),
            final(self).state == HaClientState::Closed,
            final(self).pending@ =~= Seq::<PendingRequest>::empty(),
            final(self).next_id == old(self).next_id,
            !final(self).awaiting_pong,
            (if old(self).state == HaClientState::Closed {
                acts@ =~= Seq::<HaAction>::empty()
            } else {
                acts@.len() == old(self).pending@.filter(
                    |p: PendingRequest| p.kind == HaRequestKind::CallService,
                ).len() + 1 && acts@.last() == (HaAction::EmitConnEvent {
                    state: ConnectionState::Closed,
                }) && forall|k: int|
                    0 <= k < acts@.len() - 1 ==> (#[trigger] acts@[k]) == (
                    HaAction::CallServiceDone {
                        id: old(self).pending@.filter(
                            |p: PendingRequest| p.kind == HaRequestKind::CallService,
                        )[k].id,
                        success: false,
                    })
            }),
    {
        let mut acts: Vec<HaAction> = Vec::new();
        if self.state == HaClientState::Closed {
            self.pending.clear();
            self.awaiting_pong = false;
            return acts;
        }
        let ghost cs = |p: PendingRequest| p.kind == HaRequestKind::CallService;
        let n = self.pending.len();
        let mut i: usize = 0;
        proof {
            assert(self.pending@.take(0) =~= Seq::<PendingRequest>::empty());
            reveal(Seq::filter);
        }
        while i < n
            invariant
                i <= n,
                n == self.pending@.len(),
                cs == (|p: PendingRequest| p.kind == HaRequestKind::CallService),
                acts@.len() == self.pending@.take(i as int).filter(cs).len(),
                forall|k: int|
                    0 <= k < acts@.len() ==> (#[trigger] acts@[k]) == (
                    HaAction::CallServiceDone {
                        id: self.pending@.take(i as int).filter(cs)[k].id,
                        success: false,
                    }),
            decreases n - i,
        {
            proof {
                reveal(Seq::filter);
                assert(self.pending@.take(i as int + 1).drop_last() =~= self.pending@.take(
                    i as int,
                ));
                assert(self.pending@.take(i as int + 1).last() == self.pending@[i as int]);
            }
            let p = self.pending[i];
            if match p.kind {
                HaRequestKind::CallService => true,
                _ => false,
            } {
                acts.push(HaAction::CallServiceDone { id: p.id, success: false });
            }
            i = i + 1;
        }
        proof {
            assert(self.pending@.take(n as int) =~= self.pending@);
        }
        self.pending.clear();
        self.state = HaClientState::Closed;
        self.awaiting_pong = false;
        acts.push(HaAction::EmitConnEvent { state: ConnectionState::Closed });
        acts
    }

    /// A heartbeat tick from the shell's interval timer.  An unanswered
    /// ping means the connection is dead: close it.  Otherwise send the
    /// next ping, its id drawn from the same strictly increasing counter.
    pub fn on_heartbeat(&mut self) -> (acts: Vec<HaAction>)
        requires
            old(self).wf(),
            old(self).next_id < u32::MAX,
        ensures
            final(self).wf(),
            (if old(self).state != HaClientState::Running {
                *final(self) == *old(self) && acts@ =~= Seq::<HaAction>::empty()
            } else if old(self).awaiting_pong {
                *final(self) == *old(self) && acts@ =~= seq![HaAction::CloseSocket]
            } else {
                final(self).awaiting_pong && final(self).state == old(self).state
                    && final(self).next_id == old(self).next_id + 1 && final(self).pending@
                    =~= old(self).pending@.push(
                    (PendingRequest { id: old(self).next_id, kind: HaRequestKind::Ping }),
                ) && acts@ =~= seq![(HaAction::SendPing { id: old(self).next_id })]
            }),
    {
        let mut acts: Vec<HaAction> = Vec::new();
        if !(self.state == HaClientState::Running) {
            return acts;
        }
        if self.awaiting_pong {
            acts.push(HaAction::CloseSocket);
        } else {
            let id = self.allocate_id(HaRequestKind::Ping);
            self.awaiting_pong = true;
            acts.push(HaAction::SendPing { id });
        }
        acts
    }
}

proof fn lemma_remove_keeps_wf(pending: Seq<PendingRequest>, i: int, next_id: u32)
    requires
        0 <= i < pending.len(),
        forall|a: int, b: int| 0 <= a < b < pending.len() ==> pending[a].id < pending[b].id,
        forall|a: int| 0 <= a < pending.len() ==> 1 <= #[trigger] pending[a].id < next_id,
    ensures
        forall|a: int, b: int|
            0 <= a < b < pending.remove(i).len() ==> pending.remove(i)[a].id < pending.remove(
                i,
            )[b].id,
        forall|a: int|
            0 <= a < pending.remove(i).len() ==> 1 <= #[trigger] pending.remove(i)[a].id
                < next_id,
{
    let r = pending.remove(i);
    assert forall|a: int, b: int| 0 <= a < b < r.len() implies r[a].id < r[b].id by {
        let aa = if a < i {
            a
        } else {
            a + 1
        };
        let bb = if b < i {
            b
        } else {
            b + 1
        };
        assert(r[a] == pending[aa]);
        assert(r[b] == pending[bb]);
    }
    assert forall|a: int| 0 <= a < r.len() implies 1 <= #[trigger] r[a].id < next_id by {
        let aa = if a < i {
            a
        } else {
            a + 1
        };
        assert(r[a] == pending[aa]);
    }
}

/// HA request ids on a single connection are strictly increasing starting
/// at 1, and no id is reused: every outstanding id is below `next_id`, so
/// a later allocation can never collide with one already handed out.
pub proof fn lemma_request_ids_strictly_increasing(c: HaClient)
    requires
        c.wf(),
    ensures
        forall|i: int, j: int|
            0 <= i < j < c.pending@.len() ==> c.pending@[i].id < c.pending@[j].id,
        forall|i: int| 0 <= i < c.pending@.len() ==> 1 <= #[trigger] c.pending@[i].id,
        forall|i: int| 0 <= i < c.pending@.len() ==> #[trigger] c.pending@[i].id < c.next_id,
{
}

} // verus!
