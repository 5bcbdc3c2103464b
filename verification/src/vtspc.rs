//! The protocol client state machine: discovery, authentication, one-time
//! parameter registration, and the streaming loop, under a strict
//! one-request-in-flight discipline.
//!
//! The machine is driven from outside: the socket loop reports connections,
//! responses and failures through `on_connected`, `on_response` and
//! `on_disconnected`, asks `poll_send` what to put on the wire, and carries
//! out the token-file actions `on_response` returns before it polls again.
//! Every decision the loop takes — what to send, when to wait, how to
//! recover from a host error — is made and verified here.

use vstd::prelude::*;

use crate::config::PreparedConfig;
use crate::mapper::{map_params, spec_map_params, spec_transforms_view, CompiledTransform,
    TransformV};
use crate::requests::{auth_request, lemma_msgs_view_drop_first, lemma_msgs_view_insert_front,
    lemma_msgs_view_push, spec_auth_request, spec_creations_view, spec_msgs_view,
    spec_token_request, token_request, InjectParams, InjectParamsV, MsgV, OutboundMsg,
    ParameterCreation, ParameterCreationV, TrackingParam, TrackingParamV};
use crate::responces::{registration_satisfied, spec_registration_satisfied, Discovery,
    HostResponse, HostResponseV};
use crate::vtsphone::{FrameV, TrackingResponce};

verus! {

/// The WebSocket port tried before any discovery broadcast has been heard.
pub const DEFAULT_WS_PORT: u16 = 8001;

/// The UDP port the host broadcasts its discovery announcement on.
pub const DISCOVERY_PORT: u16 = 47779;

/// How long one wait for a discovery broadcast lasts, in seconds.
pub const DISCOVERY_TIMEOUT_SECS: u64 = 3;

/// How an attempt to talk to either peer failed, as the driving loop
/// classifies it before it decides to retry, reconnect or skip.
#[derive(Clone, Copy, PartialEq, Eq, Structural, Debug)]
pub enum VtsError {
    UnableToBind,
    UnableToSend,
    UnableToReceive,
    UnableToDeserialize,
    UnableToSerialize,
    NoWebSocket,
    UnableToStringifyMessage,
    UnableToSave,
    UnableToRead,
    UnableToSetTimeout,
}

impl VtsError {
    /// A fixed line for the log.
    pub fn describe(&self) -> (r: &'static str)
        ensures
            r@ == spec_describe_error(*self),
    {
        match self {
            VtsError::UnableToBind => "unable to bind the socket",
            VtsError::UnableToSend => "unable to send",
            VtsError::UnableToReceive => "unable to receive",
            VtsError::UnableToDeserialize => "unable to decode the message",
            VtsError::UnableToSerialize => "unable to encode the message",
            VtsError::NoWebSocket => "no open connection",
            VtsError::UnableToStringifyMessage => "the message is not text",
            VtsError::UnableToSave => "unable to write the token cache",
            VtsError::UnableToRead => "unable to read",
            VtsError::UnableToSetTimeout => "unable to set the socket timeout",
        }
    }
}

pub open spec fn spec_describe_error(e: VtsError) -> Seq<char> {
    match e {
        VtsError::UnableToBind => "unable to bind the socket"@,
        VtsError::UnableToSend => "unable to send"@,
        VtsError::UnableToReceive => "unable to receive"@,
        VtsError::UnableToDeserialize => "unable to decode the message"@,
        VtsError::UnableToSerialize => "unable to encode the message"@,
        VtsError::NoWebSocket => "no open connection"@,
        VtsError::UnableToStringifyMessage => "the message is not text"@,
        VtsError::UnableToSave => "unable to write the token cache"@,
        VtsError::UnableToRead => "unable to read"@,
        VtsError::UnableToSetTimeout => "unable to set the socket timeout"@,
    }
}

/// Where the client stands in the connection lifecycle.
#[derive(Clone, Copy, PartialEq, Eq, Structural, Debug)]
pub enum ConnectionState {
    Disconnected,
    AwaitingStatus,
    AwaitingToken,
    AwaitingAuth,
    Registering,
    Streaming,
}

/// A side effect the caller must carry out before the next send: the
/// client itself touches no file.
pub enum Action {
    /// Write the issued token to the token cache file.
    PersistToken(String),
    /// Remove the token cache file: the host rejected the cached token.
    DeleteTokenFile,
}

pub ghost enum ActionV {
    PersistToken(Seq<char>),
    DeleteTokenFile,
}

impl View for Action {
    type V = ActionV;

    open spec fn view(&self) -> ActionV {
        match self {
            Action::PersistToken(t) => ActionV::PersistToken(t@),
            Action::DeleteTokenFile => ActionV::DeleteTokenFile,
        }
    }
}

/// The views of a sequence of actions, element-wise.
pub open spec fn spec_actions_view(s: Seq<Action>) -> Seq<ActionV> {
    Seq::new(s.len(), |i: int| s[i]@)
}

/// The client as the contracts see it.
pub ghost struct ClientV {
    pub state: ConnectionState,
    pub port: u16,
    pub token: Option<Seq<char>>,
    pub pending: Seq<MsgV>,
    pub in_flight: bool,
    pub transforms: Seq<TransformV>,
    pub registrations: Seq<ParameterCreationV>,
    pub face_overridden: bool,
}

/// The registration requests as queue entries, in order.
pub open spec fn spec_reg_msgs(regs: Seq<ParameterCreationV>) -> Seq<MsgV> {
    Seq::new(regs.len(), |i: int| MsgV::CreateParameter(regs[i]))
}

/// What the queue holds right after a connection: the status request, then
/// every registration.
pub open spec fn spec_initial_pending(regs: Seq<ParameterCreationV>) -> Seq<MsgV> {
    seq![MsgV::ApiState] + spec_reg_msgs(regs)
}

pub open spec fn all_registrations(msgs: Seq<MsgV>) -> bool {
    forall|i: int| 0 <= i < msgs.len() ==> msgs[i] is CreateParameter
}

/// The queue matches the state: each awaiting state has its own request at
/// the front with only registrations behind it, registration works through
/// registrations alone, and the queue is empty exactly when nothing of the
/// handshake is left.
pub open spec fn wf(c: ClientV) -> bool {
    match c.state {
        ConnectionState::Disconnected => c.pending.len() == 0 && !c.in_flight,
        ConnectionState::AwaitingStatus => c.pending.len() > 0 && c.pending[0] is ApiState
            && all_registrations(c.pending.drop_first()),
        ConnectionState::AwaitingToken => c.pending.len() > 0 && c.pending[0] is TokenRequest
            && all_registrations(c.pending.drop_first()),
        ConnectionState::AwaitingAuth => c.pending.len() > 0 && c.pending[0] is AuthRequest
            && all_registrations(c.pending.drop_first()),
        ConnectionState::Registering => c.pending.len() > 0 && all_registrations(c.pending),
        ConnectionState::Streaming => c.pending.len() == 0,
    }
}

/// The protocol client. All fields are owned by the single driving loop;
/// nothing here is shared with the tracking receiver.
pub struct VtsPc {
    state: ConnectionState,
    ws_port: u16,
    token: Option<String>,
    pending: Vec<OutboundMsg>,
    in_flight: bool,
    transforms: Vec<CompiledTransform>,
    registrations: Vec<ParameterCreation>,
    face_overridden: bool,
}

pub open spec fn spec_opt_token_view(t: Option<String>) -> Option<Seq<char>> {
    match t {
        Some(s) => Some(s@),
        None => None,
    }
}

impl View for VtsPc {
    type V = ClientV;

    closed spec fn view(&self) -> ClientV {
        ClientV {
            state: self.state,
            port: self.ws_port,
            token: spec_opt_token_view(self.token),
            pending: spec_msgs_view(self.pending@),
            in_flight: self.in_flight,
            transforms: spec_transforms_view(self.transforms@),
            registrations: spec_creations_view(self.registrations@),
            face_overridden: self.face_overridden,
        }
    }
}

/// The view of an optional borrowed frame.
pub open spec fn spec_opt_frame_view(f: Option<&TrackingResponce>) -> Option<FrameV> {
    match f {
        Some(fr) => Some(fr@),
        None => None,
    }
}

/// The view of an optional returned message.
pub open spec fn spec_opt_msg_view(m: Option<OutboundMsg>) -> Option<MsgV> {
    match m {
        Some(msg) => Some(msg@),
        None => None,
    }
}

/// The injection payload for a frame with a face: the mapped values.
pub open spec fn spec_inject_msg(f: FrameV, ts: Seq<TransformV>) -> MsgV {
    MsgV::Inject(
        InjectParamsV {
            face_found: f.face_found,
            mode: "set"@,
            parameter_values: spec_map_params(f, ts),
        },
    )
}

/// The one injection that clears standing overrides after the face is
/// lost: no values, `faceFound` false.
pub open spec fn spec_face_clear_msg() -> MsgV {
    MsgV::Inject(
        InjectParamsV { face_found: false, mode: "set"@, parameter_values: Seq::empty() },
    )
}

/// What, if anything, the client puts on the wire next: nothing while a
/// request is in flight; else the front of the queue, verbatim; else, when
/// streaming and a fresh frame is at hand, an injection built from it — or
/// the one clearing injection when the face was lost while overrides stand.
pub open spec fn spec_poll_msg(c: ClientV, frame: Option<FrameV>) -> Option<MsgV> {
    if c.in_flight {
        None
    } else if c.pending.len() > 0 {
        Some(c.pending[0])
    } else if c.state == ConnectionState::Streaming {
        match frame {
            None => None,
            Some(f) => {
                if spec_map_params(f, c.transforms).len() > 0 {
                    Some(spec_inject_msg(f, c.transforms))
                } else if !f.face_found && c.face_overridden {
                    Some(spec_face_clear_msg())
                } else {
                    None
                }
            },
        }
    } else {
        None
    }
}

/// The client after a poll: unchanged when nothing was sent; after a send,
/// the request is in flight, and the standing-override flag follows what
/// the injection said.
pub open spec fn spec_poll_state(c: ClientV, frame: Option<FrameV>) -> ClientV {
    if c.in_flight {
        c
    } else if c.pending.len() > 0 {
        ClientV { in_flight: true, ..c }
    } else if c.state == ConnectionState::Streaming {
        match frame {
            None => c,
            Some(f) => {
                if spec_map_params(f, c.transforms).len() > 0 {
                    ClientV { in_flight: true, face_overridden: true, ..c }
                } else if !f.face_found && c.face_overridden {
                    ClientV { in_flight: true, face_overridden: false, ..c }
                } else {
                    c
                }
            },
        }
    } else {
        c
    }
}

/// After a registration entry is satisfied: keep registering while entries
/// remain, else stream.
pub open spec fn spec_advance_state(rest: Seq<MsgV>) -> ConnectionState {
    if rest.len() == 0 {
        ConnectionState::Streaming
    } else {
        ConnectionState::Registering
    }
}

/// The transition one host response drives, and the token-file actions the
/// caller must carry out before the next send.
///
/// A ping or pong leaves everything standing: it is not the awaited
/// response. Every other response consumes the in-flight slot. A response
/// that answers what the current state awaits advances the handshake as
/// the protocol table says; the conflict error codes advance registration
/// like a success; an authentication rejection — in `AwaitingAuth`, or
/// reported while streaming — discards the cached token and restarts from
/// the token request; everything else (an unknown tag, an unknown error
/// code, a response no state awaits) changes nothing further, so the front
/// of the queue is sent again verbatim.
pub open spec fn spec_on_response(c: ClientV, r: HostResponseV) -> (ClientV, Seq<ActionV>) {
    let c0 = ClientV { in_flight: false, ..c };
    match r {
        HostResponseV::Control => (c, Seq::<ActionV>::empty()),
        HostResponseV::ApiState { authenticated, .. } => {
            if c.state == ConnectionState::AwaitingStatus && c.pending.len() > 0 {
                let rest = c.pending.drop_first();
                if authenticated {
                    (
                        ClientV { state: spec_advance_state(rest), pending: rest, ..c0 },
                        Seq::<ActionV>::empty(),
                    )
                } else {
                    match c.token {
                        Some(t) => (
                            ClientV {
                                state: ConnectionState::AwaitingAuth,
                                pending: seq![spec_auth_request(t)] + rest,
                                ..c0
                            },
                            Seq::<ActionV>::empty(),
                        ),
                        None => (
                            ClientV {
                                state: ConnectionState::AwaitingToken,
                                pending: seq![spec_token_request()] + rest,
                                ..c0
                            },
                            Seq::<ActionV>::empty(),
                        ),
                    }
                }
            } else {
                (c0, Seq::<ActionV>::empty())
            }
        },
        HostResponseV::TokenIssued { token } => {
            if c.state == ConnectionState::AwaitingToken && c.pending.len() > 0 {
                let rest = c.pending.drop_first();
                (
                    ClientV {
                        state: ConnectionState::AwaitingAuth,
                        token: Some(token),
                        pending: seq![spec_auth_request(token)] + rest,
                        ..c0
                    },
                    seq![ActionV::PersistToken(token)],
                )
            } else {
                (c0, Seq::<ActionV>::empty())
            }
        },
        HostResponseV::AuthResult { authenticated, .. } => {
            if authenticated {
                if c.state == ConnectionState::AwaitingAuth && c.pending.len() > 0 {
                    let rest = c.pending.drop_first();
                    (
                        ClientV { state: spec_advance_state(rest), pending: rest, ..c0 },
                        Seq::<ActionV>::empty(),
                    )
                } else {
                    (c0, Seq::<ActionV>::empty())
                }
            } else {
                if c.state == ConnectionState::AwaitingAuth && c.pending.len() > 0 {
                    let rest = c.pending.drop_first();
                    (
                        ClientV {
                            state: ConnectionState::AwaitingToken,
                            token: None,
                            pending: seq![spec_token_request()] + rest,
                            ..c0
                        },
                        seq![ActionV::DeleteTokenFile],
                    )
                } else if c.state == ConnectionState::Streaming {
                    (
                        ClientV {
                            state: ConnectionState::AwaitingToken,
                            token: None,
                            pending: seq![spec_token_request()] + c.pending,
                            ..c0
                        },
                        seq![ActionV::DeleteTokenFile],
                    )
                } else {
                    (c0, Seq::<ActionV>::empty())
                }
            }
        },
        HostResponseV::ParameterCreated => {
            if c.state == ConnectionState::Registering && c.pending.len() > 0 {
                let rest = c.pending.drop_first();
                (
                    ClientV { state: spec_advance_state(rest), pending: rest, ..c0 },
                    Seq::<ActionV>::empty(),
                )
            } else {
                (c0, Seq::<ActionV>::empty())
            }
        },
        HostResponseV::InjectResult => (c0, Seq::<ActionV>::empty()),
        HostResponseV::ApiError { error_id, .. } => {
            if spec_registration_satisfied(error_id) && c.state == ConnectionState::Registering
                && c.pending.len() > 0 {
                let rest = c.pending.drop_first();
                (
                    ClientV { state: spec_advance_state(rest), pending: rest, ..c0 },
                    Seq::<ActionV>::empty(),
                )
            } else {
                (c0, Seq::<ActionV>::empty())
            }
        },
        HostResponseV::Unknown { .. } => (c0, Seq::<ActionV>::empty()),
    }
}

impl VtsPc {
    /// A fresh client over a prepared configuration and the cached token,
    /// if a cache was found: disconnected, with nothing queued and nothing
    /// in flight.
    pub fn new(config: PreparedConfig, token: Option<String>) -> (r: VtsPc)
        ensures
            r@ == (ClientV {
                state: ConnectionState::Disconnected,
                port: DEFAULT_WS_PORT,
                token: spec_opt_token_view(token),
                pending: Seq::empty(),
                in_flight: false,
                transforms: spec_transforms_view(config.transforms@),
                registrations: spec_creations_view(config.registrations@),
                face_overridden: false,
            }),
            wf(r@),
    {
        let r = VtsPc {
            state: ConnectionState::Disconnected,
            ws_port: DEFAULT_WS_PORT,
            token,
            pending: Vec::new(),
            in_flight: false,
            transforms: config.transforms,
            registrations: config.registrations,
            face_overridden: false,
        };
        proof {
            assert(spec_msgs_view(r.pending@) =~= Seq::<MsgV>::empty());
        }
        r
    }

    /// The port the next connection attempt should use.
    pub fn ws_port(&self) -> (r: u16)
        ensures
            r == self@.port,
    {
        self.ws_port
    }

    pub fn state(&self) -> (r: ConnectionState)
        ensures
            r == self@.state,
    {
        self.state
    }

    pub fn is_in_flight(&self) -> (r: bool)
        ensures
            r == self@.in_flight,
    {
        self.in_flight
    }

    pub fn pending_len(&self) -> (r: usize)
        ensures
            r == self@.pending.len(),
    {
        self.pending.len()
    }

    pub fn has_token(&self) -> (r: bool)
        ensures
            r == (self@.token is Some),
    {
        self.token.is_some()
    }

    /// Take the port from a discovery announcement; nothing else changes.
    pub fn on_discovery(&mut self, d: &Discovery)
        ensures
            final(self)@ =~= (ClientV { port: d.port, ..old(self)@ }),
            wf(old(self)@) ==> wf(final(self)@),
    {
        self.ws_port = d.advertised_port();
    }

    /// A connection is up: enter `AwaitingStatus` with the status request
    /// and every registration queued, nothing in flight, and no parameter
    /// override standing on the host side.
    pub fn on_connected(&mut self)
        requires
            old(self)@.state == ConnectionState::Disconnected,
        ensures
            final(self)@ =~= (ClientV {
                state: ConnectionState::AwaitingStatus,
                pending: spec_initial_pending(old(self)@.registrations),
                in_flight: false,
                face_overridden: false,
                ..old(self)@
            }),
            wf(final(self)@),
    {
        let ghost regs = spec_creations_view(self.registrations@);
        let mut pending: Vec<OutboundMsg> = Vec::new();
        pending.push(OutboundMsg::ApiState);
        proof {
            assert(spec_msgs_view(pending@) =~= seq![MsgV::ApiState] + spec_reg_msgs(
                regs.subrange(0, 0),
            ));
        }
        let mut k: usize = 0;
        while k < self.registrations.len()
            invariant
                k <= self.registrations.len(),
                regs == spec_creations_view(self.registrations@),
                regs.len() == self.registrations.len(),
                spec_msgs_view(pending@) == seq![MsgV::ApiState] + spec_reg_msgs(
                    regs.subrange(0, k as int),
                ),
            decreases self.registrations.len() - k,
        {
            let ghost pre = pending@;
            let m = OutboundMsg::CreateParameter(self.registrations[k].duplicate());
            let ghost mg = m;
            pending.push(m);
            proof {
                lemma_msgs_view_push(pre, mg);
                assert(spec_msgs_view(pending@) =~= seq![MsgV::ApiState] + spec_reg_msgs(
                    regs.subrange(0, k + 1),
                ));
            }
            k = k + 1;
        }
        proof {
            assert(regs.subrange(0, regs.len() as int) =~= regs);
        }
        self.pending = pending;
        self.state = ConnectionState::AwaitingStatus;
        self.in_flight = false;
        self.face_overridden = false;
        proof {
            assert(self@.pending.drop_first() =~= spec_reg_msgs(regs));
        }
    }

    /// Decide what to send this tick. `frame` is the freshest tracking
    /// frame, if the receiver published one since the last take. The caller
    /// sends the returned request and reads one response before polling
    /// again; on a send failure it calls `on_disconnected` instead.
    pub fn poll_send(&mut self, frame: Option<&TrackingResponce>) -> (r: Option<OutboundMsg>)
        ensures
            spec_opt_msg_view(r) == spec_poll_msg(old(self)@, spec_opt_frame_view(frame)),
            final(self)@ =~= spec_poll_state(old(self)@, spec_opt_frame_view(frame)),
            old(self)@.in_flight ==> r is None,
            r is Some ==> final(self)@.in_flight,
            r is None ==> final(self)@ =~= old(self)@,
            wf(old(self)@) ==> wf(final(self)@),
    {
        if self.in_flight {
            return None;
        }
        if self.pending.len() > 0 {
            let m = self.pending[0].duplicate();
            self.in_flight = true;
            return Some(m);
        }
        if !(self.state == ConnectionState::Streaming) {
            return None;
        }
        match frame {
            None => None,
            Some(f) => {
                let params = map_params(f, &self.transforms);
                if params.len() > 0 {
                    let msg = OutboundMsg::Inject(
                        InjectParams {
                            face_found: f.face_found,
                            mode: String::from_str("set"),
                            parameter_values: params,
                        },
                    );
                    self.in_flight = true;
                    self.face_overridden = true;
                    Some(msg)
                } else if !f.face_found && self.face_overridden {
                    let empty_params: Vec<TrackingParam> = Vec::new();
                    let msg = OutboundMsg::Inject(
                        InjectParams {
                            face_found: false,
                            mode: String::from_str("set"),
                            parameter_values: empty_params,
                        },
                    );
                    proof {
                        assert(msg@->Inject_0.parameter_values =~= Seq::<TrackingParamV>::empty());
                    }
                    self.in_flight = true;
                    self.face_overridden = false;
                    Some(msg)
                } else {
                    None
                }
            },
        }
    }

    /// Digest one message read from the socket. The returned actions are
    /// the token-file effects of this response; the caller carries them out
    /// before the next `poll_send`, so a token is persisted before any
    /// request relies on it and a rejected token is gone before the next
    /// attempt.
    pub fn on_response(&mut self, r: &HostResponse) -> (actions: Vec<Action>)
        ensures
            final(self)@ =~= spec_on_response(old(self)@, r@).0,
            spec_actions_view(actions@) =~= spec_on_response(old(self)@, r@).1,
            r@ is Control ==> final(self)@ =~= old(self)@,
            !(r@ is Control) ==> !final(self)@.in_flight,
            wf(old(self)@) ==> wf(final(self)@),
    {
        let mut actions: Vec<Action> = Vec::new();
        proof {
            assert(spec_actions_view(actions@) =~= Seq::<ActionV>::empty());
        }
        match r {
            HostResponse::Control => {},
            HostResponse::ApiState(s) => {
                self.in_flight = false;
                if self.state == ConnectionState::AwaitingStatus && self.pending.len() > 0 {
                    let ghost pre = self.pending@;
                    let _ = self.pending.remove(0);
                    proof {
                        lemma_msgs_view_drop_first(pre);
                    }
                    if s.current_session_authenticated {
                        if self.pending.len() == 0 {
                            self.state = ConnectionState::Streaming;
                        } else {
                            self.state = ConnectionState::Registering;
                        }
                    } else {
                        match &self.token {
                            Some(t) => {
                                let m = auth_request(t);
                                let ghost pre2 = self.pending@;
                                let ghost mg = m;
                                self.pending.insert(0, m);
                                proof {
                                    lemma_msgs_view_insert_front(pre2, mg);
                                }
                                self.state = ConnectionState::AwaitingAuth;
                            },
                            None => {
                                let m = token_request();
                                let ghost pre2 = self.pending@;
                                let ghost mg = m;
                                self.pending.insert(0, m);
                                proof {
                                    lemma_msgs_view_insert_front(pre2, mg);
                                }
                                self.state = ConnectionState::AwaitingToken;
                            },
                        }
                    }
                }
            },
            HostResponse::TokenIssued(t) => {
                self.in_flight = false;
                if self.state == ConnectionState::AwaitingToken && self.pending.len() > 0 {
                    let ghost pre = self.pending@;
                    let _ = self.pending.remove(0);
                    proof {
                        lemma_msgs_view_drop_first(pre);
                    }
                    let fresh = t.authentication_token.clone();
                    actions.push(Action::PersistToken(t.authentication_token.clone()));
                    proof {
                        assert(spec_actions_view(actions@) =~= seq![
                            ActionV::PersistToken(t.authentication_token@),
                        ]);
                    }
                    let m = auth_request(&fresh);
                    let ghost pre2 = self.pending@;
                    let ghost mg = m;
                    self.pending.insert(0, m);
                    proof {
                        lemma_msgs_view_insert_front(pre2, mg);
                    }
                    self.token = Some(fresh);
                    self.state = ConnectionState::AwaitingAuth;
                }
            },
            HostResponse::AuthResult(a) => {
                self.in_flight = false;
                if a.authenticated {
                    if self.state == ConnectionState::AwaitingAuth && self.pending.len() > 0 {
                        let ghost pre = self.pending@;
                        let _ = self.pending.remove(0);
                        proof {
                            lemma_msgs_view_drop_first(pre);
                        }
                        if self.pending.len() == 0 {
                            self.state = ConnectionState::Streaming;
                        } else {
                            self.state = ConnectionState::Registering;
                        }
                    }
                } else {
                    if self.state == ConnectionState::AwaitingAuth && self.pending.len() > 0 {
                        let ghost pre = self.pending@;
                        let _ = self.pending.remove(0);
                        proof {
                            lemma_msgs_view_drop_first(pre);
                        }
                        self.token = None;
                        actions.push(Action::DeleteTokenFile);
                        proof {
                            assert(spec_actions_view(actions@) =~= seq![ActionV::DeleteTokenFile]);
                        }
                        let m = token_request();
                        let ghost pre2 = self.pending@;
                        let ghost mg = m;
                        self.pending.insert(0, m);
                        proof {
                            lemma_msgs_view_insert_front(pre2, mg);
                        }
                        self.state = ConnectionState::AwaitingToken;
                    } else if self.state == ConnectionState::Streaming {
                        self.token = None;
                        actions.push(Action::DeleteTokenFile);
                        proof {
                            assert(spec_actions_view(actions@) =~= seq![ActionV::DeleteTokenFile]);
                        }
                        let m = token_request();
                        let ghost pre2 = self.pending@;
                        let ghost mg = m;
                        self.pending.insert(0, m);
                        proof {
                            lemma_msgs_view_insert_front(pre2, mg);
                        }
                        self.state = ConnectionState::AwaitingToken;
                    }
                }
            },
            HostResponse::ParameterCreated => {
                self.in_flight = false;
                if self.state == ConnectionState::Registering && self.pending.len() > 0 {
                    let ghost pre = self.pending@;
                    let _ = self.pending.remove(0);
                    proof {
                        lemma_msgs_view_drop_first(pre);
                    }
                    if self.pending.len() == 0 {
                        self.state = ConnectionState::Streaming;
                    } else {
                        self.state = ConnectionState::Registering;
                    }
                }
            },
            HostResponse::InjectResult => {
                self.in_flight = false;
            },
            HostResponse::ApiError(e) => {
                self.in_flight = false;
                if registration_satisfied(e.error_id) && self.state == ConnectionState::Registering
                    && self.pending.len() > 0 {
                    let ghost pre = self.pending@;
                    let _ = self.pending.remove(0);
                    proof {
                        lemma_msgs_view_drop_first(pre);
                    }
                    if self.pending.len() == 0 {
                        self.state = ConnectionState::Streaming;
                    } else {
                        self.state = ConnectionState::Registering;
                    }
                }
            },
            HostResponse::Unknown(_) => {
                self.in_flight = false;
            },
        }
        proof {
            if wf(old(self)@) {
                lemma_on_response_preserves_wf(old(self)@, r@);
            }
        }
        actions
    }

    /// The connection is gone, however it failed: back to `Disconnected`
    /// with the queue dropped; a fresh connection rebuilds it.
    pub fn on_disconnected(&mut self)
        ensures
            final(self)@ =~= (ClientV {
                state: ConnectionState::Disconnected,
                pending: Seq::empty(),
                in_flight: false,
                ..old(self)@
            }),
            wf(final(self)@),
    {
        self.pending.clear();
        self.state = ConnectionState::Disconnected;
        self.in_flight = false;
        proof {
            assert(spec_msgs_view(self.pending@) =~= Seq::<MsgV>::empty());
        }
    }
}

/// Dropping the front of an all-registrations queue leaves an
/// all-registrations queue.
proof fn lemma_all_registrations_drop_first(s: Seq<MsgV>)
    requires
        s.len() > 0,
        all_registrations(s),
    ensures
        all_registrations(s.drop_first()),
{
    assert forall|i: int| 0 <= i < s.drop_first().len() implies s.drop_first()[i]
        is CreateParameter by {
        assert(s.drop_first()[i] == s[i + 1]);
    }
}

/// Every response keeps the queue well formed for the state it leaves the
/// client in.
pub proof fn lemma_on_response_preserves_wf(c: ClientV, r: HostResponseV)
    requires
        wf(c),
    ensures
        wf(spec_on_response(c, r).0),
{
    let c2 = spec_on_response(c, r).0;
    match r {
        HostResponseV::Control => {},
        HostResponseV::ApiState { authenticated, .. } => {
            if c.state == ConnectionState::AwaitingStatus && c.pending.len() > 0 {
                let rest = c.pending.drop_first();
                if authenticated {
                    if rest.len() > 0 {
                        lemma_all_registrations_drop_first(rest);
                    }
                } else {
                    match c.token {
                        Some(t) => {
                            assert((seq![spec_auth_request(t)] + rest).drop_first() =~= rest);
                        },
                        None => {
                            assert((seq![spec_token_request()] + rest).drop_first() =~= rest);
                        },
                    }
                }
            }
        },
        HostResponseV::TokenIssued { token } => {
            if c.state == ConnectionState::AwaitingToken && c.pending.len() > 0 {
                let rest = c.pending.drop_first();
                assert((seq![spec_auth_request(token)] + rest).drop_first() =~= rest);
            }
        },
        HostResponseV::AuthResult { authenticated, .. } => {
            if authenticated {
                if c.state == ConnectionState::AwaitingAuth && c.pending.len() > 0 {
                    let rest = c.pending.drop_first();
                    if rest.len() > 0 {
                        lemma_all_registrations_drop_first(rest);
                    }
                }
            } else {
                if c.state == ConnectionState::AwaitingAuth && c.pending.len() > 0 {
                    let rest = c.pending.drop_first();
                    assert((seq![spec_token_request()] + rest).drop_first() =~= rest);
                } else if c.state == ConnectionState::Streaming {
                    assert((seq![spec_token_request()] + c.pending).drop_first() =~= c.pending);
                }
            }
        },
        HostResponseV::ParameterCreated => {
            if c.state == ConnectionState::Registering && c.pending.len() > 0 {
                let rest = c.pending.drop_first();
                if rest.len() > 0 {
                    lemma_all_registrations_drop_first(c.pending);
                }
            }
        },
        HostResponseV::InjectResult => {},
        HostResponseV::ApiError { error_id, .. } => {
            if spec_registration_satisfied(error_id) && c.state == ConnectionState::Registering
                && c.pending.len() > 0 {
                let rest = c.pending.drop_first();
                if rest.len() > 0 {
                    lemma_all_registrations_drop_first(c.pending);
                }
            }
        },
        HostResponseV::Unknown { .. } => {},
    }
}

/// While a request is in flight nothing further is sent and nothing
/// changes: a poll is a no-op until the response arrives.
pub proof fn lemma_no_send_while_in_flight(c: ClientV, frame: Option<FrameV>)
    requires
        c.in_flight,
    ensures
        spec_poll_msg(c, frame) is None,
        spec_poll_state(c, frame) == c,
{
}

/// A send occupies the in-flight slot, and only happens when it was free.
pub proof fn lemma_send_occupies_slot(c: ClientV, frame: Option<FrameV>)
    requires
        spec_poll_msg(c, frame) is Some,
    ensures
        !c.in_flight,
        spec_poll_state(c, frame).in_flight,
{
}

/// A ping or pong is not the awaited response: it changes nothing and
/// frees nothing.
pub proof fn lemma_control_keeps_slot(c: ClientV)
    ensures
        spec_on_response(c, HostResponseV::Control).0 == c,
        spec_on_response(c, HostResponseV::Control).1 == Seq::<ActionV>::empty(),
{
}

/// At most one request is ever outstanding: after a send, a second poll
/// sends nothing, and ping/pong frames consumed in between do not change
/// that; only a substantive response frees the slot.
pub proof fn lemma_one_request_outstanding(
    c: ClientV,
    frame1: Option<FrameV>,
    frame2: Option<FrameV>,
)
    requires
        spec_poll_msg(c, frame1) is Some,
    ensures
        spec_poll_msg(spec_poll_state(c, frame1), frame2) is None,
        spec_poll_msg(
            spec_on_response(spec_poll_state(c, frame1), HostResponseV::Control).0,
            frame2,
        ) is None,
{
}

/// A host error naming an already-existing or already-default parameter
/// advances registration past that entry exactly as a success would: the
/// entry leaves the queue, no action is taken, and the client keeps
/// registering or starts streaming — never a retry of the same entry.
pub proof fn lemma_conflict_advances_registration(c: ClientV, error_id: u16, message: Seq<char>)
    requires
        wf(c),
        c.state == ConnectionState::Registering,
        spec_registration_satisfied(error_id),
    ensures
        spec_on_response(c, HostResponseV::ApiError { error_id, message }).0.pending
            == c.pending.drop_first(),
        spec_on_response(c, HostResponseV::ApiError { error_id, message }).0.state
            == spec_advance_state(c.pending.drop_first()),
        spec_on_response(c, HostResponseV::ApiError { error_id, message }).1
            == Seq::<ActionV>::empty(),
{
}

/// An authentication rejection — in `AwaitingAuth`, or reported while
/// streaming — always discards the cached token and orders the cache file
/// removed, and the next request to go out is the token request, at the
/// front of the queue, never another attempt with the old token. These are
/// the only states in which the host can be answering an authentication
/// request or revoking a session; in any other state an authentication
/// response answers nothing the client asked, and `spec_on_response` only
/// consumes it.
pub proof fn lemma_auth_rejection_restarts_token(c: ClientV, reason: Seq<char>)
    requires
        wf(c),
        c.state == ConnectionState::AwaitingAuth || c.state == ConnectionState::Streaming,
    ensures
        spec_on_response(c, HostResponseV::AuthResult { authenticated: false, reason }).0.token
            is None,
        spec_on_response(c, HostResponseV::AuthResult { authenticated: false, reason }).1
            == seq![ActionV::DeleteTokenFile],
        spec_on_response(
            c,
            HostResponseV::AuthResult { authenticated: false, reason },
        ).0.pending[0] == spec_token_request(),
        spec_on_response(c, HostResponseV::AuthResult { authenticated: false, reason }).0.state
            == ConnectionState::AwaitingToken,
{
}

/// An issued token is ordered persisted by the same transition that queues
/// the authentication request carrying it, and the caller applies actions
/// before the next send: the token reaches the cache before it is used.
pub proof fn lemma_token_issued_persists_before_auth(c: ClientV, token: Seq<char>)
    requires
        wf(c),
        c.state == ConnectionState::AwaitingToken,
    ensures
        spec_on_response(c, HostResponseV::TokenIssued { token }).1 == seq![
            ActionV::PersistToken(token),
        ],
        spec_on_response(c, HostResponseV::TokenIssued { token }).0.token == Some(token),
        spec_on_response(c, HostResponseV::TokenIssued { token }).0.pending[0]
            == spec_auth_request(token),
        spec_on_response(c, HostResponseV::TokenIssued { token }).0.state
            == ConnectionState::AwaitingAuth,
{
}

} // verus!
