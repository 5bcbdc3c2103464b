//! Requests the client sends to the host, and the envelope fields every one
//! of them is wrapped in.
//!
//! The library builds requests as plain values; turning one into its JSON
//! wire form `{apiName, apiVersion, requestID, messageType, data}` is the
//! caller's concern at the socket. Every scalar is the bit pattern of an
//! IEEE 754 double (see `value_bits`).

use vstd::prelude::*;

verus! {

/// The plugin name this bridge announces to the host.
pub const PLUGIN_NAME: &'static str = "RustyBridgeUi";

/// The plugin developer this bridge announces to the host.
pub const PLUGIN_DEVELOPER: &'static str = "ovROG";

/// Payload of an `AuthenticationTokenRequest`: ask the host to issue a fresh
/// token (the host shows a confirmation popup to the user).
pub struct AuthToken {
    pub plugin_name: String,
    pub plugin_developer: String,
    pub plugin_icon: Option<String>,
}

pub ghost struct AuthTokenV {
    pub plugin_name: Seq<char>,
    pub plugin_developer: Seq<char>,
    pub plugin_icon: Option<Seq<char>>,
}

impl View for AuthToken {
    type V = AuthTokenV;

    open spec fn view(&self) -> AuthTokenV {
        AuthTokenV {
            plugin_name: self.plugin_name@,
            plugin_developer: self.plugin_developer@,
            plugin_icon: match self.plugin_icon {
                Some(ref s) => Some(s@),
                None => None,
            },
        }
    }
}

/// Payload of an `AuthenticationRequest`: present a token for the current
/// session.
pub struct Auth {
    pub plugin_name: String,
    pub plugin_developer: String,
    pub authentication_token: String,
}

pub ghost struct AuthV {
    pub plugin_name: Seq<char>,
    pub plugin_developer: Seq<char>,
    pub authentication_token: Seq<char>,
}

impl View for Auth {
    type V = AuthV;

    open spec fn view(&self) -> AuthV {
        AuthV {
            plugin_name: self.plugin_name@,
            plugin_developer: self.plugin_developer@,
            authentication_token: self.authentication_token@,
        }
    }
}

/// Payload of a `ParameterCreationRequest`: register one custom parameter
/// with its range and default, each a double bit pattern.
pub struct ParameterCreation {
    pub parameter_name: String,
    pub explanation: String,
    pub min: u64,
    pub max: u64,
    pub default_value: u64,
}

pub ghost struct ParameterCreationV {
    pub parameter_name: Seq<char>,
    pub explanation: Seq<char>,
    pub min: u64,
    pub max: u64,
    pub default_value: u64,
}

impl View for ParameterCreation {
    type V = ParameterCreationV;

    open spec fn view(&self) -> ParameterCreationV {
        ParameterCreationV {
            parameter_name: self.parameter_name@,
            explanation: self.explanation@,
            min: self.min,
            max: self.max,
            default_value: self.default_value,
        }
    }
}

/// One parameter value inside an `InjectParameterDataRequest`.
pub struct TrackingParam {
    pub id: String,
    pub weight: Option<u64>,
    pub value: u64,
}

pub ghost struct TrackingParamV {
    pub id: Seq<char>,
    pub weight: Option<u64>,
    pub value: u64,
}

impl View for TrackingParam {
    type V = TrackingParamV;

    open spec fn view(&self) -> TrackingParamV {
        TrackingParamV { id: self.id@, weight: self.weight, value: self.value }
    }
}

/// Payload of an `InjectParameterDataRequest`: the values to set on the host
/// for this frame.
pub struct InjectParams {
    pub face_found: bool,
    pub mode: String,
    pub parameter_values: Vec<TrackingParam>,
}

pub ghost struct InjectParamsV {
    pub face_found: bool,
    pub mode: Seq<char>,
    pub parameter_values: Seq<TrackingParamV>,
}

/// The views of a sequence of tracking parameters, element-wise.
pub open spec fn spec_params_view(s: Seq<TrackingParam>) -> Seq<TrackingParamV> {
    Seq::new(s.len(), |i: int| s[i]@)
}

/// The views of a sequence of registration payloads, element-wise.
pub open spec fn spec_creations_view(s: Seq<ParameterCreation>) -> Seq<ParameterCreationV> {
    Seq::new(s.len(), |i: int| s[i]@)
}

/// Taking views commutes with appending one element.
pub proof fn lemma_creations_view_push(s: Seq<ParameterCreation>, e: ParameterCreation)
    ensures
        spec_creations_view(s.push(e)) == spec_creations_view(s).push(e@),
{
    assert(spec_creations_view(s.push(e)) =~= spec_creations_view(s).push(e@));
}

impl View for InjectParams {
    type V = InjectParamsV;

    open spec fn view(&self) -> InjectParamsV {
        InjectParamsV {
            face_found: self.face_found,
            mode: self.mode@,
            parameter_values: spec_params_view(self.parameter_values@),
        }
    }
}

/// A request the client can send, one variant per recognized request
/// `messageType`.
pub enum OutboundMsg {
    ApiState,
    TokenRequest(AuthToken),
    AuthRequest(Auth),
    CreateParameter(ParameterCreation),
    Inject(InjectParams),
}

pub ghost enum MsgV {
    ApiState,
    TokenRequest(AuthTokenV),
    AuthRequest(AuthV),
    CreateParameter(ParameterCreationV),
    Inject(InjectParamsV),
}

impl View for OutboundMsg {
    type V = MsgV;

    open spec fn view(&self) -> MsgV {
        match self {
            OutboundMsg::ApiState => MsgV::ApiState,
            OutboundMsg::TokenRequest(t) => MsgV::TokenRequest(t@),
            OutboundMsg::AuthRequest(a) => MsgV::AuthRequest(a@),
            OutboundMsg::CreateParameter(p) => MsgV::CreateParameter(p@),
            OutboundMsg::Inject(i) => MsgV::Inject(i@),
        }
    }
}

/// The `apiName` envelope field of every request.
pub fn api_name() -> (r: &'static str)
    ensures
        r@ == "VTubeStudioPublicAPI"@,
{
    "VTubeStudioPublicAPI"
}

/// The `apiVersion` envelope field of every request.
pub fn api_version() -> (r: &'static str)
    ensures
        r@ == "1.0"@,
{
    "1.0"
}

/// The fixed `requestID` envelope field of every request.
pub fn request_id() -> (r: &'static str)
    ensures
        r@ == "iiii"@,
{
    "iiii"
}

/// The `messageType` envelope field a request is tagged with.
pub open spec fn spec_message_type(m: MsgV) -> Seq<char> {
    match m {
        MsgV::ApiState => "APIStateRequest"@,
        MsgV::TokenRequest(_) => "AuthenticationTokenRequest"@,
        MsgV::AuthRequest(_) => "AuthenticationRequest"@,
        MsgV::CreateParameter(_) => "ParameterCreationRequest"@,
        MsgV::Inject(_) => "InjectParameterDataRequest"@,
    }
}

pub fn message_type(m: &OutboundMsg) -> (r: &'static str)
    ensures
        r@ == spec_message_type(m@),
{
    match m {
        OutboundMsg::ApiState => "APIStateRequest",
        OutboundMsg::TokenRequest(_) => "AuthenticationTokenRequest",
        OutboundMsg::AuthRequest(_) => "AuthenticationRequest",
        OutboundMsg::CreateParameter(_) => "ParameterCreationRequest",
        OutboundMsg::Inject(_) => "InjectParameterDataRequest",
    }
}

/// The token-request payload with this bridge's plugin identity.
pub fn token_request() -> (r: OutboundMsg)
    ensures
        r@ == spec_token_request(),
{
    OutboundMsg::TokenRequest(
        AuthToken {
            plugin_name: PLUGIN_NAME.to_owned(),
            plugin_developer: PLUGIN_DEVELOPER.to_owned(),
            plugin_icon: None,
        },
    )
}

pub open spec fn spec_token_request() -> MsgV {
    MsgV::TokenRequest(
        AuthTokenV {
            plugin_name: PLUGIN_NAME@,
            plugin_developer: PLUGIN_DEVELOPER@,
            plugin_icon: None,
        },
    )
}

/// The authentication payload carrying `token` and this bridge's plugin
/// identity.
pub fn auth_request(token: &String) -> (r: OutboundMsg)
    ensures
        r@ == spec_auth_request(token@),
{
    OutboundMsg::AuthRequest(
        Auth {
            plugin_name: PLUGIN_NAME.to_owned(),
            plugin_developer: PLUGIN_DEVELOPER.to_owned(),
            authentication_token: token.clone(),
        },
    )
}

pub open spec fn spec_auth_request(token: Seq<char>) -> MsgV {
    MsgV::AuthRequest(
        AuthV {
            plugin_name: PLUGIN_NAME@,
            plugin_developer: PLUGIN_DEVELOPER@,
            authentication_token: token,
        },
    )
}

/// The views of a sequence of outbound requests, element-wise.
pub open spec fn spec_msgs_view(s: Seq<OutboundMsg>) -> Seq<MsgV> {
    Seq::new(s.len(), |i: int| s[i]@)
}

/// Taking views commutes with appending one element.
pub proof fn lemma_msgs_view_push(s: Seq<OutboundMsg>, e: OutboundMsg)
    ensures
        spec_msgs_view(s.push(e)) == spec_msgs_view(s).push(e@),
{
    assert(spec_msgs_view(s.push(e)) =~= spec_msgs_view(s).push(e@));
}

/// Taking views commutes with dropping the front element.
pub proof fn lemma_msgs_view_drop_first(s: Seq<OutboundMsg>)
    requires
        s.len() > 0,
    ensures
        spec_msgs_view(s.remove(0)) == spec_msgs_view(s).drop_first(),
{
    assert(spec_msgs_view(s.remove(0)) =~= spec_msgs_view(s).drop_first());
}

/// Taking views commutes with putting one element at the front.
pub proof fn lemma_msgs_view_insert_front(s: Seq<OutboundMsg>, e: OutboundMsg)
    ensures
        spec_msgs_view(s.insert(0, e)) == seq![e@] + spec_msgs_view(s),
{
    assert(spec_msgs_view(s.insert(0, e)) =~= seq![e@] + spec_msgs_view(s));
}

/// A deep copy, for retransmitting a queued request verbatim.
impl OutboundMsg {
    pub fn duplicate(&self) -> (r: OutboundMsg)
        ensures
            r@ == self@,
    {
        match self {
            OutboundMsg::ApiState => OutboundMsg::ApiState,
            OutboundMsg::TokenRequest(t) => OutboundMsg::TokenRequest(
                AuthToken {
                    plugin_name: t.plugin_name.clone(),
                    plugin_developer: t.plugin_developer.clone(),
                    plugin_icon: match &t.plugin_icon {
                        Some(s) => Some(s.clone()),
                        None => None,
                    },
                },
            ),
            OutboundMsg::AuthRequest(a) => OutboundMsg::AuthRequest(
                Auth {
                    plugin_name: a.plugin_name.clone(),
                    plugin_developer: a.plugin_developer.clone(),
                    authentication_token: a.authentication_token.clone(),
                },
            ),
            OutboundMsg::CreateParameter(p) => OutboundMsg::CreateParameter(
                ParameterCreation {
                    parameter_name: p.parameter_name.clone(),
                    explanation: p.explanation.clone(),
                    min: p.min,
                    max: p.max,
                    default_value: p.default_value,
                },
            ),
            OutboundMsg::Inject(i) => OutboundMsg::Inject(duplicate_inject(i)),
        }
    }
}

impl ParameterCreation {
    /// A deep copy, for queueing a registration request built at startup.
    pub fn duplicate(&self) -> (r: ParameterCreation)
        ensures
            r@ == self@,
    {
        ParameterCreation {
            parameter_name: self.parameter_name.clone(),
            explanation: self.explanation.clone(),
            min: self.min,
            max: self.max,
            default_value: self.default_value,
        }
    }
}

fn duplicate_inject(i: &InjectParams) -> (r: InjectParams)
    ensures
        r@ == i@,
{
    let mut params: Vec<TrackingParam> = Vec::new();
    let mut k: usize = 0;
    while k < i.parameter_values.len()
        invariant
            k <= i.parameter_values.len(),
            params@.len() == k,
            forall|j: int| 0 <= j < k ==> params@[j]@ == i.parameter_values@[j]@,
        decreases i.parameter_values.len() - k,
    {
        let p = &i.parameter_values[k];
        params.push(TrackingParam { id: p.id.clone(), weight: p.weight, value: p.value });
        k = k + 1;
    }
    let r = InjectParams {
        face_found: i.face_found,
        mode: i.mode.clone(),
        parameter_values: params,
    };
    assert(r@.parameter_values =~= i@.parameter_values);
    r
}

} // verus!
