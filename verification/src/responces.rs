//! Responses the host sends back, decoded at the socket into one closed set
//! of variants before they reach the client state machine.

use vstd::prelude::*;

verus! {

/// Host error code: a custom parameter of that name already exists.
/// Registration treats it as success.
pub const ERROR_PARAMETER_EXISTS: u16 = 352;

/// Host error code: the custom parameter is already at its default.
/// Registration treats it as success.
pub const ERROR_PARAMETER_DEFAULT: u16 = 354;

/// Host error code: an injection request carried no parameter values.
/// Informational, not an error.
pub const ERROR_NO_DATA_SENT: u16 = 450;

/// Host error code: the request needs an authenticated session.
pub const ERROR_REQUIRES_AUTHENTICATION: u16 = 8;

/// Host error code: the host is waiting on a user popup.
pub const ERROR_POPUP_PENDING: u16 = 51;

/// The host's UDP discovery broadcast: only `port` is consumed.
pub struct Discovery {
    pub active: bool,
    pub port: u16,
    pub instance_id: String,
    pub window_title: String,
}

impl Discovery {
    /// The WebSocket port the host advertises.
    pub fn advertised_port(&self) -> (r: u16)
        ensures
            r == self.port,
    {
        self.port
    }
}

/// Payload of an `APIStateResponse`.
pub struct APIStateResponse {
    pub active: bool,
    pub v_tube_studio_version: String,
    pub current_session_authenticated: bool,
}

/// Payload of an `AuthenticationTokenResponse`.
pub struct AuthenticationToken {
    pub authentication_token: String,
}

/// Payload of an `AuthenticationResponse`.
pub struct AuthenticationResponse {
    pub authenticated: bool,
    pub reason: String,
}

/// Payload of an `APIError` response.
pub struct APIError {
    pub error_id: u16,
    pub message: String,
}

/// One message read from the host, one variant per recognized response
/// `messageType`, plus ping/pong control frames and a catch-all for tags
/// this client does not know.
pub enum HostResponse {
    ApiState(APIStateResponse),
    TokenIssued(AuthenticationToken),
    AuthResult(AuthenticationResponse),
    ParameterCreated,
    InjectResult,
    ApiError(APIError),
    Control,
    Unknown(String),
}

pub ghost enum HostResponseV {
    ApiState { active: bool, version: Seq<char>, authenticated: bool },
    TokenIssued { token: Seq<char> },
    AuthResult { authenticated: bool, reason: Seq<char> },
    ParameterCreated,
    InjectResult,
    ApiError { error_id: u16, message: Seq<char> },
    Control,
    Unknown { message_type: Seq<char> },
}

impl View for HostResponse {
    type V = HostResponseV;

    open spec fn view(&self) -> HostResponseV {
        match self {
            HostResponse::ApiState(s) => HostResponseV::ApiState {
                active: s.active,
                version: s.v_tube_studio_version@,
                authenticated: s.current_session_authenticated,
            },
            HostResponse::TokenIssued(t) => HostResponseV::TokenIssued {
                token: t.authentication_token@,
            },
            HostResponse::AuthResult(a) => HostResponseV::AuthResult {
                authenticated: a.authenticated,
                reason: a.reason@,
            },
            HostResponse::ParameterCreated => HostResponseV::ParameterCreated,
            HostResponse::InjectResult => HostResponseV::InjectResult,
            HostResponse::ApiError(e) => HostResponseV::ApiError {
                error_id: e.error_id,
                message: e.message@,
            },
            HostResponse::Control => HostResponseV::Control,
            HostResponse::Unknown(m) => HostResponseV::Unknown { message_type: m@ },
        }
    }
}

/// Whether a host error code means a registration entry is already in place
/// and the queue may advance past it.
pub open spec fn spec_registration_satisfied(error_id: u16) -> bool {
    error_id == ERROR_PARAMETER_EXISTS || error_id == ERROR_PARAMETER_DEFAULT
}

pub fn registration_satisfied(error_id: u16) -> (r: bool)
    ensures
        r == spec_registration_satisfied(error_id),
{
    error_id == ERROR_PARAMETER_EXISTS || error_id == ERROR_PARAMETER_DEFAULT
}

} // verus!
