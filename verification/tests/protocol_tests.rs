use rusty_bridge::config::{is_builtin_param, prepare_config, ParameterDefinition};
use rusty_bridge::requests::{api_name, api_version, message_type, request_id, OutboundMsg};
use rusty_bridge::responces::{
    APIError, APIStateResponse, AuthenticationResponse, AuthenticationToken, Discovery,
    HostResponse, ERROR_NO_DATA_SENT, ERROR_PARAMETER_DEFAULT, ERROR_PARAMETER_EXISTS,
};
use rusty_bridge::slot::LatestSlot;
use rusty_bridge::value_bits::{clamp_bits, CLAMP_MAX_BITS, CLAMP_MIN_BITS};
use rusty_bridge::vtspc::{Action, ConnectionState, VtsPc, VtsError, DEFAULT_WS_PORT};
use rusty_bridge::vtsphone::{Cords, Shape, TrackingResponce, VtsPhone};

fn defs(entries: &[(&str, &str)]) -> Vec<ParameterDefinition> {
    entries
        .iter()
        .map(|(name, func)| ParameterDefinition {
            name: name.to_string(),
            func: func.to_string(),
            min: 0f64.to_bits(),
            max: 1f64.to_bits(),
            default_value: 0f64.to_bits(),
        })
        .collect()
}

fn frame(face_found: bool, shapes: &[(&str, f64)]) -> TrackingResponce {
    TrackingResponce {
        timestamp: 1,
        hotkey: -1,
        face_found,
        rotation: Cords { x: 0f64.to_bits(), y: 0f64.to_bits(), z: 0f64.to_bits() },
        position: Cords { x: 0f64.to_bits(), y: 0f64.to_bits(), z: 0f64.to_bits() },
        eye_left: Cords { x: 0f64.to_bits(), y: 0f64.to_bits(), z: 0f64.to_bits() },
        blend_shapes: shapes
            .iter()
            .map(|(k, v)| Shape { k: k.to_string(), v: v.to_bits() })
            .collect(),
    }
}

fn api_state_response(authenticated: bool) -> HostResponse {
    HostResponse::ApiState(APIStateResponse {
        active: true,
        v_tube_studio_version: "1.0.0".to_string(),
        current_session_authenticated: authenticated,
    })
}

fn auth_result(authenticated: bool) -> HostResponse {
    HostResponse::AuthResult(AuthenticationResponse {
        authenticated,
        reason: String::new(),
    })
}

fn api_error(error_id: u16) -> HostResponse {
    HostResponse::ApiError(APIError { error_id, message: String::new() })
}

fn client(entries: &[(&str, &str)], token: Option<&str>) -> VtsPc {
    let prepared = prepare_config(&defs(entries)).ok().unwrap();
    VtsPc::new(prepared, token.map(|t| t.to_string()))
}

#[test]
fn fresh_client_is_disconnected() {
    let c = client(&[("Smile", "MouthSmile*2")], None);
    assert_eq!(c.state(), ConnectionState::Disconnected);
    assert_eq!(c.ws_port(), DEFAULT_WS_PORT);
    assert!(!c.is_in_flight());
    assert_eq!(c.pending_len(), 0);
}

#[test]
fn discovery_moves_the_port() {
    let mut c = client(&[], None);
    c.on_discovery(&Discovery {
        active: true,
        port: 8123,
        instance_id: String::new(),
        window_title: String::new(),
    });
    assert_eq!(c.ws_port(), 8123);
}

#[test]
fn only_one_request_in_flight() {
    let mut c = client(&[("Smile", "MouthSmile*2")], Some("TOK"));
    c.on_connected();
    let first = c.poll_send(None);
    assert!(matches!(first, Some(OutboundMsg::ApiState)));
    // The response has not arrived: a second poll must not send.
    assert!(c.poll_send(None).is_none());
    // A ping does not count as the response.
    let actions = c.on_response(&HostResponse::Control);
    assert!(actions.is_empty());
    assert!(c.poll_send(None).is_none());
    // The substantive response frees the slot.
    c.on_response(&api_state_response(true));
    assert!(!c.is_in_flight());
}

#[test]
fn token_scenario_persists_before_auth() {
    let mut c = client(&[("Smile", "MouthSmile*2")], None);
    c.on_connected();
    assert!(matches!(c.poll_send(None), Some(OutboundMsg::ApiState)));
    c.on_response(&api_state_response(false));
    assert_eq!(c.state(), ConnectionState::AwaitingToken);
    match c.poll_send(None) {
        Some(OutboundMsg::TokenRequest(t)) => {
            assert_eq!(t.plugin_name, "RustyBridgeUi");
            assert_eq!(t.plugin_developer, "ovROG");
        }
        other => panic!("expected a token request, got {:?}", other.is_some()),
    }
    let actions = c.on_response(&HostResponse::TokenIssued(AuthenticationToken {
        authentication_token: "T1".to_string(),
    }));
    // The persist action is handed out with this transition, before any
    // later poll can send the authentication request that relies on it.
    assert_eq!(actions.len(), 1);
    match &actions[0] {
        Action::PersistToken(t) => assert_eq!(t, "T1"),
        Action::DeleteTokenFile => panic!("expected a persist action"),
    }
    assert!(c.has_token());
    match c.poll_send(None) {
        Some(OutboundMsg::AuthRequest(a)) => {
            assert_eq!(a.authentication_token, "T1");
        }
        _ => panic!("expected the authentication request"),
    }
}

#[test]
fn auth_rejection_clears_the_token() {
    let mut c = client(&[], Some("STALE"));
    c.on_connected();
    assert!(matches!(c.poll_send(None), Some(OutboundMsg::ApiState)));
    c.on_response(&api_state_response(false));
    assert_eq!(c.state(), ConnectionState::AwaitingAuth);
    match c.poll_send(None) {
        Some(OutboundMsg::AuthRequest(a)) => assert_eq!(a.authentication_token, "STALE"),
        _ => panic!("expected the authentication request"),
    }
    let actions = c.on_response(&auth_result(false));
    assert_eq!(actions.len(), 1);
    assert!(matches!(actions[0], Action::DeleteTokenFile));
    assert!(!c.has_token());
    assert_eq!(c.state(), ConnectionState::AwaitingToken);
    // The next request is the token request, never the stale token again.
    assert!(matches!(c.poll_send(None), Some(OutboundMsg::TokenRequest(_))));
}

#[test]
fn conflict_error_advances_registration() {
    let mut c = client(&[("CustomA", "MouthSmile*1.0"), ("CustomB", "MouthOpen*1.0")], Some("T"));
    c.on_connected();
    assert!(matches!(c.poll_send(None), Some(OutboundMsg::ApiState)));
    c.on_response(&api_state_response(true));
    assert_eq!(c.state(), ConnectionState::Registering);
    match c.poll_send(None) {
        Some(OutboundMsg::CreateParameter(p)) => assert_eq!(p.parameter_name, "CustomA"),
        _ => panic!("expected the first registration"),
    }
    // The host says the parameter already exists: advance, do not retry.
    c.on_response(&api_error(ERROR_PARAMETER_EXISTS));
    match c.poll_send(None) {
        Some(OutboundMsg::CreateParameter(p)) => assert_eq!(p.parameter_name, "CustomB"),
        _ => panic!("expected the second registration"),
    }
    c.on_response(&api_error(ERROR_PARAMETER_DEFAULT));
    assert_eq!(c.state(), ConnectionState::Streaming);
}

#[test]
fn unknown_error_leaves_the_entry_queued() {
    let mut c = client(&[("CustomA", "MouthSmile*1.0")], Some("T"));
    c.on_connected();
    assert!(matches!(c.poll_send(None), Some(OutboundMsg::ApiState)));
    c.on_response(&api_state_response(true));
    assert_eq!(c.pending_len(), 1);
    match c.poll_send(None) {
        Some(OutboundMsg::CreateParameter(p)) => assert_eq!(p.parameter_name, "CustomA"),
        _ => panic!("expected the registration"),
    }
    c.on_response(&api_error(999));
    assert_eq!(c.pending_len(), 1);
    // The same entry goes out again, verbatim.
    match c.poll_send(None) {
        Some(OutboundMsg::CreateParameter(p)) => assert_eq!(p.parameter_name, "CustomA"),
        _ => panic!("expected the same registration again"),
    }
}

#[test]
fn streaming_injects_and_clears_on_face_loss() {
    let mut c = client(&[("Smile", "MouthSmile*2")], Some("T"));
    c.on_connected();
    assert!(matches!(c.poll_send(None), Some(OutboundMsg::ApiState)));
    c.on_response(&api_state_response(true));
    // "Smile" is not builtin, so one registration is queued.
    assert!(matches!(c.poll_send(None), Some(OutboundMsg::CreateParameter(_))));
    c.on_response(&HostResponse::ParameterCreated);
    assert_eq!(c.state(), ConnectionState::Streaming);
    // No frame, nothing to send.
    assert!(c.poll_send(None).is_none());
    let f = frame(true, &[("MouthSmile", 0.4)]);
    match c.poll_send(Some(&f)) {
        Some(OutboundMsg::Inject(i)) => {
            assert!(i.face_found);
            assert_eq!(i.mode, "set");
            assert_eq!(i.parameter_values.len(), 1);
            assert_eq!(i.parameter_values[0].id, "Smile");
            assert_eq!(f64::from_bits(i.parameter_values[0].value), 0.8);
        }
        _ => panic!("expected an injection"),
    }
    c.on_response(&HostResponse::InjectResult);
    // The face is gone: one clearing injection, then silence.
    let lost = frame(false, &[]);
    match c.poll_send(Some(&lost)) {
        Some(OutboundMsg::Inject(i)) => {
            assert!(!i.face_found);
            assert!(i.parameter_values.is_empty());
        }
        _ => panic!("expected the clearing injection"),
    }
    c.on_response(&HostResponse::InjectResult);
    assert!(c.poll_send(Some(&lost)).is_none());
}

#[test]
fn no_data_error_changes_nothing_while_streaming() {
    let mut c = client(&[], Some("T"));
    c.on_connected();
    assert!(matches!(c.poll_send(None), Some(OutboundMsg::ApiState)));
    c.on_response(&api_state_response(true));
    assert_eq!(c.state(), ConnectionState::Streaming);
    c.on_response(&api_error(ERROR_NO_DATA_SENT));
    assert_eq!(c.state(), ConnectionState::Streaming);
    assert_eq!(c.pending_len(), 0);
}

#[test]
fn reconnect_resumes_streaming_idempotently() {
    let mut c = client(&[("CustomA", "MouthSmile*1.0")], Some("T"));
    c.on_connected();
    assert!(matches!(c.poll_send(None), Some(OutboundMsg::ApiState)));
    c.on_response(&api_state_response(true));
    assert!(matches!(c.poll_send(None), Some(OutboundMsg::CreateParameter(_))));
    c.on_response(&HostResponse::ParameterCreated);
    assert_eq!(c.state(), ConnectionState::Streaming);
    // The read fails mid-stream: back to square one.
    c.on_disconnected();
    assert_eq!(c.state(), ConnectionState::Disconnected);
    assert_eq!(c.pending_len(), 0);
    assert!(!c.is_in_flight());
    // A fresh cycle: the parameter already exists on the host, which must
    // be tolerated, not fatal.
    c.on_connected();
    assert!(matches!(c.poll_send(None), Some(OutboundMsg::ApiState)));
    c.on_response(&api_state_response(true));
    assert!(matches!(c.poll_send(None), Some(OutboundMsg::CreateParameter(_))));
    c.on_response(&api_error(ERROR_PARAMETER_EXISTS));
    assert_eq!(c.state(), ConnectionState::Streaming);
    let f = frame(true, &[("MouthSmile", 0.5)]);
    assert!(matches!(c.poll_send(Some(&f)), Some(OutboundMsg::Inject(_))));
}

#[test]
fn latest_wins_slot_keeps_only_the_second_frame() {
    let mut slot: LatestSlot<TrackingResponce> = LatestSlot::new();
    assert!(!slot.is_full());
    let mut f1 = frame(true, &[]);
    f1.timestamp = 1;
    let mut f2 = frame(true, &[]);
    f2.timestamp = 2;
    slot.publish(f1);
    slot.publish(f2);
    let got = slot.take().unwrap();
    assert_eq!(got.timestamp, 2);
    assert!(slot.take().is_none());
}

#[test]
fn envelope_fields_match_the_api() {
    assert_eq!(api_name(), "VTubeStudioPublicAPI");
    assert_eq!(api_version(), "1.0");
    assert_eq!(request_id(), "iiii");
    assert_eq!(message_type(&OutboundMsg::ApiState), "APIStateRequest");
    let mut c = client(&[], None);
    c.on_connected();
    let m = c.poll_send(None).unwrap();
    assert_eq!(message_type(&m), "APIStateRequest");
}

#[test]
fn builtin_names_need_no_registration() {
    assert!(is_builtin_param(&"MouthSmile".to_string()));
    assert!(is_builtin_param(&"VoiceFrequencyPlusMouthSmile".to_string()));
    assert!(!is_builtin_param(&"Smile".to_string()));
    let prepared = prepare_config(&defs(&[("MouthSmile", "MouthSmile*1.0")])).ok().unwrap();
    assert!(prepared.registrations.is_empty());
    assert_eq!(prepared.transforms.len(), 1);
}

#[test]
fn broken_formula_names_the_parameter() {
    let e = prepare_config(&defs(&[("Good", "MouthSmile*1.0"), ("Bad", "((")]))
        .err()
        .unwrap();
    assert_eq!(e.name, "Bad");
    assert_eq!(e.func, "((");
}

#[test]
fn clamp_bits_matches_float_clamp() {
    for v in [0.0f64, 0.5, -0.5, 1000000.0, -1000000.0, 2000000.0, -2000000.0, f64::INFINITY,
        f64::NEG_INFINITY, 1e300, -1e300]
    {
        let clamped = f64::from_bits(clamp_bits(v.to_bits()));
        assert_eq!(clamped, v.clamp(-1000000.0, 1000000.0));
    }
    assert!(f64::from_bits(clamp_bits(f64::NAN.to_bits())).is_nan());
    assert_eq!(f64::from_bits(CLAMP_MAX_BITS), 1000000.0);
    assert_eq!(f64::from_bits(CLAMP_MIN_BITS), -1000000.0);
}

#[test]
fn error_lines_are_fixed() {
    assert_eq!(VtsError::NoWebSocket.describe(), "no open connection");
    assert_eq!(VtsError::UnableToRead.describe(), "unable to read");
}

#[test]
fn tracking_request_is_well_formed_json() {
    let txt = VtsPhone::request_text(21412);
    let v: serde_json::Value = serde_json::from_str(&txt).unwrap();
    assert_eq!(v["messageType"], "iOSTrackingDataRequest");
    assert_eq!(v["sentBy"], "RustyBridge");
    assert_eq!(v["sendForSeconds"], 10);
    assert_eq!(v["ports"][0], 21412);
}
