//! The tracking side: the frame a phone datagram decodes into, and the
//! request datagram text that asks the phone to stream tracking data.
//!
//! The socket loop itself (bind, periodic send, receive with timeout,
//! decode) lives outside the library; it hands every well-formed frame to
//! the client through the latest-wins slot. Scalars are double bit patterns
//! (see `value_bits`).

use vstd::prelude::*;

verus! {

/// The fixed UDP port the phone listens on for tracking requests.
pub const PHONE_TRACKING_PORT: u16 = 21412;

/// How many seconds of streaming one request asks for. The request is
/// re-sent every `REQUEST_INTERVAL_SECS`, well inside this window.
pub const SEND_FOR_SECONDS: u64 = 10;

/// How often the tracking request is re-sent, in seconds.
pub const REQUEST_INTERVAL_SECS: u64 = 1;

/// The read timeout on the tracking socket, in seconds, so the send timer
/// and the stop flag are observed even when no datagram arrives.
pub const READ_TIMEOUT_SECS: u64 = 2;

/// A 3-vector of double bit patterns.
pub struct Cords {
    pub x: u64,
    pub y: u64,
    pub z: u64,
}

pub ghost struct CordsV {
    pub x: u64,
    pub y: u64,
    pub z: u64,
}

impl View for Cords {
    type V = CordsV;

    open spec fn view(&self) -> CordsV {
        CordsV { x: self.x, y: self.y, z: self.z }
    }
}

/// One named blend-shape weight reported by the phone.
pub struct Shape {
    pub k: String,
    pub v: u64,
}

pub ghost struct ShapeV {
    pub k: Seq<char>,
    pub v: u64,
}

impl View for Shape {
    type V = ShapeV;

    open spec fn view(&self) -> ShapeV {
        ShapeV { k: self.k@, v: self.v }
    }
}

/// One decoded tracking datagram. Immutable once constructed; consumed by
/// one mapping pass. Blend-shape names are not guaranteed unique.
pub struct TrackingResponce {
    pub timestamp: u64,
    pub hotkey: i16,
    pub face_found: bool,
    pub rotation: Cords,
    pub position: Cords,
    pub eye_left: Cords,
    pub blend_shapes: Vec<Shape>,
}

pub ghost struct FrameV {
    pub timestamp: u64,
    pub hotkey: i16,
    pub face_found: bool,
    pub rotation: CordsV,
    pub position: CordsV,
    pub eye_left: CordsV,
    pub blend_shapes: Seq<ShapeV>,
}

impl View for TrackingResponce {
    type V = FrameV;

    open spec fn view(&self) -> FrameV {
        FrameV {
            timestamp: self.timestamp,
            hotkey: self.hotkey,
            face_found: self.face_found,
            rotation: self.rotation@,
            position: self.position@,
            eye_left: self.eye_left@,
            blend_shapes: Seq::new(self.blend_shapes@.len(), |i: int| self.blend_shapes@[i]@),
        }
    }
}

/// The decimal digit character for `d` < 10.
pub open spec fn digit_char(d: nat) -> char {
    if d == 0 {
        '0'
    } else if d == 1 {
        '1'
    } else if d == 2 {
        '2'
    } else if d == 3 {
        '3'
    } else if d == 4 {
        '4'
    } else if d == 5 {
        '5'
    } else if d == 6 {
        '6'
    } else if d == 7 {
        '7'
    } else if d == 8 {
        '8'
    } else {
        '9'
    }
}

/// The decimal digits of `n`, most significant first, no leading zeros
/// (zero itself is the single digit 0).
pub open spec fn spec_decimal(n: nat) -> Seq<char>
    decreases n,
{
    if n < 10 {
        seq![digit_char(n)]
    } else {
        spec_decimal(n / 10) + seq![digit_char(n % 10)]
    }
}

fn digit_str(d: u16) -> (r: &'static str)
    requires
        d < 10,
    ensures
        r@ == seq![digit_char(d as nat)],
{
    proof {
        reveal_strlit("0");
        reveal_strlit("1");
        reveal_strlit("2");
        reveal_strlit("3");
        reveal_strlit("4");
        reveal_strlit("5");
        reveal_strlit("6");
        reveal_strlit("7");
        reveal_strlit("8");
        reveal_strlit("9");
    }
    let r = if d == 0 {
        "0"
    } else if d == 1 {
        "1"
    } else if d == 2 {
        "2"
    } else if d == 3 {
        "3"
    } else if d == 4 {
        "4"
    } else if d == 5 {
        "5"
    } else if d == 6 {
        "6"
    } else if d == 7 {
        "7"
    } else if d == 8 {
        "8"
    } else {
        "9"
    };
    assert(r@ =~= seq![digit_char(d as nat)]);
    r
}

/// `n` written in decimal.
pub fn decimal_string(n: u16) -> (r: String)
    ensures
        r@ == spec_decimal(n as nat),
    decreases n,
{
    if n < 10 {
        digit_str(n).to_owned()
    } else {
        let mut s = decimal_string(n / 10);
        s.append(digit_str(n % 10));
        s
    }
}

/// The text of the UDP datagram that asks the phone to stream tracking data
/// back to `port` for `SEND_FOR_SECONDS` seconds.
pub open spec fn spec_tracking_request(port: u16) -> Seq<char> {
    "{\"messageType\":\"iOSTrackingDataRequest\",\"sentBy\":\"RustyBridge\",\"sendForSeconds\":10,\"ports\":["@
        + spec_decimal(port as nat) + "]}"@
}

/// The marker type for the tracking side; the socket loop around it lives
/// outside the library.
pub struct VtsPhone;

impl VtsPhone {
    /// Build the tracking request datagram naming the local port the phone
    /// should stream back to.
    pub fn request_text(port: u16) -> (r: String)
        ensures
            r@ == spec_tracking_request(port),
    {
        let mut s = String::from_str(
            "{\"messageType\":\"iOSTrackingDataRequest\",\"sentBy\":\"RustyBridge\",\"sendForSeconds\":10,\"ports\":[",
        );
        let digits = decimal_string(port);
        s.append(digits.as_str());
        s.append("]}");
        s
    }
}

} // verus!
