//! The streaming protocol: what the probe subscribes to, how an update is decoded, and what
//! the probe does with each frame it reads.
//!
//! Reading frames is left to the caller, who hands each frame to `StreamingProbe::on_frame`
//! together with the time elapsed since subscribing, and stops when told to.

use crate::model::{TeslaAccessToken, TeslaStreamingApiMessage, TeslaVehicle, TeslaVehicleStreamingData};
use crate::number::{fixed_point_value, parse_fixed_point};
use crate::text::{decimal_string, decimal_text, joined, owned, same_text};
use vstd::prelude::*;
use vstd::string::*;

verus! {

/// How many values an update of the subscribed fields carries: a timestamp, then the twelve
/// fields in the order they were asked for.
pub const UPDATE_FIELD_COUNT: usize = 13;

/// Where each value stands in an update.
pub const SPEED_INDEX: usize = 1;
pub const ODOMETER_INDEX: usize = 2;
pub const LATITUDE_INDEX: usize = 6;
pub const LONGITUDE_INDEX: usize = 7;
pub const POWER_INDEX: usize = 8;

/// Decimal places kept of coordinates (millionths of a degree).
pub const COORDINATE_PLACES: usize = 6;
/// Decimal places kept of power, speed and odometer (thousandths of kW, mph and miles).
pub const MEASURE_PLACES: usize = 3;

/// How long the probe waits for an update.
pub const PROBE_TIMEOUT_SECONDS: u64 = 30;

/// The positions of the commas in `s`, in increasing order.
pub open spec fn comma_positions(s: Seq<char>) -> Seq<int>
    decreases s.len(),
{
    if s.len() == 0 {
        Seq::empty()
    } else if s.last() == ',' {
        comma_positions(s.drop_last()).push(s.len() - 1)
    } else {
        comma_positions(s.drop_last())
    }
}

/// How many comma-separated fields `s` holds (an empty text holds one empty field).
pub open spec fn field_count(s: Seq<char>) -> int {
    comma_positions(s).len() + 1 as int
}

/// The `k`-th comma-separated field of `s`.
pub open spec fn field(s: Seq<char>, k: int) -> Seq<char> {
    let c = comma_positions(s);
    let start = if k == 0 { 0 } else { c[k - 1] + 1 };
    let end = if k < c.len() { c[k] } else { s.len() as int };
    s.subrange(start, end)
}

/// The number in `f` with `places` decimal places, or zero where `f` holds none.
pub open spec fn number_or_zero(f: Seq<char>, places: nat) -> int {
    match fixed_point_value(f, places) {
        Some(v) => v,
        None => 0,
    }
}

pub open spec fn abs(v: int) -> int {
    if v < 0 {
        -v
    } else {
        v
    }
}

/// The sample that the value list of an update stands for: `None` unless it holds exactly
/// `UPDATE_FIELD_COUNT` fields. A field that holds no number reads as zero; power is taken
/// as its absolute value.
pub open spec fn decoded_update(value: Seq<char>) -> Option<TeslaVehicleStreamingData> {
    if field_count(value) != UPDATE_FIELD_COUNT {
        None
    } else {
        Some(
            TeslaVehicleStreamingData {
                latitude: number_or_zero(field(value, 6), 6) as i64,
                longitude: number_or_zero(field(value, 7), 6) as i64,
                power: abs(number_or_zero(field(value, 8), 3)) as i64,
                speed: number_or_zero(field(value, 1), 3) as i64,
                odometer: number_or_zero(field(value, 2), 3) as i64,
            },
        )
    }
}

proof fn lemma_comma_positions(s: Seq<char>)
    ensures
        forall|k: int|
            0 <= k < comma_positions(s).len() ==> 0 <= #[trigger] comma_positions(s)[k] < s.len()
                && s[comma_positions(s)[k]] == ',',
        forall|k: int|
            0 <= k < comma_positions(s).len() - 1 ==> #[trigger] comma_positions(s)[k]
                < comma_positions(s)[k + 1],
    decreases s.len(),
{
    if s.len() > 0 {
        lemma_comma_positions(s.drop_last());
        let p = comma_positions(s.drop_last());
        assert forall|k: int| 0 <= k < p.len() implies s[p[k]] == ',' by {
            assert(s.drop_last()[p[k]] == ',');
        }
    }
}

/// The positions of the commas in `s`.
fn commas_of(s: &str) -> (r: Vec<usize>)
    ensures
        r@.len() == comma_positions(s@).len(),
        forall|k: int| 0 <= k < r@.len() ==> r@[k] as int == comma_positions(s@)[k],
{
    let n = s.unicode_len();
    let mut commas: Vec<usize> = Vec::new();
    let mut i: usize = 0;
    while i < n
        invariant
            n == s@.len(),
            i <= n,
            commas@.len() == comma_positions(s@.take(i as int)).len(),
            forall|k: int|
                0 <= k < commas@.len() ==> commas@[k] as int == comma_positions(
                    s@.take(i as int),
                )[k],
        decreases n - i,
    {
        proof {
            assert(s@.take(i + 1).drop_last() =~= s@.take(i as int));
        }
        if s.get_char(i) == ',' {
            commas.push(i);
        }
        i = i + 1;
    }
    proof {
        assert(s@.take(n as int) =~= s@);
    }
    commas
}

/// The number in field `k` of `s`, or zero.
fn field_number(s: &str, commas: &Vec<usize>, k: usize, places: usize) -> (r: i64)
    requires
        k < field_count(s@),
        commas@.len() == comma_positions(s@).len(),
        forall|j: int| 0 <= j < commas@.len() ==> commas@[j] as int == comma_positions(s@)[j],
    ensures
        r as int == number_or_zero(field(s@, k as int), places as nat),
        r > i64::MIN,
{
    let n = s.unicode_len();
    proof {
        lemma_comma_positions(s@);
    }
    let start: usize = if k == 0 { 0 } else { commas[k - 1] + 1 };
    let end: usize = if k < commas.len() { commas[k] } else { n };
    proof {
        if 0 < k && k < commas.len() {
            assert(comma_positions(s@)[k - 1] < comma_positions(s@)[k as int]);
        }
    }
    let f = s.substring_char(start, end);
    match parse_fixed_point(f, places) {
        Some(v) => v,
        None => 0,
    }
}

/// Decodes the value list of an update; `None` where it does not hold exactly
/// `UPDATE_FIELD_COUNT` fields.
pub fn decode_update(value: &str) -> (r: Option<TeslaVehicleStreamingData>)
    ensures
        r == decoded_update(value@),
{
    let commas = commas_of(value);
    if commas.len() != UPDATE_FIELD_COUNT - 1 {
        return None;
    }
    let latitude = field_number(value, &commas, LATITUDE_INDEX, COORDINATE_PLACES);
    let longitude = field_number(value, &commas, LONGITUDE_INDEX, COORDINATE_PLACES);
    let raw_power = field_number(value, &commas, POWER_INDEX, MEASURE_PLACES);
    let speed = field_number(value, &commas, SPEED_INDEX, MEASURE_PLACES);
    let odometer = field_number(value, &commas, ODOMETER_INDEX, MEASURE_PLACES);
    let power = if raw_power < 0 { -raw_power } else { raw_power };
    Some(TeslaVehicleStreamingData { latitude, longitude, power, speed, odometer })
}

/// What serde_json reads as the text of member `key` of the JSON object in `data`.
pub uninterp spec fn json_text_member(data: Seq<u8>, key: Seq<char>) -> Option<Seq<char>>;

pub open spec fn text_view(o: Option<String>) -> Option<Seq<char>> {
    match o {
        Some(t) => Some(t@),
        None => None,
    }
}

/// Relies on `serde_json::from_slice` into a `serde_json::Value`, read with `Value::get` and
/// `Value::as_str`: the text of member `key` where `data` is a JSON object whose member `key`
/// is a string, and nothing otherwise. The result depends on `data` and `key` alone.
#[verifier::external_body]
fn text_member(data: &[u8], key: &str) -> (r: Option<String>)
    ensures
        text_view(r) == json_text_member(data@, key@),
{
    match serde_json::from_slice::<serde_json::Value>(data) {
        Ok(v) => v.get(key).and_then(serde_json::Value::as_str).map(str::to_owned),
        Err(_) => None,
    }
}

/// Why a probe gave up.
pub enum StreamingError {
    /// No update came within the deadline, in seconds.
    TimedOut(u64),
    /// The server closed the connection.
    Closed,
    /// The server sent an error message, of the given type.
    DataError(String),
    /// The connection could not be made or read.
    Transport(String),
}

impl StreamingError {
    /// A line of text that says what went wrong.
    pub fn message(&self) -> (r: String)
        ensures
            *self is TimedOut ==> r@ == "timed out waiting for an update"@,
            *self is Closed ==> r@ == "received close message"@,
            *self matches StreamingError::DataError(t) ==> r@ == "received error message: "@ + t@,
            *self matches StreamingError::Transport(t) ==> r@ == "connection failed: "@ + t@,
    {
        proof {
            reveal_strlit("timed out waiting for an update");
            reveal_strlit("received close message");
            reveal_strlit("received error message: ");
            reveal_strlit("connection failed: ");
        }
        match self {
            StreamingError::TimedOut(_) => owned("timed out waiting for an update"),
            StreamingError::Closed => owned("received close message"),
            StreamingError::DataError(t) => joined(owned("received error message: "), t.as_str()),
            StreamingError::Transport(t) => joined(owned("connection failed: "), t.as_str()),
        }
    }
}

/// A frame read from the streaming connection.
pub enum StreamFrame {
    /// A text or binary frame, as bytes.
    Data(Vec<u8>),
    /// The server closed the connection.
    Close,
    /// Any other frame (ping, pong).
    Other,
}

/// What the probe does after a frame.
pub enum ProbeStep {
    /// Read the next frame.
    Continue,
    /// Stop: the update was received.
    Received(TeslaVehicleStreamingData),
    /// Stop: the probe failed.
    Failed(StreamingError),
}

/// One probe of the streaming API for one vehicle.
pub struct StreamingProbe {
    /// The tag that the vehicle's messages carry: its vehicle id in decimal.
    pub tag: String,
    /// How long to wait for an update.
    pub timeout_seconds: u64,
}

/// What the probe does with a message whose members `msg_type`, `tag`, `value` and
/// `error_type` are the given texts (`None` where a member is missing or is no string).
pub open spec fn envelope_step(
    r: ProbeStep,
    own_tag: Seq<char>,
    msg_type: Option<Seq<char>>,
    tag: Option<Seq<char>>,
    value: Option<Seq<char>>,
    error_type: Option<Seq<char>>,
) -> bool {
    if msg_type == Some("data:update"@) {
        if tag == Some(own_tag) && value is Some && decoded_update(value->0) is Some {
            r == ProbeStep::Received(decoded_update(value->0)->0)
        } else {
            r is Continue
        }
    } else if msg_type == Some("data:error"@) && (tag is None || tag == Some(own_tag)) {
        &&& r is Failed
        &&& r->Failed_0 is DataError
        &&& r->Failed_0->DataError_0@ == match error_type {
            Some(e) => e,
            None => Seq::empty(),
        }
    } else {
        r is Continue
    }
}

/// The fields the probe subscribes to, in the order an update carries them after its
/// timestamp.
pub open spec fn subscribed_fields() -> Seq<char> {
    "speed,odometer,soc,elevation,est_heading,est_lat,est_lng,power,shift_state,range,est_range,heading"@
}

impl StreamingProbe {
    /// A probe for `vehicle`, with the standard deadline.
    pub fn new(vehicle: &TeslaVehicle) -> (r: StreamingProbe)
        ensures
            r.tag@ == decimal_text(vehicle.vehicle_id as nat),
            r.timeout_seconds == PROBE_TIMEOUT_SECONDS,
    {
        StreamingProbe { tag: decimal_string(vehicle.vehicle_id), timeout_seconds: PROBE_TIMEOUT_SECONDS }
    }

    /// The message that subscribes to the vehicle's updates.
    pub fn subscribe_message(&self, token: &TeslaAccessToken) -> (r: TeslaStreamingApiMessage)
        ensures
            r.msg_type@ == "data:subscribe_oauth"@,
            r.tag@ == self.tag@,
            (r.token matches Some(t) && t@ == token.access_token@),
            r.value@ == subscribed_fields(),
    {
        proof {
            reveal_strlit("data:subscribe_oauth");
            reveal_strlit(
                "speed,odometer,soc,elevation,est_heading,est_lat,est_lng,power,shift_state,range,est_range,heading",
            );
        }
        TeslaStreamingApiMessage {
            msg_type: owned("data:subscribe_oauth"),
            tag: self.tag.clone(),
            token: Some(token.access_token.clone()),
            value: owned(
                "speed,odometer,soc,elevation,est_heading,est_lat,est_lng,power,shift_state,range,est_range,heading",
            ),
        }
    }

    /// The failure to report once `elapsed_seconds` have passed since subscribing, if the
    /// deadline is past.
    pub fn deadline_passed(&self, elapsed_seconds: u64) -> (r: Option<StreamingError>)
        ensures
            elapsed_seconds > self.timeout_seconds ==> (r matches Some(StreamingError::TimedOut(
                s,
            )) && s == self.timeout_seconds),
            elapsed_seconds <= self.timeout_seconds ==> r is None,
    {
        if elapsed_seconds > self.timeout_seconds {
            Some(StreamingError::TimedOut(self.timeout_seconds))
        } else {
            None
        }
    }

    /// What to do with a message whose members are the given texts. Messages for another
    /// vehicle, updates of the wrong shape and messages of other types are passed over; an
    /// error message ends the probe.
    pub fn on_envelope(
        &self,
        msg_type: Option<String>,
        tag: Option<String>,
        value: Option<String>,
        error_type: Option<String>,
    ) -> (r: ProbeStep)
        ensures
            envelope_step(
                r,
                self.tag@,
                text_view(msg_type),
                text_view(tag),
                text_view(value),
                text_view(error_type),
            ),
    {
        proof {
            reveal_strlit("data:update");
            reveal_strlit("data:error");
        }
        match msg_type {
            Some(t) => {
                if same_text(t.as_str(), "data:update") {
                    match (tag, value) {
                        (Some(g), Some(v)) => {
                            if same_text(g.as_str(), self.tag.as_str()) {
                                match decode_update(v.as_str()) {
                                    Some(d) => ProbeStep::Received(d),
                                    None => ProbeStep::Continue,
                                }
                            } else {
                                ProbeStep::Continue
                            }
                        },
                        _ => ProbeStep::Continue,
                    }
                } else if same_text(t.as_str(), "data:error") {
                    let for_other_vehicle = match &tag {
                        Some(g) => !same_text(g.as_str(), self.tag.as_str()),
                        None => false,
                    };
                    if for_other_vehicle {
                        return ProbeStep::Continue;
                    }
                    let e = match error_type {
                        Some(e) => e,
                        None => String::new(),
                    };
                    ProbeStep::Failed(StreamingError::DataError(e))
                } else {
                    ProbeStep::Continue
                }
            },
            None => ProbeStep::Continue,
        }
    }

    /// What to do with a frame read from the connection. A close frame ends the probe; a
    /// data frame is read as a JSON message; any other frame, and data that is no JSON
    /// object, is passed over.
    pub fn on_frame(&self, frame: &StreamFrame) -> (r: ProbeStep)
        ensures
            frame is Close ==> r matches ProbeStep::Failed(StreamingError::Closed),
            frame is Other ==> r is Continue,
            frame matches StreamFrame::Data(bytes) ==> envelope_step(
                r,
                self.tag@,
                json_text_member(bytes@, "msg_type"@),
                json_text_member(bytes@, "tag"@),
                json_text_member(bytes@, "value"@),
                json_text_member(bytes@, "error_type"@),
            ),
    {
        match frame {
            StreamFrame::Data(bytes) => {
                let msg_type = text_member(bytes.as_slice(), "msg_type");
                let tag = text_member(bytes.as_slice(), "tag");
                let value = text_member(bytes.as_slice(), "value");
                let error_type = text_member(bytes.as_slice(), "error_type");
                self.on_envelope(msg_type, tag, value, error_type)
            },
            StreamFrame::Close => ProbeStep::Failed(StreamingError::Closed),
            StreamFrame::Other => ProbeStep::Continue,
        }
    }
}

} // verus!
