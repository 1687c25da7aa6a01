//! The data that the telemetry API hands out and that a cycle is configured with.
//!
//! Quantities are whole numbers in fixed units: coordinates in millionths of a degree,
//! power in watts, energy in watt-hours, speed and distance in thousandths of a mile (per
//! hour).

use crate::text::{same_text, owned};
use vstd::prelude::*;

verus! {

/// A named circular region. Its centre is in millionths of a degree.
pub struct GeofenceConfig {
    pub location: String,
    pub latitude: i64,
    pub longitude: i64,
    pub geofence_radius_meters: u64,
}

/// What a measurement cycle is configured with.
pub struct Config {
    pub refresh_token: String,
    pub geofences: Vec<GeofenceConfig>,
    pub vehicle_ids: Vec<String>,
}

/// The body of the request that exchanges a refresh token for an access token.
pub struct TeslaAccessTokenRequest {
    pub grant_type: String,
    pub scope: String,
    pub client_id: String,
    pub refresh_token: String,
}

/// A bearer token, valid for one cycle.
pub struct TeslaAccessToken {
    pub access_token: String,
    pub token_type: String,
    pub expires_in: usize,
}

/// The envelope around every answer of the REST API.
pub struct TeslaApiResponse<T> {
    pub response: T,
}

/// The state that the API reports for a vehicle; a state it does not know keeps its raw text.
#[derive(PartialEq, Eq, Debug)]
pub enum TeslaVehicleState {
    Offline,
    Online,
    Asleep,
    Updating,
    Other(String),
}

/// What `TeslaVehicleState::from` makes of the text `t`.
pub open spec fn state_matches_text(r: TeslaVehicleState, t: Seq<char>) -> bool {
    if t == "offline"@ {
        r is Offline
    } else if t == "online"@ {
        r is Online
    } else if t == "asleep"@ {
        r is Asleep
    } else if t == "updating"@ {
        r is Updating
    } else {
        r is Other && r->Other_0@ == t
    }
}

impl TeslaVehicleState {
    /// Reads the state from the API's text; text that names no known state is kept as
    /// `Other`.
    pub fn from(s: String) -> (r: TeslaVehicleState)
        ensures
            state_matches_text(r, s@),
    {
        proof {
            reveal_strlit("offline");
            reveal_strlit("online");
            reveal_strlit("asleep");
            reveal_strlit("updating");
        }
        if same_text(s.as_str(), "offline") {
            TeslaVehicleState::Offline
        } else if same_text(s.as_str(), "online") {
            TeslaVehicleState::Online
        } else if same_text(s.as_str(), "asleep") {
            TeslaVehicleState::Asleep
        } else if same_text(s.as_str(), "updating") {
            TeslaVehicleState::Updating
        } else {
            TeslaVehicleState::Other(s)
        }
    }

    /// Whether this is the `Asleep` state.
    pub fn is_asleep(&self) -> (r: bool)
        ensures
            r == (*self is Asleep),
    {
        match self {
            TeslaVehicleState::Asleep => true,
            _ => false,
        }
    }

    /// Whether this is the `Offline` state.
    pub fn is_offline(&self) -> (r: bool)
        ensures
            r == (*self is Offline),
    {
        match self {
            TeslaVehicleState::Offline => true,
            _ => false,
        }
    }
}

/// A vehicle of the account, as the API lists it.
pub struct TeslaVehicle {
    pub id: usize,
    pub vehicle_id: usize,
    pub vin: String,
    pub display_name: Option<String>,
    pub state: TeslaVehicleState,
    pub in_service: bool,
}

/// One decoded streaming update.
///
/// `latitude` and `longitude` are in millionths of a degree, `power` in watts and never
/// negative, `speed` in thousandths of a mile per hour, `odometer` in thousandths of a mile.
pub struct TeslaVehicleStreamingData {
    pub latitude: i64,
    pub longitude: i64,
    pub power: i64,
    pub speed: i64,
    pub odometer: i64,
}

/// Whether a point whose distance to the centre of `geofence` is `distance_meters` lies in
/// it. The distance is in whole meters, rounded down, and is absent where it could not be
/// computed; the point lies inside when the distance is strictly less than the radius.
pub open spec fn inside(geofence: GeofenceConfig, distance_meters: Option<u64>) -> bool {
    match distance_meters {
        Some(d) => d < geofence.geofence_radius_meters,
        None => false,
    }
}

/// The first geofence, in list order, that the point lies in.
pub open spec fn first_geofence(
    geofences: Seq<GeofenceConfig>,
    distances: Seq<Option<u64>>,
) -> Option<int>
    decreases geofences.len(),
{
    if geofences.len() == 0 || distances.len() == 0 {
        None
    } else if inside(geofences[0], distances[0]) {
        Some(0)
    } else {
        match first_geofence(geofences.drop_first(), distances.drop_first()) {
            Some(i) => Some(i + 1),
            None => None,
        }
    }
}

impl TeslaVehicleStreamingData {
    /// Whether this position lies in `geofence`, given its distance to the geofence's centre.
    pub fn inside_geofence(&self, geofence: &GeofenceConfig, distance_meters: Option<u64>) -> (r:
        bool)
        ensures
            r == inside(*geofence, distance_meters),
    {
        match distance_meters {
            Some(d) => d < geofence.geofence_radius_meters,
            None => false,
        }
    }

    /// The index of the first geofence in `geofences` that this position lies in, given its
    /// distance to each geofence's centre (`distances[i]` to `geofences[i]`).
    pub fn in_geofence(
        &self,
        geofences: &Vec<GeofenceConfig>,
        distances: &Vec<Option<u64>>,
    ) -> (r: Option<usize>)
        requires
            geofences.len() == distances.len(),
        ensures
            r matches Some(i) ==> first_geofence(geofences@, distances@) == Some(i as int),
            r is None ==> first_geofence(geofences@, distances@) is None,
            r matches Some(i) ==> i < geofences.len() && inside(geofences@[i as int], distances@[i as int])
                && forall|j: int| 0 <= j < i ==> !inside(geofences@[j], distances@[j]),
            r is None <==> forall|j: int|
                0 <= j < geofences.len() ==> !inside(geofences@[j], distances@[j]),
    {
        let mut i: usize = 0;
        proof {
            assert(geofences@.skip(0) =~= geofences@);
            assert(distances@.skip(0) =~= distances@);
        }
        while i < geofences.len()
            invariant
                i <= geofences.len(),
                geofences.len() == distances.len(),
                forall|j: int| 0 <= j < i ==> !inside(geofences@[j], distances@[j]),
                first_geofence(geofences@, distances@) == match first_geofence(
                    geofences@.skip(i as int),
                    distances@.skip(i as int),
                ) {
                    Some(k) => Some(k + i),
                    None => None::<int>,
                },
            decreases geofences.len() - i,
        {
            proof {
                assert(geofences@.skip(i as int).drop_first() =~= geofences@.skip(i + 1));
                assert(distances@.skip(i as int).drop_first() =~= distances@.skip(i + 1));
            }
            if self.inside_geofence(&geofences[i], distances[i]) {
                return Some(i);
            }
            i = i + 1;
        }
        proof {
            assert(geofences@.skip(i as int).len() == 0);
            assert(first_geofence(geofences@.skip(i as int), distances@.skip(i as int)) is None);
        }
        None
    }
}

/// The charging details that the REST API reports. `charge_energy_added` is in watt-hours,
/// `charger_power` in watts.
pub struct TeslaVehicleChargeState {
    pub charge_energy_added: i64,
    pub charger_power: i64,
    pub charge_port_latch: String,
}

/// The detailed data of a vehicle that the REST API reports.
pub struct TeslaVehicleData {
    pub id: usize,
    pub vehicle_id: usize,
    pub state: TeslaVehicleState,
    pub in_service: bool,
    pub charge_state: Option<TeslaVehicleChargeState>,
}

/// A message of the streaming protocol.
pub struct TeslaStreamingApiMessage {
    pub msg_type: String,
    pub tag: String,
    pub token: Option<String>,
    pub value: String,
}

} // verus!
