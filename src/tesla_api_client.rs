//! The decisions of one measurement cycle for one vehicle.
//!
//! A cycle runs: fetch a token; fetch the vehicle; `plan_vehicle` says whether the vehicle
//! may be probed at all; if so, the streaming probe runs, and `after_probe` (or
//! `after_failed_probe`) says whether the REST API must be asked for charge details;
//! `after_vehicle_data` folds those in; `new_measurement` assembles the result. Values that
//! the cycle cannot observe are carried forward from the previous measurement, found by
//! `get_last_values`.

use crate::measurement::{
    find_prior, find_sample_value, prior_for, sample_value, EntityType, Measurement, MetricType,
    Sample, SampleType,
};
use crate::model::{
    first_geofence, Config, GeofenceConfig, TeslaAccessTokenRequest, TeslaVehicle,
    TeslaVehicleChargeState, TeslaVehicleStreamingData,
};
use crate::text::{decimal_string, decimal_text, joined, owned, same_text};
use vstd::prelude::*;

verus! {

/// Millionths in one unit: sample values are kept in millionths.
pub const MICROS: i128 = 1_000_000;
/// Micrometers in a thousandth of a mile.
pub const MICROMETERS_PER_MILLIMILE: i128 = 1_609_344;
/// Seconds in an hour, to turn watt-hours into joules.
pub const SECONDS_PER_HOUR: i128 = 3600;

pub open spec fn location_other() -> Seq<char> {
    "Other"@
}

pub open spec fn default_display_name() -> Seq<char> {
    "Unknown"@
}

pub open spec fn source_name() -> Seq<char> {
    "jarvis-tesla-exporter"@
}

/// The client of the telemetry API.
pub struct TeslaApiClient {}

/// What the previous measurement of a vehicle says, in millionths of each sample's unit.
pub struct LastValues {
    pub location: String,
    pub charger_power: i128,
    pub charge_energy_added: i128,
    pub odometer: i128,
}

/// What a cycle reports of one vehicle, in millionths of each sample's unit.
pub struct VehicleReading {
    pub location: String,
    pub charger_power: i128,
    pub charge_energy_added: i128,
    pub odometer: i128,
    pub availability: i128,
}

/// What to do first with a vehicle.
pub enum VehiclePlan {
    /// Report this without asking the vehicle anything.
    Report(VehicleReading),
    /// Probe the streaming API.
    Probe,
}

/// What to do after a successful streaming probe.
pub enum AwakeStep {
    /// Report this.
    Report(VehicleReading),
    /// Fetch the vehicle's data from the REST API, then complete this reading with
    /// `after_vehicle_data`.
    FetchVehicleData(VehicleReading),
}

/// The name that a vehicle's samples carry.
pub open spec fn display_name_of(v: TeslaVehicle) -> Seq<char> {
    match v.display_name {
        Some(n) => n@,
        None => default_display_name(),
    }
}

/// The previous measurement of the vehicle named `name`: the first that mentions it.
pub open spec fn prior_of(last_measurements: Option<Vec<Measurement>>, name: Seq<char>) -> Option<
    Measurement,
> {
    match last_measurements {
        Some(ms) => prior_for(ms@, name),
        None => None,
    }
}

/// A value carried forward from `prior`, or zero where there is none.
pub open spec fn carried_value(
    prior: Option<Measurement>,
    sample_type: SampleType,
    name: Seq<char>,
    metric_type: MetricType,
) -> int {
    match prior {
        Some(m) => sample_value(m.samples@, sample_type, name, metric_type),
        None => 0,
    }
}

/// The location carried forward from `prior`.
pub open spec fn carried_location(prior: Option<Measurement>) -> Seq<char> {
    match prior {
        Some(m) => m.location@,
        None => location_other(),
    }
}

/// Whether `v` are the values carried forward from `prior` for the vehicle named `name`.
pub open spec fn carried_from(v: LastValues, prior: Option<Measurement>, name: Seq<char>) -> bool {
    &&& v.location@ == carried_location(prior)
    &&& v.charger_power == carried_value(
        prior,
        SampleType::ElectricityConsumption,
        name,
        MetricType::Gauge,
    )
    &&& v.charge_energy_added == carried_value(
        prior,
        SampleType::ElectricityConsumption,
        name,
        MetricType::Counter,
    )
    &&& v.odometer == carried_value(prior, SampleType::DistanceTraveled, name, MetricType::Counter)
}

/// Whether the vehicle must be left alone: it is in service, asleep or offline.
pub open spec fn is_resting(v: TeslaVehicle) -> bool {
    v.in_service || v.state is Asleep || v.state is Offline
}

/// The availability reported of a vehicle that is left alone.
pub open spec fn resting_availability(v: TeslaVehicle) -> int {
    if v.in_service {
        -2 * MICROS
    } else if v.state is Offline {
        -MICROS
    } else {
        0
    }
}

/// Whether `r` carries every value of `last` forward, with no power drawn.
pub open spec fn carries_forward(r: VehicleReading, last: LastValues, availability: int) -> bool {
    &&& r.location@ == last.location@
    &&& r.charger_power == 0
    &&& r.charge_energy_added == last.charge_energy_added
    &&& r.odometer == last.odometer
    &&& r.availability == availability
}

/// The odometer of a streaming sample in micrometers.
pub open spec fn odometer_micrometers(sample: TeslaVehicleStreamingData) -> int {
    sample.odometer * MICROMETERS_PER_MILLIMILE
}

/// The name of the first geofence the position lies in, or `Other`.
pub open spec fn location_name(
    geofences: Seq<GeofenceConfig>,
    distances: Seq<Option<u64>>,
) -> Seq<char> {
    match first_geofence(geofences, distances) {
        Some(i) => geofences[i].location@,
        None => location_other(),
    }
}

/// Whether the REST API must be asked: the vehicle draws power, moves, has moved since the
/// previous measurement, or was charging then.
pub open spec fn needs_vehicle_data(last: LastValues, sample: TeslaVehicleStreamingData) -> bool {
    sample.power > 0 || sample.speed > 0 || odometer_micrometers(sample) > last.odometer
        || last.charger_power > 0
}

/// The reading of an awake vehicle before its charge details are known.
pub open spec fn awake_reading(
    r: VehicleReading,
    last: LastValues,
    sample: TeslaVehicleStreamingData,
    geofences: Seq<GeofenceConfig>,
    distances: Seq<Option<u64>>,
) -> bool {
    &&& r.location@ == location_name(geofences, distances)
    &&& r.charger_power == 0
    &&& r.charge_energy_added == last.charge_energy_added
    &&& r.odometer == odometer_micrometers(sample)
    &&& r.availability == MICROS
}

/// Whether `s` is the device sample of this exporter with the given type, metric, name and
/// value.
pub open spec fn sample_is(
    s: Sample,
    sample_type: SampleType,
    metric_type: MetricType,
    name: Seq<char>,
    value: int,
) -> bool {
    &&& s.entity_type == EntityType::Device
    &&& s.entity_name@ == source_name()
    &&& s.sample_type == sample_type
    &&& s.metric_type == metric_type
    &&& s.sample_name@ == name
    &&& s.value == value
}

/// Whether `m` reports `r` of the vehicle named `name`: its location, then four samples:
/// the charger power, the energy added, the odometer and the availability.
pub open spec fn reports(m: Measurement, name: Seq<char>, r: VehicleReading) -> bool {
    &&& m.source@ == source_name()
    &&& m.location@ == r.location@
    &&& m.samples@.len() == 4
    &&& sample_is(
        m.samples@[0],
        SampleType::ElectricityConsumption,
        MetricType::Gauge,
        name,
        r.charger_power as int,
    )
    &&& sample_is(
        m.samples@[1],
        SampleType::ElectricityConsumption,
        MetricType::Counter,
        name,
        r.charge_energy_added as int,
    )
    &&& sample_is(
        m.samples@[2],
        SampleType::DistanceTraveled,
        MetricType::Counter,
        name,
        r.odometer as int,
    )
    &&& sample_is(
        m.samples@[3],
        SampleType::Availability,
        MetricType::Gauge,
        name,
        r.availability as int,
    )
}

/// Whether the charge port is latched, so that the charge details count.
pub open spec fn is_latched(c: TeslaVehicleChargeState) -> bool {
    c.charge_port_latch@ == "Engaged"@
}

/// Relies on `uuid::Uuid::new_v4` and its hyphenated text form: a fresh random identifier,
/// written as 36 characters.
#[verifier::external_body]
fn fresh_id() -> (r: String)
    ensures
        r@.len() == 36,
{
    uuid::Uuid::new_v4().to_string()
}

/// Relies on `chrono::Utc::now`: the current time, in milliseconds since the Unix epoch.
#[verifier::external_body]
fn now_millis() -> (r: i64) {
    chrono::Utc::now().timestamp_millis()
}

fn sample(
    sample_type: SampleType,
    metric_type: MetricType,
    name: &String,
    value: i128,
) -> (r: Sample)
    ensures
        sample_is(r, sample_type, metric_type, name@, value as int),
{
    proof {
        reveal_strlit("jarvis-tesla-exporter");
    }
    Sample {
        entity_type: EntityType::Device,
        entity_name: owned("jarvis-tesla-exporter"),
        sample_type,
        sample_name: name.clone(),
        metric_type,
        value,
    }
}

impl TeslaApiClient {
    pub fn new() -> (r: TeslaApiClient) {
        TeslaApiClient {}
    }

    /// The body of the request that exchanges the configured refresh token for an access
    /// token.
    pub fn access_token_request(&self, config: &Config) -> (r: TeslaAccessTokenRequest)
        ensures
            r.grant_type@ == "refresh_token"@,
            r.scope@ == "openid email offline_access"@,
            r.client_id@ == "ownerapi"@,
            r.refresh_token@ == config.refresh_token@,
    {
        proof {
            reveal_strlit("refresh_token");
            reveal_strlit("openid email offline_access");
            reveal_strlit("ownerapi");
        }
        TeslaAccessTokenRequest {
            grant_type: owned("refresh_token"),
            scope: owned("openid email offline_access"),
            client_id: owned("ownerapi"),
            refresh_token: config.refresh_token.clone(),
        }
    }

    /// Where the vehicle with the given id is described.
    pub fn vehicle_url(&self, vehicle_id: &str) -> (r: String)
        ensures
            r@ == "https://owner-api.teslamotors.com/api/1/vehicles/"@ + vehicle_id@,
    {
        joined(owned("https://owner-api.teslamotors.com/api/1/vehicles/"), vehicle_id)
    }

    /// Where the detailed data of `vehicle` is.
    pub fn vehicle_data_url(&self, vehicle: &TeslaVehicle) -> (r: String)
        ensures
            r@ == "https://owner-api.teslamotors.com/api/1/vehicles/"@ + decimal_text(
                vehicle.id as nat,
            ) + "/vehicle_data"@,
    {
        let base = owned("https://owner-api.teslamotors.com/api/1/vehicles/");
        let id = decimal_string(vehicle.id);
        joined(joined(base, id.as_str()), "/vehicle_data")
    }

    /// The name that the samples of `vehicle` carry.
    pub fn display_name(&self, vehicle: &TeslaVehicle) -> (r: String)
        ensures
            r@ == display_name_of(*vehicle),
    {
        proof {
            reveal_strlit("Unknown");
        }
        match &vehicle.display_name {
            Some(n) => n.clone(),
            None => owned("Unknown"),
        }
    }

    /// The values of the previous measurement of `vehicle`: that is the first of
    /// `last_measurements` with a sample named after the vehicle. Each value is that of the
    /// measurement's first matching device sample, or zero; the location is `Other` where
    /// there is no previous measurement.
    pub fn get_last_values(
        &self,
        last_measurements: &Option<Vec<Measurement>>,
        vehicle: &TeslaVehicle,
    ) -> (r: LastValues)
        ensures
            carried_from(r, prior_of(*last_measurements, display_name_of(*vehicle)), display_name_of(*vehicle)),
    {
        proof {
            reveal_strlit("Other");
        }
        let name = self.display_name(vehicle);
        let prior: Option<&Measurement> = match last_measurements {
            Some(ms) => match find_prior(ms, &name) {
                Some(i) => Some(&ms[i]),
                None => None,
            },
            None => None,
        };
        match prior {
            Some(m) => LastValues {
                location: m.location.clone(),
                charger_power: find_sample_value(
                    &m.samples,
                    SampleType::ElectricityConsumption,
                    &name,
                    MetricType::Gauge,
                ),
                charge_energy_added: find_sample_value(
                    &m.samples,
                    SampleType::ElectricityConsumption,
                    &name,
                    MetricType::Counter,
                ),
                odometer: find_sample_value(
                    &m.samples,
                    SampleType::DistanceTraveled,
                    &name,
                    MetricType::Counter,
                ),
            },
            None => LastValues {
                location: owned("Other"),
                charger_power: 0,
                charge_energy_added: 0,
                odometer: 0,
            },
        }
    }

    /// Decides whether `vehicle` may be probed. A vehicle in service, asleep or offline is
    /// not asked anything: its previous values are reported, with no power drawn and an
    /// availability of -2 (in service), -1 (offline) or 0 (asleep).
    pub fn plan_vehicle(&self, vehicle: &TeslaVehicle, last: &LastValues) -> (r: VehiclePlan)
        ensures
            is_resting(*vehicle) ==> (r matches VehiclePlan::Report(x) && carries_forward(
                x,
                *last,
                resting_availability(*vehicle),
            )),
            !is_resting(*vehicle) ==> r is Probe,
    {
        if vehicle.in_service || vehicle.state.is_asleep() || vehicle.state.is_offline() {
            let availability: i128 = if vehicle.in_service {
                -2 * MICROS
            } else if vehicle.state.is_offline() {
                -MICROS
            } else {
                0
            };
            VehiclePlan::Report(
                VehicleReading {
                    location: last.location.clone(),
                    charger_power: 0,
                    charge_energy_added: last.charge_energy_added,
                    odometer: last.odometer,
                    availability,
                },
            )
        } else {
            VehiclePlan::Probe
        }
    }

    /// The reading of an awake vehicle whose streaming probe failed: it is taken to be
    /// asleep, and its previous values are reported with an availability of 0.
    pub fn after_failed_probe(&self, last: &LastValues) -> (r: VehicleReading)
        ensures
            carries_forward(r, *last, 0),
    {
        VehicleReading {
            location: last.location.clone(),
            charger_power: 0,
            charge_energy_added: last.charge_energy_added,
            odometer: last.odometer,
            availability: 0,
        }
    }

    /// The next step after the streaming probe returned `sample`, given the distance from
    /// its position to each geofence's centre (see `TeslaVehicleStreamingData::in_geofence`).
    /// The location is the first geofence that the position lies in, or `Other`. The REST
    /// API is asked only where `needs_vehicle_data` holds; otherwise the energy counter is
    /// carried forward.
    pub fn after_probe(
        &self,
        last: &LastValues,
        sample: &TeslaVehicleStreamingData,
        geofences: &Vec<GeofenceConfig>,
        distances: &Vec<Option<u64>>,
    ) -> (r: AwakeStep)
        requires
            geofences.len() == distances.len(),
        ensures
            needs_vehicle_data(*last, *sample) ==> (r matches AwakeStep::FetchVehicleData(p)
                && awake_reading(p, *last, *sample, geofences@, distances@)),
            !needs_vehicle_data(*last, *sample) ==> (r matches AwakeStep::Report(x)
                && awake_reading(x, *last, *sample, geofences@, distances@)),
    {
        proof {
            reveal_strlit("Other");
        }
        let location = match sample.in_geofence(geofences, distances) {
            Some(i) => geofences[i].location.clone(),
            None => owned("Other"),
        };
        let odometer = sample.odometer as i128 * MICROMETERS_PER_MILLIMILE;
        let reading = VehicleReading {
            location,
            charger_power: 0,
            charge_energy_added: last.charge_energy_added,
            odometer,
            availability: MICROS,
        };
        if sample.power > 0 || sample.speed > 0 || odometer > last.odometer || last.charger_power
            > 0 {
            AwakeStep::FetchVehicleData(reading)
        } else {
            AwakeStep::Report(reading)
        }
    }

    /// Completes `pending` with the charge details that the REST API reported. With the
    /// charge port latched, the energy added and the charger power count; unlatched, both
    /// are zero; without charge details, the energy counter stays as it was and no power is
    /// drawn.
    pub fn after_vehicle_data(
        &self,
        pending: VehicleReading,
        charge_state: &Option<TeslaVehicleChargeState>,
    ) -> (r: VehicleReading)
        ensures
            r.location@ == pending.location@,
            r.odometer == pending.odometer,
            r.availability == pending.availability,
            *charge_state matches Some(c) ==> if is_latched(c) {
                &&& r.charge_energy_added == c.charge_energy_added as int * SECONDS_PER_HOUR
                    * MICROS
                &&& r.charger_power == c.charger_power as int * MICROS
            } else {
                r.charge_energy_added == 0 && r.charger_power == 0
            },
            *charge_state is None ==> r.charge_energy_added == pending.charge_energy_added
                && r.charger_power == 0,
    {
        proof {
            reveal_strlit("Engaged");
        }
        let (charge_energy_added, charger_power) = match charge_state {
            Some(c) => {
                if same_text(c.charge_port_latch.as_str(), "Engaged") {
                    (
                        c.charge_energy_added as i128 * SECONDS_PER_HOUR * MICROS,
                        c.charger_power as i128 * MICROS,
                    )
                } else {
                    (0, 0)
                }
            },
            None => (pending.charge_energy_added, 0),
        };
        VehicleReading {
            location: pending.location,
            charger_power,
            charge_energy_added,
            odometer: pending.odometer,
            availability: pending.availability,
        }
    }

    /// The measurement that reports `reading` of `vehicle`, with the given identifier and
    /// time.
    pub fn measurement_for(
        &self,
        vehicle: &TeslaVehicle,
        reading: VehicleReading,
        id: String,
        measured_at_time: i64,
    ) -> (r: Measurement)
        ensures
            reports(r, display_name_of(*vehicle), reading),
            r.id == id,
            r.measured_at_time == measured_at_time,
    {
        proof {
            reveal_strlit("jarvis-tesla-exporter");
        }
        let name = self.display_name(vehicle);
        let mut samples: Vec<Sample> = Vec::new();
        samples.push(
            sample(
                SampleType::ElectricityConsumption,
                MetricType::Gauge,
                &name,
                reading.charger_power,
            ),
        );
        samples.push(
            sample(
                SampleType::ElectricityConsumption,
                MetricType::Counter,
                &name,
                reading.charge_energy_added,
            ),
        );
        samples.push(
            sample(SampleType::DistanceTraveled, MetricType::Counter, &name, reading.odometer),
        );
        samples.push(
            sample(SampleType::Availability, MetricType::Gauge, &name, reading.availability),
        );
        Measurement {
            id,
            source: owned("jarvis-tesla-exporter"),
            location: reading.location,
            samples,
            measured_at_time,
        }
    }

    /// The measurement that reports `reading` of `vehicle`, under a fresh identifier and the
    /// current time.
    pub fn new_measurement(&self, vehicle: &TeslaVehicle, reading: VehicleReading) -> (r:
        Measurement)
        ensures
            reports(r, display_name_of(*vehicle), reading),
            r.id@.len() == 36,
    {
        let id = fresh_id();
        let measured_at_time = now_millis();
        self.measurement_for(vehicle, reading, id, measured_at_time)
    }
}

} // verus!
