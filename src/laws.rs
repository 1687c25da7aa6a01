//! What holds of the library across its functions.

use crate::measurement::{mentions, sample_value, Measurement, MetricType, SampleType};
use crate::model::{first_geofence, inside, GeofenceConfig, TeslaVehicle, TeslaVehicleStreamingData};
use crate::streaming::{decoded_update, envelope_step, field, field_count, ProbeStep, UPDATE_FIELD_COUNT};
use crate::tesla_api_client::{
    awake_reading, carried_from, carried_value, carries_forward, is_resting, needs_vehicle_data,
    reports, resting_availability, LastValues, VehicleReading,
};
use vstd::prelude::*;

verus! {

/// An update is decoded from its speed, odometer, latitude, longitude and power fields
/// alone: two full updates that agree on those fields decode alike, whatever their other
/// fields hold.
pub proof fn decoding_reads_only_fixed_fields(a: Seq<char>, b: Seq<char>)
    requires
        field_count(a) == UPDATE_FIELD_COUNT,
        field_count(b) == UPDATE_FIELD_COUNT,
        field(a, 1) == field(b, 1),
        field(a, 2) == field(b, 2),
        field(a, 6) == field(b, 6),
        field(a, 7) == field(b, 7),
        field(a, 8) == field(b, 8),
    ensures
        decoded_update(a) is Some,
        decoded_update(a) == decoded_update(b),
{
}

/// An update whose value list does not hold exactly `UPDATE_FIELD_COUNT` fields is passed
/// over: the probe goes on reading.
pub proof fn miscounted_update_is_skipped(
    r: ProbeStep,
    own_tag: Seq<char>,
    tag: Option<Seq<char>>,
    value: Seq<char>,
    error_type: Option<Seq<char>>,
)
    requires
        field_count(value) != UPDATE_FIELD_COUNT,
        envelope_step(r, own_tag, Some("data:update"@), tag, Some(value), error_type),
    ensures
        r is Continue,
{
    reveal_strlit("data:update");
    reveal_strlit("data:error");
}

proof fn first_geofence_is_first_inside(g: Seq<GeofenceConfig>, d: Seq<Option<u64>>)
    requires
        g.len() == d.len(),
    ensures
        first_geofence(g, d) matches Some(i) ==> 0 <= i < g.len() && inside(g[i], d[i])
            && forall|j: int| 0 <= j < i ==> !inside(g[j], d[j]),
        first_geofence(g, d) is None ==> forall|j: int| 0 <= j < g.len() ==> !inside(g[j], d[j]),
    decreases g.len(),
{
    if g.len() > 0 && !inside(g[0], d[0]) {
        first_geofence_is_first_inside(g.drop_first(), d.drop_first());
        assert forall|j: int| 1 <= j < g.len() implies g.drop_first()[j - 1] == g[j] && d.drop_first()[j - 1] == d[j] by {}
    }
}

/// A position inside exactly one geofence is placed in it; one inside none is placed in
/// none; one inside several is placed in the first of them in list order.
pub proof fn geofence_match_is_first_listed(
    geofences: Seq<GeofenceConfig>,
    distances: Seq<Option<u64>>,
    i: int,
)
    requires
        geofences.len() == distances.len(),
        0 <= i < geofences.len(),
    ensures
        inside(geofences[i], distances[i]) && (forall|j: int|
            0 <= j < geofences.len() && j != i ==> !inside(geofences[j], distances[j]))
            ==> first_geofence(geofences, distances) == Some(i),
        inside(geofences[i], distances[i]) && (forall|j: int|
            0 <= j < i ==> !inside(geofences[j], distances[j])) ==> first_geofence(
            geofences,
            distances,
        ) == Some(i),
        (forall|j: int| 0 <= j < geofences.len() ==> !inside(geofences[j], distances[j]))
            ==> first_geofence(geofences, distances) is None,
{
    first_geofence_is_first_inside(geofences, distances);
}

/// The values that a measurement reports are the ones found again when it serves as the
/// previous measurement.
pub proof fn reported_values_are_found(m: Measurement, name: Seq<char>, r: VehicleReading)
    requires
        reports(m, name, r),
    ensures
        mentions(m, name),
        sample_value(m.samples@, SampleType::ElectricityConsumption, name, MetricType::Gauge)
            == r.charger_power,
        sample_value(m.samples@, SampleType::ElectricityConsumption, name, MetricType::Counter)
            == r.charge_energy_added,
        sample_value(m.samples@, SampleType::DistanceTraveled, name, MetricType::Counter)
            == r.odometer,
{
    let s = m.samples@;
    let t1 = s.drop_first();
    let t2 = t1.drop_first();
    assert(t1[0] == s[1]);
    assert(t2[0] == s[2]);
    let ec = SampleType::ElectricityConsumption;
    let dt = SampleType::DistanceTraveled;
    assert(sample_value(s, ec, name, MetricType::Counter) == sample_value(t1, ec, name, MetricType::Counter));
    assert(sample_value(t1, ec, name, MetricType::Counter) == r.charge_energy_added);
    assert(sample_value(s, dt, name, MetricType::Counter) == sample_value(t1, dt, name, MetricType::Counter));
    assert(sample_value(t1, dt, name, MetricType::Counter) == sample_value(t2, dt, name, MetricType::Counter));
    assert(sample_value(t2, dt, name, MetricType::Counter) == r.odometer);
    assert(s[0].sample_name@ == name);
    assert(mentions(m, name));
}

/// A vehicle in service, asleep or offline is reported with the counters of its previous
/// measurement, exactly, and with no power drawn.
pub proof fn resting_vehicle_keeps_counters(
    vehicle: TeslaVehicle,
    prior: Option<Measurement>,
    name: Seq<char>,
    last: LastValues,
    reading: VehicleReading,
    m: Measurement,
)
    requires
        is_resting(vehicle),
        carried_from(last, prior, name),
        carries_forward(reading, last, resting_availability(vehicle)),
        reports(m, name, reading),
    ensures
        sample_value(m.samples@, SampleType::ElectricityConsumption, name, MetricType::Counter)
            == carried_value(prior, SampleType::ElectricityConsumption, name, MetricType::Counter),
        sample_value(m.samples@, SampleType::DistanceTraveled, name, MetricType::Counter)
            == carried_value(prior, SampleType::DistanceTraveled, name, MetricType::Counter),
        sample_value(m.samples@, SampleType::ElectricityConsumption, name, MetricType::Gauge)
            == 0,
{
    reported_values_are_found(m, name, reading);
}

/// Replaying a quiet streaming sample (no power, no speed, no distance, no charging before)
/// against the measurement it produced adds nothing: the second cycle again needs no REST
/// call and reports the same counters.
pub proof fn quiet_replay_keeps_counters(
    last: LastValues,
    sample: TeslaVehicleStreamingData,
    geofences: Seq<GeofenceConfig>,
    distances: Seq<Option<u64>>,
    first: VehicleReading,
    name: Seq<char>,
    m: Measurement,
    again: LastValues,
    second: VehicleReading,
)
    requires
        !needs_vehicle_data(last, sample),
        awake_reading(first, last, sample, geofences, distances),
        reports(m, name, first),
        carried_from(again, Some(m), name),
        awake_reading(second, again, sample, geofences, distances),
    ensures
        !needs_vehicle_data(again, sample),
        second.charge_energy_added == first.charge_energy_added,
        second.odometer == first.odometer,
        second.charger_power == first.charger_power,
{
    reported_values_are_found(m, name, first);
}

} // verus!
