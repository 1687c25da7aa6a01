use geoutils::Location;
use jarvis_tesla_exporter::idle_client::IdleClient;
use jarvis_tesla_exporter::measurement::{EntityType, Measurement, MetricType, Sample, SampleType};
use jarvis_tesla_exporter::model::{
    Config, GeofenceConfig, TeslaVehicle, TeslaVehicleChargeState, TeslaVehicleState,
    TeslaVehicleStreamingData,
};
use jarvis_tesla_exporter::retry_policy::RetryPolicy;
use jarvis_tesla_exporter::streaming::StreamingProbe;
use jarvis_tesla_exporter::tesla_api_client::{
    AwakeStep, LastValues, TeslaApiClient, VehiclePlan, VehicleReading,
};

const MICROS: i128 = 1_000_000;

fn vehicle(state: TeslaVehicleState, in_service: bool) -> TeslaVehicle {
    TeslaVehicle {
        id: 17,
        vehicle_id: 42,
        vin: "5YJ3E1EA7KF000000".to_string(),
        display_name: Some("Tessie".to_string()),
        state,
        in_service,
    }
}

fn sample(sample_type: SampleType, metric_type: MetricType, name: &str, value: i128) -> Sample {
    Sample {
        entity_type: EntityType::Device,
        entity_name: "jarvis-tesla-exporter".to_string(),
        sample_type,
        sample_name: name.to_string(),
        metric_type,
        value,
    }
}

fn prior(name: &str, power: i128, energy: i128, odometer: i128) -> Measurement {
    Measurement {
        id: "previous".to_string(),
        source: "jarvis-tesla-exporter".to_string(),
        location: "Home".to_string(),
        samples: vec![
            sample(SampleType::ElectricityConsumption, MetricType::Gauge, name, power),
            sample(SampleType::ElectricityConsumption, MetricType::Counter, name, energy),
            sample(SampleType::DistanceTraveled, MetricType::Counter, name, odometer),
            sample(SampleType::Availability, MetricType::Gauge, name, MICROS),
        ],
        measured_at_time: 0,
    }
}

fn last(power: i128, energy: i128, odometer: i128) -> LastValues {
    LastValues {
        location: "Home".to_string(),
        charger_power: power,
        charge_energy_added: energy,
        odometer,
    }
}

fn streamed(power: i64, speed: i64, odometer: i64) -> TeslaVehicleStreamingData {
    TeslaVehicleStreamingData {
        latitude: 52_377_956,
        longitude: 4_897_070,
        power,
        speed,
        odometer,
    }
}

fn home() -> GeofenceConfig {
    GeofenceConfig {
        location: "Home".to_string(),
        latitude: 52_377_956,
        longitude: 4_897_070,
        geofence_radius_meters: 100,
    }
}

fn meters_between(a: (f64, f64), b: (f64, f64)) -> Option<u64> {
    Location::new(a.0, a.1)
        .distance_to(&Location::new(b.0, b.1))
        .ok()
        .map(|d| d.meters().floor() as u64)
}

fn report(step: AwakeStep) -> VehicleReading {
    match step {
        AwakeStep::Report(r) => r,
        AwakeStep::FetchVehicleData(_) => panic!("a REST call was asked for"),
    }
}

#[test]
fn last_values_default_without_prior_measurement() {
    let client = TeslaApiClient::new();
    let v = client.get_last_values(&None, &vehicle(TeslaVehicleState::Online, false));
    assert_eq!(v.location, "Other");
    assert_eq!((v.charger_power, v.charge_energy_added, v.odometer), (0, 0, 0));
}

#[test]
fn last_values_come_from_the_measurement_naming_the_vehicle() {
    let client = TeslaApiClient::new();
    let ms = Some(vec![prior("Other car", 1, 2, 3), prior("Tessie", 7, 5000, 9)]);
    let v = client.get_last_values(&ms, &vehicle(TeslaVehicleState::Online, false));
    assert_eq!(v.location, "Home");
    assert_eq!((v.charger_power, v.charge_energy_added, v.odometer), (7, 5000, 9));
}

#[test]
fn unnamed_vehicle_is_known_as_unknown() {
    let client = TeslaApiClient::new();
    let mut v = vehicle(TeslaVehicleState::Online, false);
    v.display_name = None;
    assert_eq!(client.display_name(&v), "Unknown");
    let ms = Some(vec![prior("Unknown", 0, 11, 0)]);
    assert_eq!(client.get_last_values(&ms, &v).charge_energy_added, 11);
}

#[test]
fn asleep_vehicle_is_reported_from_its_prior_values() {
    let client = TeslaApiClient::new();
    let last = last(2_000 * MICROS, 5000 * MICROS, 77 * MICROS);
    match client.plan_vehicle(&vehicle(TeslaVehicleState::Asleep, false), &last) {
        VehiclePlan::Report(r) => {
            assert_eq!(r.charger_power, 0);
            assert_eq!(r.charge_energy_added, 5000 * MICROS);
            assert_eq!(r.odometer, 77 * MICROS);
            assert_eq!(r.availability, 0);
            assert_eq!(r.location, "Home");
        }
        VehiclePlan::Probe => panic!("an asleep vehicle was probed"),
    }
}

#[test]
fn offline_and_in_service_vehicles_are_not_probed() {
    let client = TeslaApiClient::new();
    let last = last(0, 1, 2);
    match client.plan_vehicle(&vehicle(TeslaVehicleState::Offline, false), &last) {
        VehiclePlan::Report(r) => assert_eq!(r.availability, -MICROS),
        VehiclePlan::Probe => panic!("an offline vehicle was probed"),
    }
    match client.plan_vehicle(&vehicle(TeslaVehicleState::Online, true), &last) {
        VehiclePlan::Report(r) => {
            assert_eq!(r.availability, -2 * MICROS);
            assert_eq!((r.charge_energy_added, r.odometer), (1, 2));
        }
        VehiclePlan::Probe => panic!("a vehicle in service was probed"),
    }
}

#[test]
fn awake_vehicles_are_probed() {
    let client = TeslaApiClient::new();
    for state in [
        TeslaVehicleState::Online,
        TeslaVehicleState::Updating,
        TeslaVehicleState::Other("driving".to_string()),
    ] {
        let plan = client.plan_vehicle(&vehicle(state, false), &last(0, 0, 0));
        assert!(matches!(plan, VehiclePlan::Probe));
    }
}

#[test]
fn quiet_sample_keeps_the_energy_counter() {
    let client = TeslaApiClient::new();
    let odometer_milli_miles: i64 = 1_000;
    let last = last(0, 5000 * MICROS, odometer_milli_miles as i128 * 1_609_344);
    let r = report(client.after_probe(
        &last,
        &streamed(0, 0, odometer_milli_miles),
        &vec![home()],
        &vec![Some(0)],
    ));
    assert_eq!(r.charge_energy_added, 5000 * MICROS);
    assert_eq!(r.charger_power, 0);
    assert_eq!(r.odometer, 1_609_344_000);
    assert_eq!(r.availability, MICROS);
    assert_eq!(r.location, "Home");
}

#[test]
fn replaying_a_quiet_sample_adds_nothing() {
    let client = TeslaApiClient::new();
    let car = vehicle(TeslaVehicleState::Online, false);
    let first_last = last(0, 5000 * MICROS, 1_609_344_000);
    let s = streamed(0, 0, 1_000);
    let first = report(client.after_probe(&first_last, &s, &vec![home()], &vec![Some(3)]));
    let (energy, odometer) = (first.charge_energy_added, first.odometer);
    let m = client.measurement_for(&car, first, "a".to_string(), 1);
    let again = client.get_last_values(&Some(vec![m]), &car);
    let second = report(client.after_probe(&again, &s, &vec![home()], &vec![Some(3)]));
    assert_eq!((second.charge_energy_added, second.odometer), (energy, odometer));
}

#[test]
fn activity_asks_for_vehicle_data() {
    let client = TeslaApiClient::new();
    let base = last(0, 0, 1_609_344_000);
    let geofences = vec![home()];
    let distances = vec![None];
    for s in [streamed(1, 0, 1_000), streamed(0, 1, 1_000), streamed(0, 0, 1_001)] {
        let step = client.after_probe(&base, &s, &geofences, &distances);
        assert!(matches!(step, AwakeStep::FetchVehicleData(_)));
    }
    let charging_before = last(5, 0, 1_609_344_000);
    let step = client.after_probe(&charging_before, &streamed(0, 0, 1_000), &geofences, &distances);
    assert!(matches!(step, AwakeStep::FetchVehicleData(_)));
}

fn pending() -> VehicleReading {
    VehicleReading {
        location: "Home".to_string(),
        charger_power: 0,
        charge_energy_added: 42,
        odometer: 7,
        availability: MICROS,
    }
}

fn charge(latch: &str) -> Option<TeslaVehicleChargeState> {
    Some(TeslaVehicleChargeState {
        charge_energy_added: 12_340,
        charger_power: 11_000,
        charge_port_latch: latch.to_string(),
    })
}

#[test]
fn latched_charge_details_are_converted() {
    let client = TeslaApiClient::new();
    let r = client.after_vehicle_data(pending(), &charge("Engaged"));
    assert_eq!(r.charge_energy_added, 12_340 * 3600 * MICROS);
    assert_eq!(r.charger_power, 11_000 * MICROS);
    assert_eq!((r.odometer, r.availability), (7, MICROS));
    assert_eq!(r.location, "Home");
}

#[test]
fn unlatched_charge_details_count_as_nothing() {
    let client = TeslaApiClient::new();
    let r = client.after_vehicle_data(pending(), &charge("Disengaged"));
    assert_eq!((r.charge_energy_added, r.charger_power), (0, 0));
}

#[test]
fn missing_charge_details_keep_the_counter() {
    let client = TeslaApiClient::new();
    let r = client.after_vehicle_data(pending(), &None);
    assert_eq!((r.charge_energy_added, r.charger_power), (42, 0));
}

#[test]
fn timed_out_probe_is_reported_as_asleep() {
    let client = TeslaApiClient::new();
    let car = vehicle(TeslaVehicleState::Online, false);
    let probe = StreamingProbe::new(&car);
    assert!(probe.deadline_passed(31).is_some());
    let r = client.after_failed_probe(&last(9, 5000 * MICROS, 3));
    assert_eq!(r.availability, 0);
    assert_eq!(r.charger_power, 0);
    assert_eq!((r.charge_energy_added, r.odometer), (5000 * MICROS, 3));
    let m = client.new_measurement(&car, r);
    assert_eq!(m.samples.len(), 4);
    assert_eq!(m.samples[3].value, 0);
}

#[test]
fn measurement_holds_four_samples_in_order() {
    let client = TeslaApiClient::new();
    let car = vehicle(TeslaVehicleState::Online, false);
    let reading = VehicleReading {
        location: "Work".to_string(),
        charger_power: 1,
        charge_energy_added: 2,
        odometer: 3,
        availability: 4,
    };
    let m = client.new_measurement(&car, reading);
    assert_eq!(m.id.len(), 36);
    assert_eq!(m.source, "jarvis-tesla-exporter");
    assert_eq!(m.location, "Work");
    let kinds: Vec<(SampleType, MetricType, i128)> = m
        .samples
        .iter()
        .map(|s| (s.sample_type, s.metric_type, s.value))
        .collect();
    assert_eq!(
        kinds,
        vec![
            (SampleType::ElectricityConsumption, MetricType::Gauge, 1),
            (SampleType::ElectricityConsumption, MetricType::Counter, 2),
            (SampleType::DistanceTraveled, MetricType::Counter, 3),
            (SampleType::Availability, MetricType::Gauge, 4),
        ]
    );
    assert!(m.samples.iter().all(|s| s.sample_name == "Tessie"));
    let other = client.new_measurement(&car, pending());
    assert_ne!(m.id, other.id);
}

#[test]
fn geofence_within_radius_is_matched() {
    let centre = (52.377956, 4.897070);
    let near = (52.377956 + 50.0 / 111_250.0, 4.897070);
    let far = (52.377956 + 500.0 / 111_250.0, 4.897070);
    let near_distance = meters_between(near, centre);
    let far_distance = meters_between(far, centre);
    assert!(near_distance.unwrap() < 100 && far_distance.unwrap() > 100);
    let client = TeslaApiClient::new();
    let geofences = vec![home()];
    let r = report(client.after_probe(&last(0, 0, 0), &streamed(0, 0, 0), &geofences, &vec![near_distance]));
    assert_eq!(r.location, "Home");
    let r = report(client.after_probe(&last(0, 0, 0), &streamed(0, 0, 0), &geofences, &vec![far_distance]));
    assert_eq!(r.location, "Other");
}

#[test]
fn first_listed_geofence_wins() {
    let s = streamed(0, 0, 0);
    let mut work = home();
    work.location = "Work".to_string();
    let geofences = vec![home(), work];
    assert_eq!(s.in_geofence(&geofences, &vec![Some(99), Some(10)]), Some(0));
    assert_eq!(s.in_geofence(&geofences, &vec![Some(100), Some(10)]), Some(1));
    assert_eq!(s.in_geofence(&geofences, &vec![None, Some(100)]), None);
    assert_eq!(s.in_geofence(&Vec::new(), &Vec::new()), None);
    assert!(!s.inside_geofence(&geofences[0], Some(100)));
    assert!(s.inside_geofence(&geofences[0], Some(99)));
}

#[test]
fn urls_and_token_request() {
    let client = TeslaApiClient::new();
    let car = vehicle(TeslaVehicleState::Online, false);
    assert_eq!(
        client.vehicle_data_url(&car),
        "https://owner-api.teslamotors.com/api/1/vehicles/17/vehicle_data"
    );
    assert_eq!(
        client.vehicle_url("23498074342"),
        "https://owner-api.teslamotors.com/api/1/vehicles/23498074342"
    );
    let config = Config {
        refresh_token: "abcd".to_string(),
        geofences: vec![home()],
        vehicle_ids: vec!["23498074342".to_string()],
    };
    let request = client.access_token_request(&config);
    assert_eq!(request.grant_type, "refresh_token");
    assert_eq!(request.scope, "openid email offline_access");
    assert_eq!(request.client_id, "ownerapi");
    assert_eq!(request.refresh_token, "abcd");
}

#[test]
fn retry_delays_double_and_run_out() {
    let policy = RetryPolicy::standard();
    assert_eq!(policy.nominal_delay(0), Some(100));
    assert_eq!(policy.nominal_delay(1), Some(200));
    assert_eq!(policy.nominal_delay(2), Some(400));
    assert_eq!(policy.nominal_delay(3), None);
    assert_eq!(policy.delay_before_retry(3), None);
    let huge = RetryPolicy { interval_ms: u64::MAX, factor: 10, takes: 5 };
    assert_eq!(huge.nominal_delay(4), Some(9_007_199_254_740_992));
}

#[test]
fn retry_delays_are_jittered() {
    let policy = RetryPolicy::standard();
    let mut below = false;
    for _ in 0..64 {
        let d = policy.delay_before_retry(2).unwrap();
        assert!(d <= 400);
        below = below || d < 400;
    }
    assert!(below);
    let none = RetryPolicy { interval_ms: 0, factor: 2, takes: 1 };
    assert_eq!(none.delay_before_retry(0), Some(0));
}

#[test]
fn idle_client_can_be_made() {
    let _ = IdleClient::new();
}
