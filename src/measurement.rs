//! Measurements: what a cycle produces for each vehicle.
//!
//! A sample's value is a whole number of millionths of its unit: watts for power, joules
//! (watt-seconds) for energy, meters for distance, and a plain number for availability.

use vstd::prelude::*;

verus! {

/// What a sample is about.
#[derive(PartialEq, Eq, Structural, Clone, Copy, Debug)]
pub enum EntityType {
    Device,
}

/// What a sample measures.
#[derive(PartialEq, Eq, Structural, Clone, Copy, Debug)]
pub enum SampleType {
    ElectricityConsumption,
    DistanceTraveled,
    Availability,
}

/// Whether a sample is an instantaneous value or a running total.
#[derive(PartialEq, Eq, Structural, Clone, Copy, Debug)]
pub enum MetricType {
    Gauge,
    Counter,
}

/// One value of a measurement, in millionths of its unit.
pub struct Sample {
    pub entity_type: EntityType,
    pub entity_name: String,
    pub sample_type: SampleType,
    pub sample_name: String,
    pub metric_type: MetricType,
    pub value: i128,
}

/// What a cycle reports for one vehicle. `measured_at_time` is in milliseconds since the
/// Unix epoch.
pub struct Measurement {
    pub id: String,
    pub source: String,
    pub location: String,
    pub samples: Vec<Sample>,
    pub measured_at_time: i64,
}

/// Whether `s` is the device sample of the given type, name and metric.
pub open spec fn is_sample_of(
    s: Sample,
    sample_type: SampleType,
    name: Seq<char>,
    metric_type: MetricType,
) -> bool {
    &&& s.entity_type == EntityType::Device
    &&& s.sample_type == sample_type
    &&& s.sample_name@ == name
    &&& s.metric_type == metric_type
}

/// The value of the first sample in `samples` of the given type, name and metric, or zero
/// where there is none.
pub open spec fn sample_value(
    samples: Seq<Sample>,
    sample_type: SampleType,
    name: Seq<char>,
    metric_type: MetricType,
) -> int
    decreases samples.len(),
{
    if samples.len() == 0 {
        0
    } else if is_sample_of(samples[0], sample_type, name, metric_type) {
        samples[0].value as int
    } else {
        sample_value(samples.drop_first(), sample_type, name, metric_type)
    }
}

/// Whether some sample of `m` carries the name `name`.
pub open spec fn mentions(m: Measurement, name: Seq<char>) -> bool {
    exists|i: int| 0 <= i < m.samples@.len() && (#[trigger] m.samples@[i]).sample_name@ == name
}

/// The first of `ms` that mentions `name`.
pub open spec fn prior_for(ms: Seq<Measurement>, name: Seq<char>) -> Option<Measurement>
    decreases ms.len(),
{
    if ms.len() == 0 {
        None
    } else if mentions(ms[0], name) {
        Some(ms[0])
    } else {
        prior_for(ms.drop_first(), name)
    }
}

/// The value of the first sample of `samples` of the given type, name and metric, or zero.
pub fn find_sample_value(
    samples: &Vec<Sample>,
    sample_type: SampleType,
    name: &String,
    metric_type: MetricType,
) -> (r: i128)
    ensures
        r as int == sample_value(samples@, sample_type, name@, metric_type),
{
    let mut i: usize = 0;
    proof {
        assert(samples@.skip(0) =~= samples@);
    }
    while i < samples.len()
        invariant
            i <= samples.len(),
            sample_value(samples@, sample_type, name@, metric_type) == sample_value(
                samples@.skip(i as int),
                sample_type,
                name@,
                metric_type,
            ),
        decreases samples.len() - i,
    {
        proof {
            assert(samples@.skip(i as int).drop_first() =~= samples@.skip(i + 1));
        }
        let s = &samples[i];
        if s.entity_type == EntityType::Device && s.sample_type == sample_type && s.sample_name
            == *name && s.metric_type == metric_type {
            return s.value;
        }
        i = i + 1;
    }
    0
}

/// Whether some sample of `m` carries the name `name`.
pub fn mentions_name(m: &Measurement, name: &String) -> (r: bool)
    ensures
        r == mentions(*m, name@),
{
    let mut i: usize = 0;
    while i < m.samples.len()
        invariant
            i <= m.samples.len(),
            forall|j: int| 0 <= j < i ==> (#[trigger] m.samples@[j]).sample_name@ != name@,
        decreases m.samples.len() - i,
    {
        if m.samples[i].sample_name == *name {
            return true;
        }
        i = i + 1;
    }
    false
}

/// The index of the first of `ms` that mentions `name`.
pub fn find_prior(ms: &Vec<Measurement>, name: &String) -> (r: Option<usize>)
    ensures
        r matches Some(i) ==> i < ms.len() && prior_for(ms@, name@) == Some(ms@[i as int]),
        r is None ==> prior_for(ms@, name@) is None,
{
    let mut i: usize = 0;
    proof {
        assert(ms@.skip(0) =~= ms@);
    }
    while i < ms.len()
        invariant
            i <= ms.len(),
            prior_for(ms@, name@) == prior_for(ms@.skip(i as int), name@),
        decreases ms.len() - i,
    {
        proof {
            assert(ms@.skip(i as int).drop_first() =~= ms@.skip(i + 1));
        }
        if mentions_name(&ms[i], name) {
            return Some(i);
        }
        i = i + 1;
    }
    None
}

} // verus!
