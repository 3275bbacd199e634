//! The energy accountant: from an ordered sequence of power readings and an
//! elapsed duration to the derived environmental metrics.
//!
//! Energy is the mean power times the duration in hours; each impact metric
//! is the energy in kWh times the matching per-kWh factor of the model. All
//! divisions round down.

use vstd::prelude::*;
use crate::errors::MonitorError;
use crate::power::PowerModel;
use crate::sums::{
    sum_u64, lemma_sum_u64_take_succ, lemma_sum_u64_prefix_le, lemma_sum_u64_nonneg,
    lemma_u64_mul_fits_u128,
};
use vstd::arithmetic::div_mod::lemma_div_is_ordered_by_denominator;

verus! {

/// The metrics of one monitoring session, derived exactly once at session
/// end from the full reading sequence, and immutable thereafter.
#[derive(Clone, Copy, Debug, PartialEq, Eq, Structural)]
pub struct EnergyStats {
    /// Mean of the session's power readings, in milliwatts.
    pub average_power_mw: u64,
    /// Energy consumed over the session, in milliwatt-hours.
    pub energy_mwh: u64,
    /// Greenhouse-gas emissions, in milligrams of CO2 equivalent.
    pub ghg_emissions_mg: u64,
    /// Abiotic-resource depletion, in micrograms of Sb equivalent.
    pub abiotic_resources_ug: u64,
    /// Primary-energy use, in joules.
    pub primary_energy_j: u64,
}

/// Mean power of a non-empty reading sequence, in milliwatts, rounded down.
pub open spec fn spec_average_power_mw(readings: Seq<u64>) -> int {
    sum_u64(readings) / readings.len() as int
}

/// Energy in milliwatt-hours: mean power times the duration in seconds,
/// divided by the 3600 seconds of an hour.
pub open spec fn spec_energy_mwh(readings: Seq<u64>, duration_seconds: int) -> int {
    spec_average_power_mw(readings) * duration_seconds / 3600
}

/// One impact metric: the energy in milliwatt-hours times a per-kWh factor,
/// divided by the million milliwatt-hours of a kilowatt-hour.
pub open spec fn spec_impact(energy_mwh: int, factor_per_kwh: int) -> int {
    energy_mwh * factor_per_kwh / 1_000_000
}

/// Whether the accounting of a reading sequence stays within machine
/// limits: the sum of the readings, the energy, and each impact metric must
/// be representable. Sessions that sample once a second stay far inside
/// these bounds for any realistic duration.
pub open spec fn stats_fit(readings: Seq<u64>, duration_seconds: int, model: PowerModel) -> bool {
    &&& sum_u64(readings) <= u64::MAX
    &&& (readings.len() > 0 ==> {
        let energy = spec_energy_mwh(readings, duration_seconds);
        &&& energy <= u64::MAX
        &&& spec_impact(energy, model.emission_factor_mg_per_kwh as int) <= u64::MAX
        &&& spec_impact(energy, model.abiotic_factor_ug_per_kwh as int) <= u64::MAX
        &&& spec_impact(energy, model.primary_energy_factor_j_per_kwh as int) <= u64::MAX
    })
}

/// Derives the environmental metrics of a session from its readings, its
/// elapsed duration and the model's factors. Fails with
/// [`MonitorError::EmptySample`], and only with it, when the reading
/// sequence is empty: the mean of no readings is undefined and is never
/// allowed to reach the divisions below.
pub fn calculate_metrics(readings: &Vec<u64>, duration_seconds: u64, model: &PowerModel) -> (r:
    Result<EnergyStats, MonitorError>)
    requires
        stats_fit(readings@, duration_seconds as int, *model),
    ensures
        r is Err <==> readings@.len() == 0,
        r matches Err(e) ==> e == MonitorError::EmptySample,
        r matches Ok(stats) ==> {
            let energy = spec_energy_mwh(readings@, duration_seconds as int);
            &&& stats.average_power_mw == spec_average_power_mw(readings@)
            &&& stats.energy_mwh == energy
            &&& stats.ghg_emissions_mg == spec_impact(
                energy,
                model.emission_factor_mg_per_kwh as int,
            )
            &&& stats.abiotic_resources_ug == spec_impact(
                energy,
                model.abiotic_factor_ug_per_kwh as int,
            )
            &&& stats.primary_energy_j == spec_impact(
                energy,
                model.primary_energy_factor_j_per_kwh as int,
            )
        },
{
    let n = readings.len();
    if n == 0 {
        return Err(MonitorError::EmptySample);
    }
    let mut sum: u64 = 0;
    let mut i: usize = 0;
    while i < n
        invariant
            0 <= i <= n,
            n == readings@.len(),
            sum == sum_u64(readings@.take(i as int)),
            sum_u64(readings@) <= u64::MAX,
        decreases n - i,
    {
        proof {
            lemma_sum_u64_take_succ(readings@, i as int);
            lemma_sum_u64_prefix_le(readings@, i + 1);
            lemma_sum_u64_nonneg(readings@.take(i + 1));
        }
        sum = sum + readings[i];
        i = i + 1;
    }
    proof {
        assert(readings@.take(n as int) =~= readings@);
        lemma_div_is_ordered_by_denominator(sum as int, 1, n as int);
    }
    let average_power_mw: u64 = sum / (n as u64);
    assert(average_power_mw == spec_average_power_mw(readings@));
    proof {
        lemma_u64_mul_fits_u128(average_power_mw as int, duration_seconds as int);
    }
    let energy128: u128 = (average_power_mw as u128) * (duration_seconds as u128) / 3600;
    assert(energy128 == spec_energy_mwh(readings@, duration_seconds as int));
    let energy_mwh: u64 = energy128 as u64;
    proof {
        lemma_u64_mul_fits_u128(energy_mwh as int, model.emission_factor_mg_per_kwh as int);
        lemma_u64_mul_fits_u128(energy_mwh as int, model.abiotic_factor_ug_per_kwh as int);
        lemma_u64_mul_fits_u128(energy_mwh as int, model.primary_energy_factor_j_per_kwh as int);
    }
    let ghg_emissions_mg: u64 = ((energy_mwh as u128) * (model.emission_factor_mg_per_kwh as u128)
        / 1_000_000) as u64;
    let abiotic_resources_ug: u64 = ((energy_mwh as u128) * (model.abiotic_factor_ug_per_kwh
        as u128) / 1_000_000) as u64;
    let primary_energy_j: u64 = ((energy_mwh as u128) * (model.primary_energy_factor_j_per_kwh
        as u128) / 1_000_000) as u64;
    Ok(
        EnergyStats {
            average_power_mw,
            energy_mwh,
            ghg_emissions_mg,
            abiotic_resources_ug,
            primary_energy_j,
        },
    )
}

} // verus!
