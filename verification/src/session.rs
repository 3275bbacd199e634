//! The fixed-duration sampling session: the state a wall-clock monitoring
//! loop owns, and the decisions it takes each tick.
//!
//! The caller drives the loop: it reads the clock, gathers a telemetry
//! snapshot, records a sample, reports progress, and sleeps about a second
//! between iterations. Everything the loop decides — whether to keep going,
//! what each sample is worth, and what the session amounts to at the end —
//! lives here.

use vstd::prelude::*;
use crate::accountant::{
    calculate_metrics, stats_fit, spec_energy_mwh, spec_impact, spec_average_power_mw, EnergyStats,
};
use crate::errors::MonitorError;
use crate::estimator::{estimate_power_consumption, estimate_fits, spec_power_of};
use crate::power::PowerModel;
use crate::sums::{sum_u64, lemma_sum_u64_push, lemma_u64_mul_fits_u128};
use crate::telemetry::TelemetrySnapshot;

verus! {

/// Estimates the power for one snapshot and appends it to a reading
/// sequence whose running sum is tracked alongside. `None` — with nothing
/// recorded — when the estimate or the new sum would not be representable.
pub(crate) fn record_power_sample(
    model: &PowerModel,
    snapshot: &TelemetrySnapshot,
    readings_mw: &mut Vec<u64>,
    total_mw: &mut u64,
) -> (r: Option<u64>)
    requires
        model.wf(),
        *old(total_mw) == sum_u64(old(readings_mw)@),
    ensures
        *final(total_mw) == sum_u64(final(readings_mw)@),
        r matches Some(p) ==> p == spec_power_of(*model, *snapshot) && final(readings_mw)@ == old(
            readings_mw,
        )@.push(p),
        r is None ==> final(readings_mw)@ == old(readings_mw)@,
        r is Some <==> estimate_fits(*model, *snapshot) && sum_u64(old(readings_mw)@)
            + spec_power_of(*model, *snapshot) <= u64::MAX,
{
    match estimate_power_consumption(model, snapshot) {
        Some(power) => match total_mw.checked_add(power) {
            Some(new_total) => {
                readings_mw.push(power);
                *total_mw = new_total;
                proof {
                    lemma_sum_u64_push(old(readings_mw)@, power);
                }
                Some(power)
            },
            None => None,
        },
        None => None,
    }
}

/// Checks, without failing, whether the accounting of a session of `n`
/// readings summing to `total_mw` would stay within machine limits for the
/// given duration and model.
pub(crate) fn stats_within_limits(
    total_mw: u64,
    n: u64,
    duration_seconds: u64,
    model: &PowerModel,
    Ghost(readings): Ghost<Seq<u64>>,
) -> (b: bool)
    requires
        total_mw == sum_u64(readings),
        n == readings.len(),
    ensures
        b == stats_fit(readings, duration_seconds as int, *model),
{
    if n == 0 {
        return true;
    }
    let average_power_mw: u64 = total_mw / n;
    assert(average_power_mw == spec_average_power_mw(readings));
    proof {
        lemma_u64_mul_fits_u128(average_power_mw as int, duration_seconds as int);
    }
    let energy128: u128 = (average_power_mw as u128) * (duration_seconds as u128) / 3600;
    assert(energy128 == spec_energy_mwh(readings, duration_seconds as int));
    if energy128 > u64::MAX as u128 {
        return false;
    }
    let energy_mwh: u64 = energy128 as u64;
    proof {
        lemma_u64_mul_fits_u128(energy_mwh as int, model.emission_factor_mg_per_kwh as int);
        lemma_u64_mul_fits_u128(energy_mwh as int, model.abiotic_factor_ug_per_kwh as int);
        lemma_u64_mul_fits_u128(energy_mwh as int, model.primary_energy_factor_j_per_kwh as int);
    }
    let ghg128: u128 = (energy_mwh as u128) * (model.emission_factor_mg_per_kwh as u128)
        / 1_000_000;
    if ghg128 > u64::MAX as u128 {
        return false;
    }
    let abiotic128: u128 = (energy_mwh as u128) * (model.abiotic_factor_ug_per_kwh as u128)
        / 1_000_000;
    if abiotic128 > u64::MAX as u128 {
        return false;
    }
    let primary128: u128 = (energy_mwh as u128) * (model.primary_energy_factor_j_per_kwh as u128)
        / 1_000_000;
    if primary128 > u64::MAX as u128 {
        return false;
    }
    true
}

/// One fixed-duration monitoring session: Idle is before `new`, Running
/// while the caller keeps recording samples, Complete once `finish` has
/// derived the stats. The session owns its reading sequence exclusively;
/// readings are only ever appended.
pub struct FixedSession {
    /// The power model of the device, immutable for the session.
    pub model: PowerModel,
    /// The configured wall-clock duration, in seconds.
    pub duration_seconds: u64,
    /// The ordered, append-only power readings, in milliwatts.
    pub readings_mw: Vec<u64>,
    /// The running sum of the readings, in milliwatts.
    pub total_mw: u64,
}

impl FixedSession {
    /// A session is well formed when its model is and its running sum
    /// matches its readings.
    pub open spec fn wf(self) -> bool {
        &&& self.model.wf()
        &&& self.total_mw == sum_u64(self.readings_mw@)
    }

    /// Opens a session with no readings yet.
    pub fn new(model: PowerModel, duration_seconds: u64) -> (s: FixedSession)
        requires
            model.wf(),
        ensures
            s.wf(),
            s.model == model,
            s.duration_seconds == duration_seconds,
            s.readings_mw@.len() == 0,
    {
        FixedSession { model, duration_seconds, readings_mw: Vec::new(), total_mw: 0 }
    }

    /// The termination test, checked once per iteration: keep sampling
    /// while the elapsed wall time is below the configured duration. A
    /// session configured for zero seconds never admits an iteration.
    pub fn should_continue(&self, elapsed_seconds: u64) -> (b: bool)
        ensures
            b == (elapsed_seconds < self.duration_seconds),
    {
        elapsed_seconds < self.duration_seconds
    }

    /// Takes one sample: estimates the power for the snapshot, appends the
    /// reading, and returns it for the progress report. `None` — with the
    /// session unchanged — when the estimate or the new running sum would
    /// not be representable.
    pub fn record_sample(&mut self, snapshot: &TelemetrySnapshot) -> (r: Option<u64>)
        requires
            old(self).wf(),
        ensures
            final(self).wf(),
            final(self).model == old(self).model,
            final(self).duration_seconds == old(self).duration_seconds,
            r matches Some(p) ==> p == spec_power_of(old(self).model, *snapshot)
                && final(self).readings_mw@ == old(self).readings_mw@.push(p),
            r is None ==> final(self).readings_mw@ == old(self).readings_mw@,
            r is Some <==> estimate_fits(old(self).model, *snapshot) && sum_u64(
                old(self).readings_mw@,
            ) + spec_power_of(old(self).model, *snapshot) <= u64::MAX,
    {
        record_power_sample(&self.model, snapshot, &mut self.readings_mw, &mut self.total_mw)
    }

    /// Whether deriving this session's stats stays within machine limits.
    /// Callers check this once, at session end, before [`Self::finish`].
    pub fn stats_would_fit(&self) -> (b: bool)
        requires
            self.wf(),
        ensures
            b == stats_fit(self.readings_mw@, self.duration_seconds as int, self.model),
    {
        let n = self.readings_mw.len();
        stats_within_limits(
            self.total_mw,
            n as u64,
            self.duration_seconds,
            &self.model,
            Ghost(self.readings_mw@),
        )
    }

    /// Closes the session: derives the environmental metrics from the full
    /// reading sequence. A session that recorded nothing — in particular one
    /// configured for zero seconds — fails with
    /// [`MonitorError::EmptySample`] instead of reaching the accountant's
    /// divisions.
    pub fn finish(&self) -> (r: Result<EnergyStats, MonitorError>)
        requires
            self.wf(),
            stats_fit(self.readings_mw@, self.duration_seconds as int, self.model),
        ensures
            r is Err <==> self.readings_mw@.len() == 0,
            r matches Err(e) ==> e == MonitorError::EmptySample,
            r matches Ok(stats) ==> {
                let energy = spec_energy_mwh(self.readings_mw@, self.duration_seconds as int);
                &&& stats.average_power_mw == spec_average_power_mw(self.readings_mw@)
                &&& stats.energy_mwh == energy
                &&& stats.ghg_emissions_mg == spec_impact(
                    energy,
                    self.model.emission_factor_mg_per_kwh as int,
                )
                &&& stats.abiotic_resources_ug == spec_impact(
                    energy,
                    self.model.abiotic_factor_ug_per_kwh as int,
                )
                &&& stats.primary_energy_j == spec_impact(
                    energy,
                    self.model.primary_energy_factor_j_per_kwh as int,
                )
            },
    {
        calculate_metrics(&self.readings_mw, self.duration_seconds, &self.model)
    }
}

} // verus!
