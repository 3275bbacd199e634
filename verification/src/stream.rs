//! The stream-bound sampling session: the state a streamed-response
//! monitoring loop owns, and the decisions it takes per chunk.
//!
//! The caller issues the request and awaits the chunks; this module decides
//! whether a session opens at all (the initial status must be a success),
//! samples power exactly once per chunk, extracts the chunk's embedded text
//! fragment when there is one, and settles what the session amounts to when
//! the stream ends — cleanly or not.

use vstd::prelude::*;
use crate::accountant::{
    calculate_metrics, stats_fit, spec_energy_mwh, spec_impact, spec_average_power_mw, EnergyStats,
};
use crate::errors::MonitorError;
use crate::estimator::{estimate_fits, spec_power_of};
use crate::power::PowerModel;
use crate::session::{record_power_sample, stats_within_limits};
use crate::sums::sum_u64;
use crate::telemetry::TelemetrySnapshot;

verus! {

/// The text fragment embedded in one streamed chunk: the "response" string
/// field of the chunk's JSON object, absent when the chunk does not decode
/// to an object carrying that field as a string. A function of the chunk's
/// bytes alone.
pub uninterp spec fn response_fragment_of(chunk: Seq<u8>) -> Option<Seq<char>>;

/// Relies on serde_json::from_str, the str-indexing of serde_json::Value
/// (which yields Null rather than failing when the key or the object is
/// missing) and Value::as_str, composed on the chunk's bytes after a lossy
/// UTF-8 decode: together they return the "response" string field of the
/// chunk's JSON object, or nothing, and depend on the bytes alone.
#[verifier::external_body]
fn extract_response_fragment(chunk: &[u8]) -> (r: Option<String>)
    ensures
        r matches Some(t) ==> response_fragment_of(chunk@) == Some(t@),
        r is None ==> response_fragment_of(chunk@) is None,
{
    let text = String::from_utf8_lossy(chunk);
    match serde_json::from_str::<serde_json::Value>(&text) {
        Ok(value) => value["response"].as_str().map(str::to_string),
        Err(_) => None,
    }
}

/// What one chunk yielded: the power reading sampled for it, and the text
/// fragment it carried, if any. A malformed chunk still yields a reading;
/// only its fragment is absent.
pub struct ChunkOutcome {
    /// The power reading recorded for this chunk, in milliwatts; `None`
    /// when recording it would not have been representable.
    pub power_mw: Option<u64>,
    /// The text fragment to forward, when the chunk carried one.
    pub text_fragment: Option<String>,
}

/// One stream-bound monitoring session, alive from a successful initial
/// response until the stream ends. The session owns its reading sequence
/// exclusively; readings are only ever appended, one per chunk.
pub struct StreamSession {
    /// The power model of the device, immutable for the session.
    pub model: PowerModel,
    /// The ordered, append-only power readings, in milliwatts.
    pub readings_mw: Vec<u64>,
    /// The running sum of the readings, in milliwatts.
    pub total_mw: u64,
}

impl StreamSession {
    /// A session is well formed when its model is and its running sum
    /// matches its readings.
    pub open spec fn wf(self) -> bool {
        &&& self.model.wf()
        &&& self.total_mw == sum_u64(self.readings_mw@)
    }

    /// Opens a session for an already-initiated streamed response. A
    /// non-success initial status fails at once with
    /// [`MonitorError::Transport`]: no session opens and nothing is ever
    /// sampled for that response.
    pub fn begin(model: PowerModel, status_success: bool) -> (r: Result<
        StreamSession,
        MonitorError,
    >)
        requires
            model.wf(),
        ensures
            status_success ==> (r matches Ok(s) && s.wf() && s.model == model
                && s.readings_mw@.len() == 0),
            !status_success ==> (r matches Err(e) && e == MonitorError::Transport),
    {
        if status_success {
            Ok(StreamSession { model, readings_mw: Vec::new(), total_mw: 0 })
        } else {
            Err(MonitorError::Transport)
        }
    }

    /// Handles one inbound chunk: samples telemetry-derived power exactly
    /// once, whatever the chunk holds, and extracts the chunk's text
    /// fragment when it decodes to an object with a "response" string
    /// field. A malformed chunk costs only its fragment — the session
    /// continues and the reading is still taken.
    pub fn process_chunk(&mut self, snapshot: &TelemetrySnapshot, chunk: &[u8]) -> (r:
        ChunkOutcome)
        requires
            old(self).wf(),
        ensures
            final(self).wf(),
            final(self).model == old(self).model,
            r.power_mw matches Some(p) ==> p == spec_power_of(old(self).model, *snapshot)
                && final(self).readings_mw@ == old(self).readings_mw@.push(p),
            r.power_mw is None ==> final(self).readings_mw@ == old(self).readings_mw@,
            r.power_mw is Some <==> estimate_fits(old(self).model, *snapshot) && sum_u64(
                old(self).readings_mw@,
            ) + spec_power_of(old(self).model, *snapshot) <= u64::MAX,
            r.text_fragment matches Some(t) ==> response_fragment_of(chunk@) == Some(t@),
            r.text_fragment is None ==> response_fragment_of(chunk@) is None,
    {
        let power_mw = record_power_sample(
            &self.model,
            snapshot,
            &mut self.readings_mw,
            &mut self.total_mw,
        );
        let text_fragment = extract_response_fragment(chunk);
        ChunkOutcome { power_mw, text_fragment }
    }

    /// Whether deriving this session's stats stays within machine limits
    /// for the elapsed duration. Callers check this once, at clean
    /// end-of-stream, before [`Self::conclude`].
    pub fn stats_would_fit(&self, duration_seconds: u64) -> (b: bool)
        requires
            self.wf(),
        ensures
            b == stats_fit(self.readings_mw@, duration_seconds as int, self.model),
    {
        let n = self.readings_mw.len();
        stats_within_limits(
            self.total_mw,
            n as u64,
            duration_seconds,
            &self.model,
            Ghost(self.readings_mw@),
        )
    }

    /// Settles the session once the stream is over. A mid-stream transport
    /// failure is fatal: the readings already collected belong to a partial
    /// session and no stats are derived for them. On a clean end-of-stream
    /// the metrics are derived from the full reading sequence and the
    /// elapsed wall time — unless nothing was sampled (an empty stream), a
    /// defined failure of its own.
    pub fn conclude(&self, clean_end: bool, duration_seconds: u64) -> (r: Result<
        EnergyStats,
        MonitorError,
    >)
        requires
            self.wf(),
            clean_end ==> stats_fit(self.readings_mw@, duration_seconds as int, self.model),
        ensures
            !clean_end ==> (r matches Err(e) && e == MonitorError::Transport),
            clean_end ==> (r is Err <==> self.readings_mw@.len() == 0),
            clean_end && r is Err ==> (r matches Err(e) && e == MonitorError::EmptySample),
            clean_end && self.readings_mw@.len() > 0 ==> (r matches Ok(stats) && {
                let energy = spec_energy_mwh(self.readings_mw@, duration_seconds as int);
                &&& stats.average_power_mw == spec_average_power_mw(self.readings_mw@)
                &&& stats.energy_mwh == energy
                &&& stats.ghg_emissions_mg == spec_impact(
                    energy,
                    self.model.emission_factor_mg_per_kwh as int,
                )
                &&& stats.abiotic_resources_ug == spec_impact(
                    energy,
                    self.model.abiotic_factor_ug_per_kwh as int,
                )
                &&& stats.primary_energy_j == spec_impact(
                    energy,
                    self.model.primary_energy_factor_j_per_kwh as int,
                )
            }),
    {
        if !clean_end {
            return Err(MonitorError::Transport);
        }
        calculate_metrics(&self.readings_mw, duration_seconds, &self.model)
    }
}

} // verus!
