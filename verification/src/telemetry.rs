//! Reduction of raw telemetry readings (per-core CPU usage, sensor
//! temperatures, memory counters) into the snapshot the estimator consumes.

use vstd::prelude::*;
use crate::sums::{
    sum_u64, sum_i64, lemma_sum_u64_take_succ, lemma_sum_u64_le_len_times_max,
    lemma_sum_i64_bounds,
};
use vstd::arithmetic::div_mod::{lemma_div_is_ordered, lemma_div_multiples_vanish};

verus! {

/// Largest magnitude accepted for a single temperature reading, in
/// millidegrees Celsius. The bound keeps the running sum representable
/// whatever the number of sensors; it is far beyond any physical reading.
pub const TEMPERATURE_ABS_MAX_MILLIC: i64 = 1_000_000_000;

/// One telemetry snapshot, recomputed fresh for every sample.
///
/// Percentages are in thousandths of a percent (100% is 100_000) and the
/// temperature in millidegrees Celsius; the temperature is absent when the
/// machine exposes no sensor.
#[derive(Clone, Copy, Debug, PartialEq, Eq)]
pub struct TelemetrySnapshot {
    pub cpu_usage_millipct: u64,
    pub memory_usage_millipct: u64,
    pub temperature_millic: Option<i64>,
}

/// Truncating (round-toward-zero) division of a signed sum by a positive
/// count, the rounding the averages below use.
pub open spec fn avg_trunc(sum: int, n: int) -> int {
    if sum >= 0 {
        sum / n
    } else {
        -((-sum) / n)
    }
}

/// Mean per-core CPU usage in thousandths of a percent, or 0 when no core
/// was detected.
pub fn average_cpu_usage(usages: &Vec<u64>) -> (r: u64)
    ensures
        usages@.len() > 0 ==> r == sum_u64(usages@) / usages@.len() as int,
        usages@.len() == 0 ==> r == 0,
{
    let n = usages.len();
    if n == 0 {
        return 0;
    }
    let mut sum: u128 = 0;
    let mut i: usize = 0;
    while i < n
        invariant
            0 <= i <= n,
            n == usages@.len(),
            sum == sum_u64(usages@.take(i as int)),
            sum <= i * (u64::MAX as int),
        decreases n - i,
    {
        proof {
            lemma_sum_u64_take_succ(usages@, i as int);
        }
        sum = sum + usages[i] as u128;
        i = i + 1;
    }
    proof {
        assert(usages@.take(n as int) =~= usages@);
        lemma_sum_u64_le_len_times_max(usages@);
        lemma_div_is_ordered(sum_u64(usages@), usages@.len() * (u64::MAX as int), n as int);
        lemma_div_multiples_vanish(u64::MAX as int, n as int);
    }
    (sum / (n as u128)) as u64
}

/// Mean sensor temperature in millidegrees Celsius, rounded toward zero, or
/// `None` when no sensor was detected.
pub fn average_temperature(temperatures_millic: &Vec<i64>) -> (r: Option<i64>)
    requires
        forall|i: int|
            0 <= i < temperatures_millic@.len() ==> -(TEMPERATURE_ABS_MAX_MILLIC as int)
                <= #[trigger] temperatures_millic@[i] <= TEMPERATURE_ABS_MAX_MILLIC as int,
    ensures
        r is Some <==> temperatures_millic@.len() > 0,
        r matches Some(t) ==> t == avg_trunc(
            sum_i64(temperatures_millic@),
            temperatures_millic@.len() as int,
        ),
{
    let n = temperatures_millic.len();
    if n == 0 {
        return None;
    }
    let mut sum: i128 = 0;
    let mut i: usize = 0;
    while i < n
        invariant
            0 <= i <= n,
            n == temperatures_millic@.len(),
            forall|j: int|
                0 <= j < temperatures_millic@.len() ==> -1_000_000_000
                    <= #[trigger] temperatures_millic@[j] <= 1_000_000_000,
            sum == sum_i64(temperatures_millic@.take(i as int)),
            -(i * 1_000_000_000) <= sum <= i * 1_000_000_000,
        decreases n - i,
    {
        proof {
            assert(temperatures_millic@.take(i + 1).drop_last() =~= temperatures_millic@.take(
                i as int,
            ));
            assert(temperatures_millic@.take(i + 1).last() == temperatures_millic@[i as int]);
        }
        sum = sum + temperatures_millic[i] as i128;
        i = i + 1;
    }
    proof {
        assert(temperatures_millic@.take(n as int) =~= temperatures_millic@);
        lemma_sum_i64_bounds(temperatures_millic@, 1_000_000_000);
        lemma_div_multiples_vanish(1_000_000_000, n as int);
    }
    if sum >= 0 {
        proof {
            lemma_div_is_ordered(sum as int, n as int * 1_000_000_000, n as int);
        }
        let q: u128 = (sum as u128) / (n as u128);
        Some(q as i64)
    } else {
        proof {
            lemma_div_is_ordered(-(sum as int), n as int * 1_000_000_000, n as int);
        }
        let q: u128 = ((-sum) as u128) / (n as u128);
        Some(-(q as i64))
    }
}

/// Total virtual memory: RAM plus swap, in bytes.
pub fn total_virtual_memory(ram_bytes: u64, swap_bytes: u64) -> (t: u64)
    requires
        ram_bytes + swap_bytes <= u64::MAX,
    ensures
        t == ram_bytes + swap_bytes,
{
    ram_bytes + swap_bytes
}

/// Used virtual memory: used RAM plus used swap, in bytes.
pub fn used_virtual_memory(used_ram_bytes: u64, used_swap_bytes: u64) -> (t: u64)
    requires
        used_ram_bytes + used_swap_bytes <= u64::MAX,
    ensures
        t == used_ram_bytes + used_swap_bytes,
{
    used_ram_bytes + used_swap_bytes
}

/// Share of virtual memory in use, in thousandths of a percent; 0 when the
/// machine reports no memory at all.
pub fn usage_virtual_memory_percentage(used_bytes: u64, total_bytes: u64) -> (r: u64)
    requires
        used_bytes <= total_bytes,
    ensures
        total_bytes > 0 ==> r == used_bytes * 100_000 / total_bytes as int,
        total_bytes == 0 ==> r == 0,
        r <= 100_000,
{
    if total_bytes == 0 {
        return 0;
    }
    proof {
        vstd::arithmetic::mul::lemma_mul_inequality(used_bytes as int, total_bytes as int, 100_000);
        lemma_div_is_ordered(
            used_bytes * 100_000,
            total_bytes * 100_000,
            total_bytes as int,
        );
        lemma_div_multiples_vanish(100_000, total_bytes as int);
    }
    ((used_bytes as u128) * 100_000 / (total_bytes as u128)) as u64
}

impl TelemetrySnapshot {
    /// Reduces the raw telemetry lists and memory counters into one
    /// snapshot: mean CPU usage (0 when no core is listed), mean sensor
    /// temperature (absent when no sensor is listed), and the share of
    /// virtual memory in use.
    pub fn from_readings(
        cpu_usages_millipct: &Vec<u64>,
        temperatures_millic: &Vec<i64>,
        used_bytes: u64,
        total_bytes: u64,
    ) -> (s: TelemetrySnapshot)
        requires
            used_bytes <= total_bytes,
            forall|i: int|
                0 <= i < temperatures_millic@.len() ==> -(TEMPERATURE_ABS_MAX_MILLIC as int)
                    <= #[trigger] temperatures_millic@[i] <= TEMPERATURE_ABS_MAX_MILLIC as int,
        ensures
            cpu_usages_millipct@.len() > 0 ==> s.cpu_usage_millipct == sum_u64(
                cpu_usages_millipct@,
            ) / cpu_usages_millipct@.len() as int,
            cpu_usages_millipct@.len() == 0 ==> s.cpu_usage_millipct == 0,
            s.temperature_millic is Some <==> temperatures_millic@.len() > 0,
            s.temperature_millic matches Some(t) ==> t == avg_trunc(
                sum_i64(temperatures_millic@),
                temperatures_millic@.len() as int,
            ),
            total_bytes > 0 ==> s.memory_usage_millipct == used_bytes * 100_000
                / total_bytes as int,
            total_bytes == 0 ==> s.memory_usage_millipct == 0,
    {
        TelemetrySnapshot {
            cpu_usage_millipct: average_cpu_usage(cpu_usages_millipct),
            memory_usage_millipct: usage_virtual_memory_percentage(used_bytes, total_bytes),
            temperature_millic: average_temperature(temperatures_millic),
        }
    }
}

} // verus!
