//! The power estimator: a pure linear model from one telemetry snapshot and
//! a power model to an instantaneous draw in milliwatts.
//!
//! The load fraction is a weighted sum, in parts per million of full load:
//! 70% CPU usage, 15% of the memory term (memory usage scaled by the RAM
//! power factor), and 15% of the temperature factor. The estimated draw is
//! the idle draw plus that fraction of the span between idle and full load.
//! CPU and memory usage are expected in [0, 100]%; values beyond that range
//! are not clamped here and propagate into the result.

use vstd::prelude::*;
use crate::power::PowerModel;
use crate::telemetry::TelemetrySnapshot;
use vstd::arithmetic::div_mod::{
    lemma_div_is_ordered, lemma_fundamental_div_mod, lemma_div_multiples_vanish,
};
use vstd::arithmetic::mul::lemma_mul_basics;
use vstd::arithmetic::mul::lemma_mul_inequality;

verus! {

/// The temperature factor in thousandths: 0 at or below 40 °C, 1000 at or
/// above 80 °C, linear in between.
pub open spec fn spec_temp_factor_milli(temp_millic: int) -> int {
    if temp_millic <= 40_000 {
        0
    } else if temp_millic >= 80_000 {
        1000
    } else {
        (temp_millic - 40_000) / 40
    }
}

/// The weighted load numerator in parts per million, before the final
/// division: 0.70 of the CPU fraction, 0.15 of the memory term and 0.15 of
/// the temperature factor, each term exact.
pub open spec fn spec_weighted_numerator(
    cpu_millipct: int,
    mem_millipct: int,
    temp_factor_milli: int,
    ram_power_factor_milli: int,
) -> int {
    7_000_000 * cpu_millipct + 1500 * mem_millipct * ram_power_factor_milli + 150_000_000
        * temp_factor_milli
}

/// The weighted load fraction in parts per million of full load.
pub open spec fn spec_weighted_ppm(
    cpu_millipct: int,
    mem_millipct: int,
    temp_factor_milli: int,
    ram_power_factor_milli: int,
) -> int {
    spec_weighted_numerator(cpu_millipct, mem_millipct, temp_factor_milli, ram_power_factor_milli)
        / 1_000_000
}

/// The estimated draw in milliwatts for given usages and temperature: the
/// idle draw plus the weighted load fraction of the idle-to-full span.
pub open spec fn spec_power_mw(
    model: PowerModel,
    cpu_millipct: int,
    mem_millipct: int,
    temp_millic: int,
) -> int {
    model.base_power_mw + (model.max_power_mw - model.base_power_mw) * spec_weighted_ppm(
        cpu_millipct,
        mem_millipct,
        spec_temp_factor_milli(temp_millic),
        model.ram_power_factor_milli as int,
    ) / 1_000_000
}

/// The temperature a snapshot contributes to the model: a machine with no
/// sensor is treated as fully cold, like one reading 0 °C.
pub open spec fn spec_snapshot_temp_millic(snapshot: TelemetrySnapshot) -> int {
    match snapshot.temperature_millic {
        Some(t) => t as int,
        None => 0,
    }
}

/// The estimated draw for one snapshot.
pub open spec fn spec_power_of(model: PowerModel, snapshot: TelemetrySnapshot) -> int {
    spec_power_mw(
        model,
        snapshot.cpu_usage_millipct as int,
        snapshot.memory_usage_millipct as int,
        spec_snapshot_temp_millic(snapshot),
    )
}

/// Whether the estimate for a snapshot stays within machine limits: the
/// memory term's product and the resulting draw must both be representable.
/// This holds for every snapshot whose percentages are within their nominal
/// [0, 100]% range, whatever well-formed model is in use.
pub open spec fn estimate_fits(model: PowerModel, snapshot: TelemetrySnapshot) -> bool {
    &&& snapshot.memory_usage_millipct * model.ram_power_factor_milli <= u64::MAX
    &&& spec_power_of(model, snapshot) <= u64::MAX
}

/// The temperature factor in thousandths, from a temperature in
/// millidegrees Celsius.
pub fn temp_factor_milli(temp_millic: i64) -> (r: u64)
    ensures
        r == spec_temp_factor_milli(temp_millic as int),
        r <= 1000,
{
    if temp_millic <= 40_000 {
        0
    } else if temp_millic >= 80_000 {
        1000
    } else {
        let d: u64 = (temp_millic - 40_000) as u64;
        d / 40
    }
}

/// The temperature factor clamps at 0 up to 40 °C and at 1000 from 80 °C
/// on, and is linear in the temperature in between.
pub proof fn lemma_temp_factor_piecewise(t: int)
    ensures
        t <= 40_000 ==> spec_temp_factor_milli(t) == 0,
        t >= 80_000 ==> spec_temp_factor_milli(t) == 1000,
        40_000 <= t <= 80_000 ==> spec_temp_factor_milli(t) == (t - 40_000) / 40,
{
}

/// The temperature factor never decreases as the temperature rises.
pub proof fn lemma_temp_factor_monotone(t1: int, t2: int)
    requires
        t1 <= t2,
    ensures
        spec_temp_factor_milli(t1) <= spec_temp_factor_milli(t2),
{
    if 40_000 < t1 && t1 < 80_000 && 40_000 < t2 && t2 < 80_000 {
        lemma_div_is_ordered(t1 - 40_000, t2 - 40_000, 40);
    } else if 40_000 < t1 && t1 < 80_000 {
        lemma_div_is_ordered(t1 - 40_000, 39_999, 40);
    } else if 40_000 < t2 && t2 < 80_000 {
        lemma_div_is_ordered(0, t2 - 40_000, 40);
    }
}

/// The temperature factor stays in [0, 1000].
pub proof fn lemma_temp_factor_bounds(t: int)
    ensures
        0 <= spec_temp_factor_milli(t) <= 1000,
{
    if 40_000 < t && t < 80_000 {
        lemma_div_is_ordered(0, t - 40_000, 40);
        lemma_div_is_ordered(t - 40_000, 39_999, 40);
    }
}

/// The estimated draw is monotonically non-decreasing in CPU usage, memory
/// usage and temperature, each independently and together: raising any of
/// them (for a well-formed model) never lowers the estimate.
pub proof fn lemma_power_monotone(
    model: PowerModel,
    cpu1: int,
    mem1: int,
    t1: int,
    cpu2: int,
    mem2: int,
    t2: int,
)
    requires
        model.wf(),
        0 <= cpu1 <= cpu2,
        0 <= mem1 <= mem2,
        t1 <= t2,
    ensures
        spec_power_mw(model, cpu1, mem1, t1) <= spec_power_mw(model, cpu2, mem2, t2),
{
    let rpf = model.ram_power_factor_milli as int;
    let tf1 = spec_temp_factor_milli(t1);
    let tf2 = spec_temp_factor_milli(t2);
    lemma_temp_factor_monotone(t1, t2);
    lemma_temp_factor_bounds(t1);
    assert(1500 * mem1 * rpf <= 1500 * mem2 * rpf) by {
        lemma_mul_inequality(1500 * mem1, 1500 * mem2, rpf);
    }
    let n1 = spec_weighted_numerator(cpu1, mem1, tf1, rpf);
    let n2 = spec_weighted_numerator(cpu2, mem2, tf2, rpf);
    assert(n1 <= n2);
    lemma_div_is_ordered(n1, n2, 1_000_000);
    let w1 = spec_weighted_ppm(cpu1, mem1, tf1, rpf);
    let w2 = spec_weighted_ppm(cpu2, mem2, tf2, rpf);
    let dm = model.max_power_mw - model.base_power_mw;
    assert(dm * w1 <= dm * w2) by {
        lemma_mul_inequality(w1, w2, dm);
    }
    lemma_div_is_ordered(dm * w1, dm * w2, 1_000_000);
}

/// With everything idle and cold — no CPU load, no memory load, 40 °C or
/// less — the model draws exactly its idle power, whatever the model.
pub proof fn lemma_idle_cold_draws_base(model: PowerModel, temp_millic: int)
    requires
        model.wf(),
        temp_millic <= 40_000,
    ensures
        spec_power_mw(model, 0, 0, temp_millic) == model.base_power_mw,
{
    let rpf = model.ram_power_factor_milli as int;
    assert(1500 * 0 * rpf == 0) by {
        lemma_mul_basics(rpf);
    }
    assert(spec_weighted_numerator(0, 0, 0, rpf) == 0);
    lemma_div_multiples_vanish(0, 1_000_000);
    assert(spec_weighted_ppm(0, 0, 0, rpf) == 0);
    let dm = model.max_power_mw - model.base_power_mw;
    assert(dm * 0 == 0) by {
        lemma_mul_basics(dm);
    }
}

/// At full CPU and memory load and 80 °C or more, the load fraction is
/// exactly 0.70 + 0.15 times the RAM power factor + 0.15, and the model
/// draws its idle power plus that fraction of the idle-to-full span —
/// whatever the model. In parts per million the fraction is
/// `850_000 + 150 * ram_power_factor_milli`.
pub proof fn lemma_full_load_hot_draw(model: PowerModel, temp_millic: int)
    requires
        model.wf(),
        temp_millic >= 80_000,
    ensures
        spec_power_mw(model, 100_000, 100_000, temp_millic) == model.base_power_mw + (
        model.max_power_mw - model.base_power_mw) * (850_000 + 150
            * model.ram_power_factor_milli) / 1_000_000,
{
    let rpf = model.ram_power_factor_milli as int;
    let w = 850_000 + 150 * rpf;
    assert(1500 * 100_000 * rpf == 150_000_000 * rpf) by {
        vstd::arithmetic::mul::lemma_mul_is_associative(1500, 100_000, rpf);
    }
    assert(spec_weighted_numerator(100_000, 100_000, 1000, rpf) == 1_000_000 * w) by {
        vstd::arithmetic::mul::lemma_mul_is_distributive_add(1_000_000, 850_000, 150 * rpf);
        vstd::arithmetic::mul::lemma_mul_is_associative(1_000_000, 150, rpf);
    }
    lemma_div_multiples_vanish(w, 1_000_000);
    assert(spec_weighted_ppm(100_000, 100_000, 1000, rpf) == w);
}

/// Estimates the instantaneous draw in milliwatts for one snapshot, or
/// `None` when the machine-limit side conditions of [`estimate_fits`] do not
/// hold (impossible for percentages within their nominal range).
pub fn estimate_power_consumption(model: &PowerModel, snapshot: &TelemetrySnapshot) -> (r: Option<
    u64,
>)
    requires
        model.wf(),
    ensures
        r is Some <==> estimate_fits(*model, *snapshot),
        r matches Some(p) ==> p == spec_power_of(*model, *snapshot),
{
    let temp: i64 = match snapshot.temperature_millic {
        Some(t) => t,
        None => 0,
    };
    let tf: u64 = temp_factor_milli(temp);
    let mem_rpf: u64 = match snapshot.memory_usage_millipct.checked_mul(
        model.ram_power_factor_milli,
    ) {
        Some(v) => v,
        None => {
            return None;
        },
    };
    let num: u128 = 7_000_000u128 * (snapshot.cpu_usage_millipct as u128) + 1500u128 * (
    mem_rpf as u128) + 150_000_000u128 * (tf as u128);
    let ghost cpu = snapshot.cpu_usage_millipct as int;
    let ghost mem = snapshot.memory_usage_millipct as int;
    let ghost rpf = model.ram_power_factor_milli as int;
    proof {
        assert(mem_rpf == mem * rpf);
        vstd::arithmetic::mul::lemma_mul_is_associative(1500, mem, rpf);
        assert(1500 * (mem_rpf as int) == 1500 * mem * rpf);
    }
    assert(num == spec_weighted_numerator(cpu, mem, tf as int, rpf));
    let w: u128 = num / 1_000_000;
    assert(w == spec_weighted_ppm(cpu, mem, tf as int, rpf));
    let dm: u64 = model.max_power_mw - model.base_power_mw;
    if dm != 0 && w > u128::MAX / (dm as u128) {
        proof {
            lemma_fundamental_div_mod(u128::MAX as int, dm as int);
            vstd::arithmetic::div_mod::lemma_mod_bound(u128::MAX as int, dm as int);
            assert(dm as int * (w as int) > u128::MAX as int) by (nonlinear_arith)
                requires
                    w as int >= u128::MAX as int / dm as int + 1,
                    u128::MAX as int == (dm as int) * ((u128::MAX as int) / (dm as int)) + (
                    u128::MAX as int) % (dm as int),
                    0 <= (u128::MAX as int) % (dm as int) < (dm as int),
            ;
            lemma_div_is_ordered(u128::MAX as int + 1, dm as int * w as int, 1_000_000);
            assert(spec_power_of(*model, *snapshot) > u64::MAX);
        }
        return None;
    }
    proof {
        if dm != 0 {
            lemma_fundamental_div_mod(u128::MAX as int, dm as int);
            vstd::arithmetic::div_mod::lemma_mod_bound(u128::MAX as int, dm as int);
            assert(dm as int * (w as int) <= u128::MAX as int) by (nonlinear_arith)
                requires
                    0 <= w as int <= u128::MAX as int / dm as int,
                    u128::MAX as int == (dm as int) * ((u128::MAX as int) / (dm as int)) + (
                    u128::MAX as int) % (dm as int),
                    0 <= (u128::MAX as int) % (dm as int) < (dm as int),
            ;
        }
        assert(dm as int * (w as int) <= u128::MAX as int);
    }
    let prod: u128 = (dm as u128) * w;
    let scaled: u128 = prod / 1_000_000;
    proof {
        lemma_div_is_ordered(prod as int, u128::MAX as int, 1_000_000);
    }
    let power128: u128 = (model.base_power_mw as u128) + scaled;
    assert(power128 == spec_power_of(*model, *snapshot));
    if power128 > u64::MAX as u128 {
        return None;
    }
    Some(power128 as u64)
}

} // verus!
