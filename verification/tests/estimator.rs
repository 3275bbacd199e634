use gaspi::estimator::{estimate_power_consumption, temp_factor_milli};
use gaspi::power::PowerModel;
use gaspi::telemetry::TelemetrySnapshot;

fn snapshot(cpu_millipct: u64, mem_millipct: u64, temp_millic: Option<i64>) -> TelemetrySnapshot {
    TelemetrySnapshot {
        cpu_usage_millipct: cpu_millipct,
        memory_usage_millipct: mem_millipct,
        temperature_millic: temp_millic,
    }
}

#[test]
fn idle_cold_draws_base_power() {
    let model = PowerModel::default();
    let s = snapshot(0, 0, Some(40_000));
    assert_eq!(estimate_power_consumption(&model, &s), Some(5_000));
}

#[test]
fn full_load_hot_draws_full_weighted_span() {
    // base + (max - base) * (0.70 + 0.15 * 0.25 + 0.15) = 5 W + 10 W * 0.8875
    let model = PowerModel::default();
    let s = snapshot(100_000, 100_000, Some(80_000));
    assert_eq!(estimate_power_consumption(&model, &s), Some(13_875));
    let hotter = snapshot(100_000, 100_000, Some(95_000));
    assert_eq!(estimate_power_consumption(&model, &hotter), Some(13_875));
}

#[test]
fn missing_sensor_reads_as_cold() {
    let model = PowerModel::default();
    let without = snapshot(50_000, 30_000, None);
    let cold = snapshot(50_000, 30_000, Some(0));
    assert_eq!(
        estimate_power_consumption(&model, &without),
        estimate_power_consumption(&model, &cold)
    );
}

#[test]
fn estimate_is_monotone_in_each_input() {
    let model = PowerModel::default();
    let mut last = 0u64;
    for cpu in [0u64, 10_000, 50_000, 90_000, 100_000] {
        let p = estimate_power_consumption(&model, &snapshot(cpu, 20_000, Some(50_000))).unwrap();
        assert!(p >= last);
        last = p;
    }
    last = 0;
    for mem in [0u64, 25_000, 60_000, 100_000] {
        let p = estimate_power_consumption(&model, &snapshot(30_000, mem, Some(50_000))).unwrap();
        assert!(p >= last);
        last = p;
    }
    last = 0;
    for temp in [-20_000i64, 0, 40_000, 55_000, 70_000, 80_000, 120_000] {
        let p = estimate_power_consumption(&model, &snapshot(30_000, 20_000, Some(temp))).unwrap();
        assert!(p >= last);
        last = p;
    }
}

#[test]
fn temp_factor_clamps_and_is_linear_between() {
    assert_eq!(temp_factor_milli(-50_000), 0);
    assert_eq!(temp_factor_milli(0), 0);
    assert_eq!(temp_factor_milli(40_000), 0);
    assert_eq!(temp_factor_milli(41_000), 25);
    assert_eq!(temp_factor_milli(50_000), 250);
    assert_eq!(temp_factor_milli(60_000), 500);
    assert_eq!(temp_factor_milli(79_999), 999);
    assert_eq!(temp_factor_milli(80_000), 1000);
    assert_eq!(temp_factor_milli(150_000), 1000);
}

#[test]
fn unrepresentable_memory_term_is_rejected() {
    let model = PowerModel::from_overrides(None, None, Some(u64::MAX), None, None, None);
    let s = snapshot(0, u64::MAX, Some(0));
    assert_eq!(estimate_power_consumption(&model, &s), None);
}
