use gaspi::power::{
    PowerModel, DEFAULT_ABIOTIC_FACTOR_UG_PER_KWH, DEFAULT_BASE_POWER_MW,
    DEFAULT_EMISSION_FACTOR_MG_PER_KWH, DEFAULT_MAX_POWER_MW,
    DEFAULT_PRIMARY_ENERGY_FACTOR_J_PER_KWH,
};
use gaspi::telemetry::{
    average_cpu_usage, average_temperature, total_virtual_memory, usage_virtual_memory_percentage,
    used_virtual_memory, TelemetrySnapshot,
};

#[test]
fn cpu_usage_averages_and_defaults_to_zero() {
    assert_eq!(average_cpu_usage(&Vec::new()), 0);
    assert_eq!(average_cpu_usage(&vec![10_000, 20_000, 40_000]), 23_333);
    assert_eq!(average_cpu_usage(&vec![55_500]), 55_500);
}

#[test]
fn temperature_averages_or_reports_no_sensor() {
    assert_eq!(average_temperature(&Vec::new()), None);
    assert_eq!(average_temperature(&vec![50_000, 60_000]), Some(55_000));
    assert_eq!(average_temperature(&vec![-10_000, 5_000]), Some(-2_500));
    // Rounding is toward zero, also below freezing.
    assert_eq!(average_temperature(&vec![-5_000, 0, 0]), Some(-1_666));
    assert_eq!(average_temperature(&vec![5_000, 0, 0]), Some(1_666));
}

#[test]
fn memory_percentage_covers_ram_plus_swap() {
    assert_eq!(total_virtual_memory(3_000, 1_000), 4_000);
    assert_eq!(used_virtual_memory(500, 300), 800);
    assert_eq!(usage_virtual_memory_percentage(512, 1_024), 50_000);
    assert_eq!(usage_virtual_memory_percentage(1, 3), 33_333);
    assert_eq!(usage_virtual_memory_percentage(0, 0), 0);
    assert_eq!(usage_virtual_memory_percentage(7, 7), 100_000);
}

#[test]
fn snapshots_compose_the_three_readings() {
    let s = TelemetrySnapshot::from_readings(&vec![10_000, 30_000], &vec![45_000], 256, 1_024);
    assert_eq!(s.cpu_usage_millipct, 20_000);
    assert_eq!(s.temperature_millic, Some(45_000));
    assert_eq!(s.memory_usage_millipct, 25_000);
    let bare = TelemetrySnapshot::from_readings(&Vec::new(), &Vec::new(), 0, 0);
    assert_eq!(bare.cpu_usage_millipct, 0);
    assert_eq!(bare.temperature_millic, None);
    assert_eq!(bare.memory_usage_millipct, 0);
}

#[test]
fn overrides_apply_and_fall_back_by_field() {
    let all_default = PowerModel::from_overrides(None, None, None, None, None, None);
    assert_eq!(all_default, PowerModel::default());
    let tuned = PowerModel::from_overrides(
        Some(4_000),
        Some(20_000),
        Some(100),
        Some(30_000),
        Some(2_000),
        Some(9_000_000),
    );
    assert_eq!(tuned.base_power_mw, 4_000);
    assert_eq!(tuned.max_power_mw, 20_000);
    assert_eq!(tuned.ram_power_factor_milli, 100);
    assert_eq!(tuned.emission_factor_mg_per_kwh, 30_000);
    assert_eq!(tuned.abiotic_factor_ug_per_kwh, 2_000);
    assert_eq!(tuned.primary_energy_factor_j_per_kwh, 9_000_000);
}

#[test]
fn an_inverted_power_pair_falls_back_to_the_defaults() {
    let inverted = PowerModel::from_overrides(Some(20_000), Some(6_000), Some(100), None, None, None);
    assert_eq!(inverted.base_power_mw, DEFAULT_BASE_POWER_MW);
    assert_eq!(inverted.max_power_mw, DEFAULT_MAX_POWER_MW);
    // Only the pair falls back; the other overrides stand.
    assert_eq!(inverted.ram_power_factor_milli, 100);
    assert_eq!(inverted.emission_factor_mg_per_kwh, DEFAULT_EMISSION_FACTOR_MG_PER_KWH);
    assert_eq!(inverted.abiotic_factor_ug_per_kwh, DEFAULT_ABIOTIC_FACTOR_UG_PER_KWH);
    assert_eq!(
        inverted.primary_energy_factor_j_per_kwh,
        DEFAULT_PRIMARY_ENERGY_FACTOR_J_PER_KWH
    );
    let half_pair = PowerModel::from_overrides(Some(30_000), None, None, None, None, None);
    assert_eq!(half_pair.base_power_mw, DEFAULT_BASE_POWER_MW);
    assert_eq!(half_pair.max_power_mw, DEFAULT_MAX_POWER_MW);
}
