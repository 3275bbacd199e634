//! The power model: the device's idle and full-load draw and the per-kWh
//! conversion factors used for environmental accounting.

use vstd::prelude::*;

verus! {

/// Idle power of the modelled device, in milliwatts.
pub const DEFAULT_BASE_POWER_MW: u64 = 5_000;

/// Full-load power of the modelled device, in milliwatts.
pub const DEFAULT_MAX_POWER_MW: u64 = 15_000;

/// Weight of the memory term, in thousandths.
pub const DEFAULT_RAM_POWER_FACTOR_MILLI: u64 = 250;

/// Greenhouse-gas intensity, in milligrams of CO2 equivalent per kWh.
pub const DEFAULT_EMISSION_FACTOR_MG_PER_KWH: u64 = 60_000;

/// Abiotic-resource depletion, in micrograms of Sb equivalent per kWh.
pub const DEFAULT_ABIOTIC_FACTOR_UG_PER_KWH: u64 = 1_390;

/// Primary-energy use, in joules per kWh.
pub const DEFAULT_PRIMARY_ENERGY_FACTOR_J_PER_KWH: u64 = 10_230_000;

/// The linear power model of one device, created once at startup and shared
/// read-only for the rest of the run.
#[derive(Clone, Copy, Debug, PartialEq, Eq, Structural)]
pub struct PowerModel {
    /// Minimum draw at idle, in milliwatts.
    pub base_power_mw: u64,
    /// Maximum draw at full load, in milliwatts.
    pub max_power_mw: u64,
    /// Weight of the memory term in the load formula, in thousandths.
    pub ram_power_factor_milli: u64,
    /// Milligrams of CO2 equivalent emitted per kWh consumed.
    pub emission_factor_mg_per_kwh: u64,
    /// Micrograms of Sb equivalent depleted per kWh consumed.
    pub abiotic_factor_ug_per_kwh: u64,
    /// Joules of primary energy used per kWh consumed.
    pub primary_energy_factor_j_per_kwh: u64,
}

impl PowerModel {
    /// A model is well formed when its idle draw does not exceed its
    /// full-load draw. The factors need no side condition: they are
    /// non-negative by type.
    pub open spec fn wf(self) -> bool {
        self.base_power_mw <= self.max_power_mw
    }

    /// Builds a model from optional overrides, one per field. A field with no
    /// override takes its default; an override of the idle or full-load draw
    /// that would leave the pair inverted is rejected as a pair, and both
    /// fall back to their defaults.
    pub fn from_overrides(
        base_power_mw: Option<u64>,
        max_power_mw: Option<u64>,
        ram_power_factor_milli: Option<u64>,
        emission_factor_mg_per_kwh: Option<u64>,
        abiotic_factor_ug_per_kwh: Option<u64>,
        primary_energy_factor_j_per_kwh: Option<u64>,
    ) -> (m: PowerModel)
        ensures
            m.wf(),
            ({
                let b = if base_power_mw is Some { base_power_mw->0 } else { DEFAULT_BASE_POWER_MW };
                let x = if max_power_mw is Some { max_power_mw->0 } else { DEFAULT_MAX_POWER_MW };
                if b <= x {
                    m.base_power_mw == b && m.max_power_mw == x
                } else {
                    m.base_power_mw == DEFAULT_BASE_POWER_MW && m.max_power_mw
                        == DEFAULT_MAX_POWER_MW
                }
            }),
            m.ram_power_factor_milli == (if ram_power_factor_milli is Some {
                ram_power_factor_milli->0
            } else {
                DEFAULT_RAM_POWER_FACTOR_MILLI
            }),
            m.emission_factor_mg_per_kwh == (if emission_factor_mg_per_kwh is Some {
                emission_factor_mg_per_kwh->0
            } else {
                DEFAULT_EMISSION_FACTOR_MG_PER_KWH
            }),
            m.abiotic_factor_ug_per_kwh == (if abiotic_factor_ug_per_kwh is Some {
                abiotic_factor_ug_per_kwh->0
            } else {
                DEFAULT_ABIOTIC_FACTOR_UG_PER_KWH
            }),
            m.primary_energy_factor_j_per_kwh == (if primary_energy_factor_j_per_kwh is Some {
                primary_energy_factor_j_per_kwh->0
            } else {
                DEFAULT_PRIMARY_ENERGY_FACTOR_J_PER_KWH
            }),
    {
        let b = match base_power_mw {
            Some(v) => v,
            None => DEFAULT_BASE_POWER_MW,
        };
        let x = match max_power_mw {
            Some(v) => v,
            None => DEFAULT_MAX_POWER_MW,
        };
        let (base, max) = if b <= x {
            (b, x)
        } else {
            (DEFAULT_BASE_POWER_MW, DEFAULT_MAX_POWER_MW)
        };
        PowerModel {
            base_power_mw: base,
            max_power_mw: max,
            ram_power_factor_milli: match ram_power_factor_milli {
                Some(v) => v,
                None => DEFAULT_RAM_POWER_FACTOR_MILLI,
            },
            emission_factor_mg_per_kwh: match emission_factor_mg_per_kwh {
                Some(v) => v,
                None => DEFAULT_EMISSION_FACTOR_MG_PER_KWH,
            },
            abiotic_factor_ug_per_kwh: match abiotic_factor_ug_per_kwh {
                Some(v) => v,
                None => DEFAULT_ABIOTIC_FACTOR_UG_PER_KWH,
            },
            primary_energy_factor_j_per_kwh: match primary_energy_factor_j_per_kwh {
                Some(v) => v,
                None => DEFAULT_PRIMARY_ENERGY_FACTOR_J_PER_KWH,
            },
        }
    }
}

impl Default for PowerModel {
    /// The model of a small single-board computer: about 5 W idle, up to
    /// about 15 W under full load, with the environmental factors of a
    /// low-carbon electricity mix.
    fn default() -> (m: PowerModel)
        ensures
            m.wf(),
            m.base_power_mw == DEFAULT_BASE_POWER_MW,
            m.max_power_mw == DEFAULT_MAX_POWER_MW,
            m.ram_power_factor_milli == DEFAULT_RAM_POWER_FACTOR_MILLI,
            m.emission_factor_mg_per_kwh == DEFAULT_EMISSION_FACTOR_MG_PER_KWH,
            m.abiotic_factor_ug_per_kwh == DEFAULT_ABIOTIC_FACTOR_UG_PER_KWH,
            m.primary_energy_factor_j_per_kwh == DEFAULT_PRIMARY_ENERGY_FACTOR_J_PER_KWH,
    {
        PowerModel {
            base_power_mw: DEFAULT_BASE_POWER_MW,
            max_power_mw: DEFAULT_MAX_POWER_MW,
            ram_power_factor_milli: DEFAULT_RAM_POWER_FACTOR_MILLI,
            emission_factor_mg_per_kwh: DEFAULT_EMISSION_FACTOR_MG_PER_KWH,
            abiotic_factor_ug_per_kwh: DEFAULT_ABIOTIC_FACTOR_UG_PER_KWH,
            primary_energy_factor_j_per_kwh: DEFAULT_PRIMARY_ENERGY_FACTOR_J_PER_KWH,
        }
    }
}

} // verus!
