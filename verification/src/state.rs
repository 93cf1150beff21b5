//! One immutable telemetry snapshot, aggregated from raw sensor readings.
//!
//! Building a snapshot never fails: every field that cannot be decoded from
//! its reading is populated from a documented fallback constant instead, and
//! the derived keyboard temperature is always computed from the (possibly
//! fallback) primary and ambient values, never defaulted on its own.

use vstd::prelude::*;
use crate::estimate::{estimate_spec, calculate_keyboard_temp};
use crate::mode::{Mode, mode_of_status, read_mode};
use crate::sensors::{ambient_of, cpu_pick, freq_mhz_of, profile_of, read_ambient_temp,
    read_cpu_temp, read_current_freq, read_max_freq, read_perf_pct, read_platform_profile,
    uint_reading};
use crate::zone::{ThermalZone, zone_of_milli};

verus! {

/// Primary temperature assumed when no sensor yields one (millidegrees).
pub const DEFAULT_CPU_TEMP: i32 = 50000;

/// Performance percentage assumed when its source cannot be decoded.
pub const DEFAULT_PERF_PCT: u8 = 50;

/// Current frequency assumed when its source cannot be decoded (MHz).
pub const DEFAULT_CURRENT_FREQ_MHZ: u32 = 1000;

/// Maximum frequency assumed when its source cannot be decoded (MHz).
pub const DEFAULT_MAX_FREQ_MHZ: u32 = 4400;

/// Raw contents of every source consulted for one snapshot; `None` stands for
/// a file that could not be read. The two zone vectors are index-aligned:
/// entry `i` holds zone `i`'s type descriptor and temperature.
#[derive(Debug, Default)]
pub struct RawReadings {
    /// Fixed candidate sources for the primary temperature, in priority order.
    pub cpu_candidates: Vec<Option<String>>,
    /// Type descriptors of the scanned generic thermal zones.
    pub zone_types: Vec<Option<String>>,
    /// Temperature readings of the scanned generic thermal zones.
    pub zone_temps: Vec<Option<String>>,
    /// Ambient temperature source.
    pub ambient: Option<String>,
    /// Performance percentage source.
    pub perf_pct: Option<String>,
    /// Current frequency source (kHz).
    pub current_freq: Option<String>,
    /// Maximum frequency source (kHz).
    pub max_freq: Option<String>,
    /// Operating-mode status text.
    pub mode_status: Option<String>,
    /// Platform profile source.
    pub platform_profile: Option<String>,
}

impl RawReadings {
    /// The two zone vectors are index-aligned.
    pub open spec fn wf(self) -> bool {
        self.zone_types@.len() == self.zone_temps@.len()
    }
}

/// Primary temperature decoded from the readings, or its fallback.
pub open spec fn cpu_temp_of(raw: RawReadings) -> int {
    match cpu_pick(raw.cpu_candidates@, raw.zone_types@, raw.zone_temps@) {
        Some(v) => v,
        None => DEFAULT_CPU_TEMP as int,
    }
}

/// Performance percentage decoded from its reading, or its fallback.
pub open spec fn perf_pct_of(raw: RawReadings) -> int {
    match uint_reading(raw.perf_pct, 255) {
        Ok(v) => v,
        Err(_) => DEFAULT_PERF_PCT as int,
    }
}

/// Current frequency decoded from its reading, or its fallback.
pub open spec fn current_freq_of(raw: RawReadings) -> int {
    match freq_mhz_of(raw.current_freq) {
        Ok(v) => v,
        Err(_) => DEFAULT_CURRENT_FREQ_MHZ as int,
    }
}

/// Maximum frequency decoded from its reading, or its fallback.
pub open spec fn max_freq_of(raw: RawReadings) -> int {
    match freq_mhz_of(raw.max_freq) {
        Ok(v) => v,
        Err(_) => DEFAULT_MAX_FREQ_MHZ as int,
    }
}

/// Operating mode decoded from the status reading; unreadable status is
/// `Unknown`.
pub open spec fn mode_of(raw: RawReadings) -> Mode {
    match raw.mode_status {
        Some(s) => mode_of_status(s@),
        None => Mode::Unknown,
    }
}

/// Complete telemetry snapshot. Temperatures are millidegrees Celsius,
/// frequencies MHz. Every field is always populated.
#[derive(Clone, Debug)]
pub struct ThermalState {
    pub cpu_temp: i32,
    pub keyboard_temp: i32,
    pub ambient_temp: i32,
    pub perf_pct: u8,
    pub current_freq_mhz: u32,
    pub max_freq_mhz: u32,
    pub mode: Mode,
    pub platform_profile: String,
}

impl ThermalState {
    /// Build a snapshot from the raw readings. Total: a reading that cannot
    /// be decoded is replaced by its documented fallback, the derived
    /// keyboard temperature is always estimated from the resulting primary
    /// and ambient temperatures, and no error ever propagates to the caller.
    pub fn from_readings(raw: &RawReadings) -> (s: ThermalState)
        requires
            raw.wf(),
        ensures
            s.cpu_temp as int == cpu_temp_of(*raw),
            s.ambient_temp as int == ambient_of(raw.ambient),
            s.keyboard_temp as int == estimate_spec(cpu_temp_of(*raw), ambient_of(raw.ambient)),
            s.perf_pct as int == perf_pct_of(*raw),
            s.current_freq_mhz as int == current_freq_of(*raw),
            s.max_freq_mhz as int == max_freq_of(*raw),
            s.mode == mode_of(*raw),
            s.platform_profile@ == profile_of(raw.platform_profile),
    {
        let cpu_temp = match read_cpu_temp(&raw.cpu_candidates, &raw.zone_types, &raw.zone_temps) {
            Ok(v) => v,
            Err(_) => DEFAULT_CPU_TEMP,
        };
        let ambient_temp = read_ambient_temp(&raw.ambient);
        let keyboard_temp = calculate_keyboard_temp(cpu_temp, ambient_temp);
        let perf_pct = match read_perf_pct(&raw.perf_pct) {
            Ok(v) => v,
            Err(_) => DEFAULT_PERF_PCT,
        };
        let current_freq_mhz = match read_current_freq(&raw.current_freq) {
            Ok(v) => v,
            Err(_) => DEFAULT_CURRENT_FREQ_MHZ,
        };
        let max_freq_mhz = match read_max_freq(&raw.max_freq) {
            Ok(v) => v,
            Err(_) => DEFAULT_MAX_FREQ_MHZ,
        };
        let mode = read_mode(match &raw.mode_status {
            Some(s) => Some(s.as_str()),
            None => None,
        });
        let platform_profile = read_platform_profile(&raw.platform_profile);
        ThermalState {
            cpu_temp,
            keyboard_temp,
            ambient_temp,
            perf_pct,
            current_freq_mhz,
            max_freq_mhz,
            mode,
            platform_profile,
        }
    }

    /// Severity zone of the snapshot's primary temperature.
    pub fn thermal_zone(&self) -> (z: ThermalZone)
        ensures
            z == zone_of_milli(self.cpu_temp as int),
    {
        ThermalZone::from_cpu_temp(self.cpu_temp)
    }
}

} // verus!
