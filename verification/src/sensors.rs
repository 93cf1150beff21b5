//! Decoding of raw sensor-file text into telemetry values.
//!
//! Each function here is the decision half of one sensor read: the caller
//! reads the named source files and hands their raw contents over as
//! `Option<String>` (`None` for an unreadable file); these functions trim,
//! parse, filter for plausibility and pick among candidates. Temperatures are
//! integer millidegrees Celsius; frequencies are MHz.

use vstd::prelude::*;
use crate::text::{trimmed, trim, parses_as_int, int_value, parses_as_uint, uint_value,
    parse_i32, parse_unsigned};

verus! {

/// Failure of a single sensor read.
#[derive(Clone, Copy, Debug, PartialEq, Eq, Structural)]
pub enum SensorError {
    /// No plausible source for the value was located.
    SensorNotFound,
    /// A source was read but its content was not of the expected shape.
    InvalidFormat,
}

/// Ambient temperature assumed when none can be measured (millidegrees).
pub const DEFAULT_AMBIENT: i32 = 28000;

/// A primary (CPU package) temperature in millidegrees is plausible strictly
/// between 0 and 150 degrees Celsius.
pub open spec fn plausible_cpu(m: int) -> bool {
    0 < m < 150000
}

/// Signed millidegree value of one raw reading: the trimmed content parsed as
/// a 32-bit decimal integer, or `None` when the file was unreadable or its
/// content is not such an integer.
pub open spec fn reading_value(r: Option<String>) -> Option<int> {
    match r {
        None => None,
        Some(s) => {
            let t = trimmed(s@);
            if parses_as_int(t) && i32::MIN <= int_value(t) <= i32::MAX {
                Some(int_value(t))
            } else {
                None
            }
        },
    }
}

/// First plausible value among the fixed candidate readings, from index `i` on.
pub open spec fn fixed_pick_from(cs: Seq<Option<String>>, i: int) -> Option<int>
    decreases cs.len() - i,
{
    if i < 0 || i >= cs.len() {
        None
    } else {
        match reading_value(cs[i]) {
            Some(v) => if plausible_cpu(v) {
                Some(v)
            } else {
                fixed_pick_from(cs, i + 1)
            },
            None => fixed_pick_from(cs, i + 1),
        }
    }
}

/// Whether a thermal zone's type descriptor names one of the two known
/// package sensors.
pub open spec fn zone_matches(ty: Option<String>) -> bool {
    match ty {
        None => false,
        Some(s) => trimmed(s@) == "x86_pkg_temp"@ || trimmed(s@) == "TCPU"@,
    }
}

/// Value of the first scanned zone, from index `i` on, whose type descriptor
/// matches and whose temperature reading parses; a matching zone whose
/// reading does not parse is skipped.
pub open spec fn zone_pick_from(
    tys: Seq<Option<String>>,
    tps: Seq<Option<String>>,
    i: int,
) -> Option<int>
    decreases tys.len() - i,
{
    if i < 0 || i >= tys.len() {
        None
    } else if zone_matches(tys[i]) {
        match reading_value(tps[i]) {
            Some(v) => Some(v),
            None => zone_pick_from(tys, tps, i + 1),
        }
    } else {
        zone_pick_from(tys, tps, i + 1)
    }
}

/// Primary temperature discovery: the first plausible fixed candidate wins;
/// otherwise the scan over the generic zones decides.
pub open spec fn cpu_pick(
    fixed: Seq<Option<String>>,
    zone_types: Seq<Option<String>>,
    zone_temps: Seq<Option<String>>,
) -> Option<int> {
    match fixed_pick_from(fixed, 0) {
        Some(v) => Some(v),
        None => zone_pick_from(zone_types, zone_temps, 0),
    }
}

/// Trim and parse one raw reading as a signed 32-bit millidegree value.
fn parse_reading(r: &Option<String>) -> (v: Option<i32>)
    ensures
        match v {
            Some(x) => reading_value(*r) == Some(x as int),
            None => reading_value(*r) == None::<int>,
        },
{
    match r {
        None => None,
        Some(s) => {
            let t = trim(s.as_str());
            parse_i32(t.as_str())
        },
    }
}

/// Whether a zone type descriptor, trimmed, names a known package sensor.
fn type_matches(ty: &Option<String>) -> (b: bool)
    ensures
        b == zone_matches(*ty),
{
    match ty {
        None => false,
        Some(s) => {
            let t = trim(s.as_str());
            t == "x86_pkg_temp".to_owned() || t == "TCPU".to_owned()
        },
    }
}

/// Primary (CPU) temperature in millidegrees from the raw contents of the
/// fixed candidate sources, then of the scanned generic zones (their type
/// descriptors and temperature files, index-aligned). Fails with
/// `SensorNotFound` exactly when no source yields a value.
pub fn read_cpu_temp(
    fixed: &Vec<Option<String>>,
    zone_types: &Vec<Option<String>>,
    zone_temps: &Vec<Option<String>>,
) -> (r: Result<i32, SensorError>)
    requires
        zone_types@.len() == zone_temps@.len(),
    ensures
        match r {
            Ok(v) => cpu_pick(fixed@, zone_types@, zone_temps@) == Some(v as int),
            Err(e) => cpu_pick(fixed@, zone_types@, zone_temps@) == None::<int>
                && e == SensorError::SensorNotFound,
        },
{
    let mut i: usize = 0;
    while i < fixed.len()
        invariant
            0 <= i <= fixed@.len(),
            fixed_pick_from(fixed@, 0) == fixed_pick_from(fixed@, i as int),
        decreases fixed@.len() - i,
    {
        match parse_reading(&fixed[i]) {
            Some(x) => {
                if 0 < x && x < 150000 {
                    return Ok(x);
                }
            },
            None => {},
        }
        i = i + 1;
    }
    let mut j: usize = 0;
    while j < zone_types.len()
        invariant
            0 <= j <= zone_types@.len(),
            zone_types@.len() == zone_temps@.len(),
            fixed_pick_from(fixed@, 0) == None::<int>,
            zone_pick_from(zone_types@, zone_temps@, 0)
                == zone_pick_from(zone_types@, zone_temps@, j as int),
        decreases zone_types@.len() - j,
    {
        if type_matches(&zone_types[j]) {
            match parse_reading(&zone_temps[j]) {
                Some(x) => {
                    return Ok(x);
                },
                None => {},
            }
        }
        j = j + 1;
    }
    Err(SensorError::SensorNotFound)
}

/// Ambient temperature: the reading's value when it lies strictly between 15
/// and 50 degrees Celsius, else the default; this read never fails.
pub open spec fn ambient_of(r: Option<String>) -> int {
    match reading_value(r) {
        Some(v) => if 15000 < v < 50000 {
            v
        } else {
            DEFAULT_AMBIENT as int
        },
        None => DEFAULT_AMBIENT as int,
    }
}

/// Ambient temperature in millidegrees from one raw reading, degrading to the
/// default instead of failing.
pub fn read_ambient_temp(reading: &Option<String>) -> (t: i32)
    ensures
        t as int == ambient_of(*reading),
{
    match parse_reading(reading) {
        Some(v) => {
            if 15000 < v && v < 50000 {
                v
            } else {
                DEFAULT_AMBIENT
            }
        },
        None => DEFAULT_AMBIENT,
    }
}

/// Unsigned decimal value of a raw reading, bounded by `max`: `SensorNotFound`
/// for an unreadable file, `InvalidFormat` for content that is not an
/// unsigned decimal integer within the bound.
pub open spec fn uint_reading(r: Option<String>, max: int) -> Result<int, SensorError> {
    match r {
        None => Err(SensorError::SensorNotFound),
        Some(s) => {
            let t = trimmed(s@);
            if parses_as_uint(t) && uint_value(t) <= max {
                Ok(uint_value(t))
            } else {
                Err(SensorError::InvalidFormat)
            }
        },
    }
}

/// Performance percentage from one raw reading.
pub fn read_perf_pct(reading: &Option<String>) -> (r: Result<u8, SensorError>)
    ensures
        match r {
            Ok(v) => uint_reading(*reading, 255) == Ok::<int, SensorError>(v as int),
            Err(e) => uint_reading(*reading, 255) == Err::<int, SensorError>(e),
        },
{
    match reading {
        None => Err(SensorError::SensorNotFound),
        Some(s) => {
            let t = trim(s.as_str());
            match parse_unsigned(t.as_str(), 255) {
                Some(m) => Ok(m as u8),
                None => Err(SensorError::InvalidFormat),
            }
        },
    }
}

/// Frequency in MHz decoded from a kHz reading: the unsigned 32-bit value of
/// the content, divided by 1000.
pub open spec fn freq_mhz_of(r: Option<String>) -> Result<int, SensorError> {
    match uint_reading(r, u32::MAX as int) {
        Ok(khz) => Ok(khz / 1000),
        Err(e) => Err(e),
    }
}

fn read_freq_mhz(reading: &Option<String>) -> (r: Result<u32, SensorError>)
    ensures
        match r {
            Ok(v) => freq_mhz_of(*reading) == Ok::<int, SensorError>(v as int),
            Err(e) => freq_mhz_of(*reading) == Err::<int, SensorError>(e),
        },
{
    match reading {
        None => Err(SensorError::SensorNotFound),
        Some(s) => {
            let t = trim(s.as_str());
            match parse_unsigned(t.as_str(), 4294967295) {
                Some(m) => Ok((m / 1000) as u32),
                None => Err(SensorError::InvalidFormat),
            }
        },
    }
}

/// Current CPU frequency in MHz from the raw kHz reading.
pub fn read_current_freq(reading: &Option<String>) -> (r: Result<u32, SensorError>)
    ensures
        match r {
            Ok(v) => freq_mhz_of(*reading) == Ok::<int, SensorError>(v as int),
            Err(e) => freq_mhz_of(*reading) == Err::<int, SensorError>(e),
        },
{
    read_freq_mhz(reading)
}

/// Maximum CPU frequency in MHz from the raw kHz reading.
pub fn read_max_freq(reading: &Option<String>) -> (r: Result<u32, SensorError>)
    ensures
        match r {
            Ok(v) => freq_mhz_of(*reading) == Ok::<int, SensorError>(v as int),
            Err(e) => freq_mhz_of(*reading) == Err::<int, SensorError>(e),
        },
{
    read_freq_mhz(reading)
}

/// Platform profile: the trimmed reading, or the literal `unknown` when the
/// source is unreadable; this read never fails.
pub open spec fn profile_of(r: Option<String>) -> Seq<char> {
    match r {
        Some(s) => trimmed(s@),
        None => "unknown"@,
    }
}

/// Platform profile text from one raw reading.
pub fn read_platform_profile(reading: &Option<String>) -> (p: String)
    ensures
        p@ == profile_of(*reading),
{
    match reading {
        Some(s) => trim(s.as_str()),
        None => "unknown".to_owned(),
    }
}

} // verus!
