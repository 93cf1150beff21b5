use thermal_monitor::estimate::calculate_keyboard_temp;
use thermal_monitor::mode::{read_mode, Mode};
use thermal_monitor::sensors::{
    read_ambient_temp, read_cpu_temp, read_current_freq, read_max_freq, read_perf_pct,
    read_platform_profile, SensorError, DEFAULT_AMBIENT,
};
use thermal_monitor::state::{RawReadings, ThermalState};
use thermal_monitor::text::{contains_ci_str, parse_i32, parse_unsigned, trim};
use thermal_monitor::zone::ThermalZone;

fn reading(s: &str) -> Option<String> {
    Some(s.to_string())
}

#[test]
fn test_thermal_zone_classification() {
    assert_eq!(ThermalZone::from_cpu_temp(35_000), ThermalZone::Cool);
    assert_eq!(ThermalZone::from_cpu_temp(42_000), ThermalZone::Comfort);
    assert_eq!(ThermalZone::from_cpu_temp(47_000), ThermalZone::Optimal);
    assert_eq!(ThermalZone::from_cpu_temp(52_000), ThermalZone::Warm);
    assert_eq!(ThermalZone::from_cpu_temp(60_000), ThermalZone::Hot);
    assert_eq!(ThermalZone::from_cpu_temp(70_000), ThermalZone::Critical);
}

#[test]
fn zone_boundaries_belong_to_higher_band() {
    assert_eq!(ThermalZone::from_cpu_temp(39_999), ThermalZone::Cool);
    assert_eq!(ThermalZone::from_cpu_temp(40_000), ThermalZone::Comfort);
    assert_eq!(ThermalZone::from_cpu_temp(45_000), ThermalZone::Optimal);
    assert_eq!(ThermalZone::from_cpu_temp(50_000), ThermalZone::Warm);
    assert_eq!(ThermalZone::from_cpu_temp(55_000), ThermalZone::Hot);
    assert_eq!(ThermalZone::from_cpu_temp(64_999), ThermalZone::Hot);
    assert_eq!(ThermalZone::from_cpu_temp(65_000), ThermalZone::Critical);
    assert_eq!(ThermalZone::from_cpu_temp(i32::MIN), ThermalZone::Cool);
    assert_eq!(ThermalZone::from_cpu_temp(i32::MAX), ThermalZone::Critical);
}

#[test]
fn test_keyboard_temp_calculation() {
    // At 50°C CPU with 28°C ambient: 28 + (50-28)*0.45 = 37.9°C.
    let kbd = calculate_keyboard_temp(50_000, 28_000);
    assert!((kbd - 37_900).abs() < 100);

    // At ambient temperature the keyboard estimate is the ambient itself.
    let kbd = calculate_keyboard_temp(28_000, 28_000);
    assert!((kbd - 28_000).abs() < 100);
}

#[test]
fn keyboard_estimate_exact_values() {
    assert_eq!(calculate_keyboard_temp(50_000, 28_000), 37_900);
    assert_eq!(calculate_keyboard_temp(28_000, 28_000), 28_000);
    // Below ambient the differential attenuates toward the ambient from below.
    assert_eq!(calculate_keyboard_temp(20_000, 28_000), 24_400);
    // Monotone in the primary temperature for a fixed ambient.
    let mut last = calculate_keyboard_temp(-50_000, 28_000);
    let mut t = -50_000;
    while t <= 50_000 {
        let e = calculate_keyboard_temp(t, 28_000);
        assert!(e >= last);
        last = e;
        t += 1_000;
    }
}

#[test]
fn test_mode_properties() {
    assert_eq!(Mode::Performance.command(), "performance");
    assert_eq!(Mode::Comfort.label(), "COMFORT");
    assert_eq!(Mode::all().len(), 5);
}

#[test]
fn mode_projections_all_populated() {
    for mode in Mode::all() {
        assert!(!mode.label().is_empty());
        assert!(!mode.command().is_empty());
        assert!(!mode.description().is_empty());
        assert_ne!(mode, Mode::Unknown);
    }
    // Unknown has no actionable command of its own: it shares Auto's token.
    assert_eq!(Mode::Unknown.command(), "auto");
    assert_eq!(Mode::Unknown.command(), Mode::Auto.command());
    assert!(!Mode::Unknown.label().is_empty());
}

#[test]
fn mode_parser_precedence() {
    assert_eq!(read_mode(Some("performance-mode")), Mode::Performance);
    assert_eq!(read_mode(Some("comfort-optimal")), Mode::Auto);
    assert_eq!(read_mode(Some("comfort")), Mode::Comfort);
    assert_eq!(read_mode(Some("comfort auto")), Mode::Auto);
    assert_eq!(read_mode(Some("balanced")), Mode::Balanced);
    assert_eq!(read_mode(Some("quiet")), Mode::Quiet);
    assert_eq!(read_mode(Some("auto")), Mode::Auto);
    assert_eq!(read_mode(Some("")), Mode::Unknown);
    assert_eq!(read_mode(Some("no such mode")), Mode::Unknown);
    assert_eq!(read_mode(None), Mode::Unknown);
    // Case-insensitive matching, and specific keywords beat plain "auto".
    assert_eq!(read_mode(Some("QUIET now")), Mode::Quiet);
    assert_eq!(read_mode(Some("comfort-OPTIMAL")), Mode::Auto);
    assert_eq!(read_mode(Some("auto quiet")), Mode::Quiet);
    assert_eq!(read_mode(Some("Performance")), Mode::Performance);
}

#[test]
fn case_insensitive_containment() {
    assert!(contains_ci_str("Performance-Mode", "performance"));
    assert!(contains_ci_str("xxCOMFORTxx", "comfort"));
    assert!(!contains_ci_str("perform", "performance"));
    assert!(contains_ci_str("anything", ""));
    assert!(!contains_ci_str("", "a"));
}

#[test]
fn trim_and_parse() {
    assert_eq!(trim("  45000\n"), "45000");
    assert_eq!(trim("\t x86_pkg_temp \r\n"), "x86_pkg_temp");
    assert_eq!(trim(""), "");
    assert_eq!(trim(" \n "), "");
    assert_eq!(parse_i32("45000"), Some(45_000));
    assert_eq!(parse_i32("-300"), Some(-300));
    assert_eq!(parse_i32("+17"), Some(17));
    assert_eq!(parse_i32("2147483647"), Some(i32::MAX));
    assert_eq!(parse_i32("2147483648"), None);
    assert_eq!(parse_i32("-2147483648"), Some(i32::MIN));
    assert_eq!(parse_i32("-2147483649"), None);
    assert_eq!(parse_i32(""), None);
    assert_eq!(parse_i32("12 3"), None);
    assert_eq!(parse_i32("--5"), None);
    assert_eq!(parse_i32("99999999999999999999999"), None);
    assert_eq!(parse_unsigned("255", 255), Some(255));
    assert_eq!(parse_unsigned("256", 255), None);
    assert_eq!(parse_unsigned("+75", 255), Some(75));
    assert_eq!(parse_unsigned("-1", 255), None);
}

#[test]
fn perf_pct_decoding() {
    assert_eq!(read_perf_pct(&reading(" 50\n")), Ok(50));
    assert_eq!(read_perf_pct(&reading("100")), Ok(100));
    assert_eq!(read_perf_pct(&reading("+75")), Ok(75));
    assert_eq!(read_perf_pct(&None), Err(SensorError::SensorNotFound));
    assert_eq!(read_perf_pct(&reading("abc")), Err(SensorError::InvalidFormat));
    assert_eq!(read_perf_pct(&reading("300")), Err(SensorError::InvalidFormat));
    assert_eq!(read_perf_pct(&reading("-5")), Err(SensorError::InvalidFormat));
}

#[test]
fn frequency_decoding() {
    assert_eq!(read_current_freq(&reading("3500000\n")), Ok(3_500));
    assert_eq!(read_current_freq(&reading("999")), Ok(0));
    assert_eq!(read_current_freq(&None), Err(SensorError::SensorNotFound));
    assert_eq!(read_current_freq(&reading("fast")), Err(SensorError::InvalidFormat));
    assert_eq!(read_current_freq(&reading("-1000")), Err(SensorError::InvalidFormat));
    assert_eq!(read_max_freq(&reading("4400000")), Ok(4_400));
    assert_eq!(read_max_freq(&None), Err(SensorError::SensorNotFound));
}

#[test]
fn ambient_decoding() {
    assert_eq!(read_ambient_temp(&reading("30000")), 30_000);
    assert_eq!(read_ambient_temp(&reading(" 16000\n")), 16_000);
    // Out of the plausible band, unreadable or malformed: the default.
    assert_eq!(read_ambient_temp(&reading("60000")), DEFAULT_AMBIENT);
    assert_eq!(read_ambient_temp(&reading("14000")), DEFAULT_AMBIENT);
    assert_eq!(read_ambient_temp(&reading("15000")), DEFAULT_AMBIENT);
    assert_eq!(read_ambient_temp(&reading("50000")), DEFAULT_AMBIENT);
    assert_eq!(read_ambient_temp(&None), DEFAULT_AMBIENT);
    assert_eq!(read_ambient_temp(&reading("warm")), DEFAULT_AMBIENT);
}

#[test]
fn cpu_temperature_discovery() {
    // First plausible fixed candidate wins.
    let r = read_cpu_temp(
        &vec![reading("45000"), reading("50000")],
        &Vec::new(),
        &Vec::new(),
    );
    assert_eq!(r, Ok(45_000));

    // Implausible or malformed candidates are skipped.
    let r = read_cpu_temp(
        &vec![reading("0"), reading("160000"), None, reading("junk"), reading("46000")],
        &Vec::new(),
        &Vec::new(),
    );
    assert_eq!(r, Ok(46_000));

    // With no plausible fixed candidate the zone scan decides: the first
    // zone whose type matches and whose reading parses.
    let r = read_cpu_temp(
        &vec![reading("200000")],
        &vec![reading("acpitz"), reading("x86_pkg_temp\n"), reading("x86_pkg_temp")],
        &vec![reading("30000"), None, reading("55000")],
    );
    assert_eq!(r, Ok(55_000));

    let r = read_cpu_temp(
        &Vec::new(),
        &vec![reading("TCPU")],
        &vec![reading("48000")],
    );
    assert_eq!(r, Ok(48_000));

    // The scan applies no plausibility filter.
    let r = read_cpu_temp(
        &Vec::new(),
        &vec![reading("TCPU")],
        &vec![reading("200000")],
    );
    assert_eq!(r, Ok(200_000));

    // No source at all: the read fails.
    let r = read_cpu_temp(
        &vec![None, reading("junk")],
        &vec![reading("acpitz"), None],
        &vec![reading("30000"), reading("40000")],
    );
    assert_eq!(r, Err(SensorError::SensorNotFound));
}

#[test]
fn platform_profile_decoding() {
    assert_eq!(read_platform_profile(&reading("balanced\n")), "balanced");
    assert_eq!(read_platform_profile(&None), "unknown");
}

#[test]
fn snapshot_all_sources_missing_uses_fallbacks() {
    let raw = RawReadings::default();
    let s = ThermalState::from_readings(&raw);
    assert_eq!(s.cpu_temp, 50_000);
    assert_eq!(s.ambient_temp, 28_000);
    assert_eq!(s.keyboard_temp, 37_900);
    assert_eq!(s.perf_pct, 50);
    assert_eq!(s.current_freq_mhz, 1_000);
    assert_eq!(s.max_freq_mhz, 4_400);
    assert_eq!(s.mode, Mode::Unknown);
    assert_eq!(s.platform_profile, "unknown");
    assert_eq!(s.thermal_zone(), ThermalZone::Warm);
}

#[test]
fn snapshot_from_populated_readings() {
    let raw = RawReadings {
        cpu_candidates: vec![reading("61000\n")],
        zone_types: Vec::new(),
        zone_temps: Vec::new(),
        ambient: reading("26000"),
        perf_pct: reading("75"),
        current_freq: reading("2800000"),
        max_freq: reading("4400000"),
        mode_status: reading("comfort"),
        platform_profile: reading("performance\n"),
    };
    let s = ThermalState::from_readings(&raw);
    assert_eq!(s.cpu_temp, 61_000);
    assert_eq!(s.ambient_temp, 26_000);
    // 26000 + (61000 - 26000) * 45 / 100 = 41750
    assert_eq!(s.keyboard_temp, 41_750);
    assert_eq!(s.perf_pct, 75);
    assert_eq!(s.current_freq_mhz, 2_800);
    assert_eq!(s.max_freq_mhz, 4_400);
    assert_eq!(s.mode, Mode::Comfort);
    assert_eq!(s.platform_profile, "performance");
    assert_eq!(s.thermal_zone(), ThermalZone::Hot);
}

#[test]
fn test_thermal_zone_colors() {
    let (r, g, b) = ThermalZone::Cool.color_rgb();
    assert!(b > r); // Blue should be dominant for cool
    assert!(b > g);

    let (r, g, b) = ThermalZone::Critical.color_rgb();
    assert!(r > g && r > b); // Red should be dominant for critical
}

#[test]
fn zone_colors_distinct() {
    let zones = [
        ThermalZone::Cool,
        ThermalZone::Comfort,
        ThermalZone::Optimal,
        ThermalZone::Warm,
        ThermalZone::Hot,
        ThermalZone::Critical,
    ];
    for (i, a) in zones.iter().enumerate() {
        assert!(!a.label().is_empty());
        for (j, b) in zones.iter().enumerate() {
            if i != j {
                assert_ne!(a.color_rgb(), b.color_rgb());
            }
        }
    }
}
