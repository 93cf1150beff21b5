//! Severity classification of a temperature into an ordered thermal zone.
//!
//! The six zones partition the whole temperature axis into contiguous,
//! non-overlapping half-open bands; a boundary value belongs to the higher
//! band. Each zone carries a display label and a fully opaque RGB color.

use vstd::prelude::*;

verus! {

/// Discrete severity band for a temperature, ordered from coolest to hottest.
#[derive(Clone, Copy, Debug, PartialEq, Eq, Structural)]
pub enum ThermalZone {
    Cool,
    Comfort,
    Optimal,
    Warm,
    Hot,
    Critical,
}

/// Zone of a temperature given in millidegrees Celsius: ascending half-open
/// bands whose boundaries (40, 45, 50, 55, 65 degrees) belong to the higher band.
pub open spec fn zone_of_milli(t: int) -> ThermalZone {
    if t < 40000 {
        ThermalZone::Cool
    } else if t < 45000 {
        ThermalZone::Comfort
    } else if t < 50000 {
        ThermalZone::Optimal
    } else if t < 55000 {
        ThermalZone::Warm
    } else if t < 65000 {
        ThermalZone::Hot
    } else {
        ThermalZone::Critical
    }
}

/// RGB color associated with a zone (fully opaque; there is no alpha channel).
pub open spec fn zone_color(z: ThermalZone) -> (u8, u8, u8) {
    match z {
        ThermalZone::Cool => (100u8, 200u8, 255u8),
        ThermalZone::Comfort => (100u8, 220u8, 100u8),
        ThermalZone::Optimal => (150u8, 220u8, 100u8),
        ThermalZone::Warm => (255u8, 200u8, 100u8),
        ThermalZone::Hot => (255u8, 150u8, 100u8),
        ThermalZone::Critical => (255u8, 100u8, 100u8),
    }
}

/// Display label of a zone.
pub open spec fn zone_label(z: ThermalZone) -> Seq<char> {
    match z {
        ThermalZone::Cool => "COOL"@,
        ThermalZone::Comfort => "COMFORT"@,
        ThermalZone::Optimal => "OPTIMAL"@,
        ThermalZone::Warm => "WARM"@,
        ThermalZone::Hot => "HOT"@,
        ThermalZone::Critical => "CRITICAL"@,
    }
}

impl ThermalZone {
    /// Classify a temperature (millidegrees Celsius) into its zone.
    pub fn from_cpu_temp(temp_milli: i32) -> (z: ThermalZone)
        ensures
            z == zone_of_milli(temp_milli as int),
    {
        if temp_milli < 40000 {
            ThermalZone::Cool
        } else if temp_milli < 45000 {
            ThermalZone::Comfort
        } else if temp_milli < 50000 {
            ThermalZone::Optimal
        } else if temp_milli < 55000 {
            ThermalZone::Warm
        } else if temp_milli < 65000 {
            ThermalZone::Hot
        } else {
            ThermalZone::Critical
        }
    }

    /// Display label of this zone.
    pub fn label(&self) -> (r: &'static str)
        ensures
            r@ == zone_label(*self),
            r@.len() > 0,
    {
        proof {
            reveal_strlit("COOL");
            reveal_strlit("COMFORT");
            reveal_strlit("OPTIMAL");
            reveal_strlit("WARM");
            reveal_strlit("HOT");
            reveal_strlit("CRITICAL");
        }
        match self {
            ThermalZone::Cool => "COOL",
            ThermalZone::Comfort => "COMFORT",
            ThermalZone::Optimal => "OPTIMAL",
            ThermalZone::Warm => "WARM",
            ThermalZone::Hot => "HOT",
            ThermalZone::Critical => "CRITICAL",
        }
    }

    /// RGB color of this zone, fully opaque.
    pub fn color_rgb(&self) -> (r: (u8, u8, u8))
        ensures
            r == zone_color(*self),
    {
        match self {
            ThermalZone::Cool => (100u8, 200u8, 255u8),
            ThermalZone::Comfort => (100u8, 220u8, 100u8),
            ThermalZone::Optimal => (150u8, 220u8, 100u8),
            ThermalZone::Warm => (255u8, 200u8, 100u8),
            ThermalZone::Hot => (255u8, 150u8, 100u8),
            ThermalZone::Critical => (255u8, 100u8, 100u8),
        }
    }
}

/// The six bands partition the temperature axis: every temperature falls in
/// exactly one zone, with each boundary value belonging to the higher band.
pub proof fn lemma_zones_partition(t: int)
    ensures
        zone_of_milli(t) == ThermalZone::Cool <==> t < 40000,
        zone_of_milli(t) == ThermalZone::Comfort <==> 40000 <= t < 45000,
        zone_of_milli(t) == ThermalZone::Optimal <==> 45000 <= t < 50000,
        zone_of_milli(t) == ThermalZone::Warm <==> 50000 <= t < 55000,
        zone_of_milli(t) == ThermalZone::Hot <==> 55000 <= t < 65000,
        zone_of_milli(t) == ThermalZone::Critical <==> 65000 <= t,
{
}

/// Distinct zones have distinct colors.
pub proof fn lemma_zone_colors_distinct(a: ThermalZone, b: ThermalZone)
    requires
        a != b,
    ensures
        zone_color(a) != zone_color(b),
{
}

/// The coolest zone's color is blue-dominant and the hottest zone's color is
/// red-dominant.
pub proof fn lemma_zone_color_dominance()
    ensures
        zone_color(ThermalZone::Cool).2 > zone_color(ThermalZone::Cool).0,
        zone_color(ThermalZone::Cool).2 > zone_color(ThermalZone::Cool).1,
        zone_color(ThermalZone::Critical).0 > zone_color(ThermalZone::Critical).1,
        zone_color(ThermalZone::Critical).0 > zone_color(ThermalZone::Critical).2,
{
}

} // verus!
