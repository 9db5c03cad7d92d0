use vstd::prelude::*;
use crate::table::{neutral, spec_white_point};
use crate::whitepoint::{blendable, spec_blend_step, TEMP_LIMIT};

verus! {

/// Temperature, in kelvin, held at night.
pub const LOW_TEMP: u32 = 3500;

/// Temperature, in kelvin, held by day and restored by a reset.
pub const HIGH_TEMP: u32 = 5500;

/// What the sun does at a place on a day, as far as the temperature depends on it.
#[derive(Clone, Copy, Debug, PartialEq, Eq)]
pub enum Sky {
    /// The sun stays below the horizon all day.
    PolarNight,
    /// The sun stays above the horizon all day.
    PolarDay,
    /// The sun rises and sets; the temperature follows its elevation.
    Daylight,
}

/// The temperature a sky fixes without looking at the sun's elevation.
pub open spec fn spec_fixed_temperature(sky: Sky) -> Option<u32> {
    match sky {
        Sky::PolarNight => Some(LOW_TEMP),
        Sky::PolarDay => Some(HIGH_TEMP),
        Sky::Daylight => None,
    }
}

/// `HIGH_TEMP` for a polar day, `LOW_TEMP` for a polar night, and `None`
/// for a day with sunrise and sunset, whose temperature follows the elevation.
pub fn fixed_temperature(sky: Sky) -> (t: Option<u32>)
    ensures
        t == spec_fixed_temperature(sky),
{
    match sky {
        Sky::PolarNight => Some(LOW_TEMP),
        Sky::PolarDay => Some(HIGH_TEMP),
        Sky::Daylight => None,
    }
}

/// The temperature that a reset restores.
pub fn reset_temperature() -> (t: u32)
    ensures
        t == HIGH_TEMP,
{
    HIGH_TEMP
}

/// Every temperature from `LOW_TEMP` to `HIGH_TEMP`, the polar ones among
/// them, can be blended from the white-point table.
pub proof fn lemma_schedule_range_blendable(t: u32)
    requires
        LOW_TEMP <= t <= HIGH_TEMP,
    ensures
        blendable(t as int),
        t < TEMP_LIMIT,
{
}

/// The temperatures that a sky fixes lie in the day-night range.
pub proof fn lemma_fixed_temperature_in_range(sky: Sky)
    ensures
        spec_fixed_temperature(sky) matches Some(t) ==> LOW_TEMP <= t <= HIGH_TEMP,
{
}

/// A reset restores the temperature of a polar day.
pub proof fn lemma_reset_is_polar_day()
    ensures
        spec_fixed_temperature(Sky::PolarDay) == Some(HIGH_TEMP),
{
}

/// A reset sets the displays to neutral white: 5500 K falls on a band
/// boundary, at table row 11, whose channels are all at factor 1.
pub proof fn lemma_reset_is_neutral()
    ensures
        spec_blend_step(HIGH_TEMP).weight == 0,
        spec_blend_step(HIGH_TEMP).lower == 11,
        spec_white_point(spec_blend_step(HIGH_TEMP).lower as int) == neutral(),
{
}

/// The night temperature is warmer than the day's: it falls whole on row 7,
/// which keeps full red but has less green and less blue than row 11.
pub proof fn lemma_night_warmer_than_day()
    ensures
        spec_blend_step(LOW_TEMP).weight == 0,
        spec_blend_step(LOW_TEMP).lower == 7,
        spec_white_point(7).red == spec_white_point(11).red,
        spec_white_point(7).green < spec_white_point(11).green,
        spec_white_point(7).blue < spec_white_point(11).blue,
{
}

} // verus!
