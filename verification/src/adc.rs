//! Conversions of raw successive-approximation converter counts into
//! physical quantities, as the reference manual's formulas give them: the
//! actual supply from the internal reference, the die temperature from the
//! factory calibration points, and divider-scaled voltages.

use vstd::prelude::*;

use crate::control::div_trunc;

verus! {

/// Ratio of the external voltage divider: one count step is ten millivolts
/// at full supply.
pub const VOLT_FACTOR: u32 = 10;

/// Supply voltage at which the factory calibrated the internal reference,
/// in millivolts.
pub const VDDA_CALIB_MV: u32 = 3300;

/// Largest count of a twelve-bit conversion.
pub const ADC_FULL_SCALE_12BIT: u32 = 4095;

/// The actual analog supply, from the internal reference:
/// `vdda = calibration_supply * vref_cal / vref_data`.
pub fn vdda_mv(vref_cal: u32, vref_data: u16) -> (r: u32)
    requires
        vref_cal <= 0xFFFF,
        vref_data > 0,
    ensures
        r == (vref_cal as int) * (VDDA_CALIB_MV as int) / (vref_data as int),
{
    vref_cal * VDDA_CALIB_MV / (vref_data as u32)
}

/// The die temperature the calibration points give for a converter reading,
/// in degrees Celsius:
/// `(ts - t30_cal) * (110 - 30) / (t110_cal - t30_cal) + 30`, with `ts` the
/// reading rescaled from the actual supply to the calibration supply.
pub open spec fn spec_cpu_temperature(ts_data: u16, vdda: u32, t30_cal: i32, t110_cal: i32) -> int {
    div_trunc(((ts_data as int) * 3300 / (vdda as int) - t30_cal) * 80, t110_cal - t30_cal) + 30
}

pub fn cpu_temperature_deg(ts_data: u16, vdda: u32, t30_cal: i32, t110_cal: i32) -> (r: i16)
    requires
        ts_data <= ADC_FULL_SCALE_12BIT,
        vdda >= 1,
        0 <= t30_cal <= 0xFFFF,
        0 <= t110_cal <= 0xFFFF,
        t30_cal < t110_cal,
        -0x8000 <= spec_cpu_temperature(ts_data, vdda, t30_cal, t110_cal) <= 0x7FFF,
    ensures
        r == spec_cpu_temperature(ts_data, vdda, t30_cal, t110_cal),
{
    let ts = ((ts_data as u32) * 3300 / vdda) as i32;
    let diff = ts - t30_cal;
    let scaled = diff * 80;
    let denom = t110_cal - t30_cal;
    let quot = if scaled >= 0 {
        scaled / denom
    } else {
        -((-scaled) / denom)
    };
    (quot + 30) as i16
}

/// A divider-scaled voltage in millivolts from a raw count:
/// `count * vdda / full_scale * 10`, truncated to the cell's sixteen bits.
pub fn sense_voltage_mv(count: u16, vdda: u32, full_scale: u32) -> (r: u16)
    requires
        full_scale >= 1,
        (count as int) * (vdda as int) <= 0xFFFF_FFFF,
        (count as int) * (vdda as int) / (full_scale as int) * (VOLT_FACTOR as int)
            <= 0xFFFF_FFFF,
    ensures
        r == (count as int) * (vdda as int) / (full_scale as int) * (VOLT_FACTOR as int)
            % 0x10000,
{
    let x = (count as u32) * vdda / full_scale * VOLT_FACTOR;
    let r = #[verifier::truncate] (x as u16);
    proof {
        assert(((x as u16) as u32) == x % 0x10000) by (bit_vector);
    }
    r
}

/// Channel current in milliamperes from the sensed voltage across the
/// measurement resistor.
pub fn channel_current_ma(sense_mv: u16) -> (r: u16)
    requires
        (sense_mv as int) * 2 <= 0xFFFF,
    ensures
        r == (sense_mv as int) * 2,
{
    sense_mv * 2
}

/// Number of multiplexed current channels.
pub const CHANNEL_COUNT: usize = 4;

/// The two multiplexer select lines for a channel index: bit zero and bit
/// one of the index, driven high when set.
pub fn selector_levels(idx: usize) -> (r: (bool, bool))
    requires
        idx < CHANNEL_COUNT,
    ensures
        r.0 == (idx % 2 == 1),
        r.1 == (idx / 2 == 1),
{
    (idx % 2 == 1, idx / 2 == 1)
}

/// The channel the sampler visits after this one: round-robin over the four
/// channels.
pub fn next_channel(idx: usize) -> (r: usize)
    requires
        idx < CHANNEL_COUNT,
    ensures
        r == (idx + 1) % (CHANNEL_COUNT as int),
        r < CHANNEL_COUNT,
{
    (idx + 1) % CHANNEL_COUNT
}

} // verus!
