//! Pure value conversions of the monitoring and control paths: output-rail
//! current from the shunt reading, output power for the display, and the
//! clamp that keeps the thermal controller's output inside the actuator's
//! range.

use vstd::prelude::*;

verus! {

/// Shunt resistance on the output rail, in milliohms.
pub const SHUNT_RESISTANCE_MILLIS: i16 = 2;

/// Signed division that truncates toward zero, as the hardware's integer
/// division does.
pub open spec fn div_trunc(a: int, d: int) -> int
    recommends
        d > 0,
{
    if a >= 0 {
        a / d
    } else {
        -((-a) / d)
    }
}

/// Output current from the measured shunt voltage: with a 2 milliohm shunt,
/// one milliampere per two microvolts.
pub fn output_current_ma(shunt_uv: i16) -> (r: i16)
    ensures
        r == div_trunc(shunt_uv as int, SHUNT_RESISTANCE_MILLIS as int),
{
    let v = shunt_uv as i32;
    if v >= 0 {
        (v / 2) as i16
    } else {
        (-((-v) / 2)) as i16
    }
}

/// Output power in milliwatts from rail voltage and current, truncated
/// toward zero as the display shows it.
pub fn output_power_mw(output_voltage_mv: i16, output_current_ma: i16) -> (r: i32)
    ensures
        r == div_trunc(output_voltage_mv * output_current_ma, 1000),
{
    proof {
        let v = output_voltage_mv as int;
        let c = output_current_ma as int;
        assert(-0x40000000 <= v * c <= 0x40000000) by (nonlinear_arith)
            requires
                -0x8000 <= v <= 0x7FFF,
                -0x8000 <= c <= 0x7FFF,
        ;
    }
    let p = (output_voltage_mv as i32) * (output_current_ma as i32);
    if p >= 0 {
        p / 1000
    } else {
        -((-p) / 1000)
    }
}

/// The actuator's full-scale duty, in hundredths of a percent.
pub const DUTY_FULL_SCALE: u16 = 10000;

/// The thermal controller's output clamped to the actuator's valid range.
pub open spec fn spec_clamp_duty(raw: int) -> int {
    if raw < 0 {
        0
    } else if raw > DUTY_FULL_SCALE {
        DUTY_FULL_SCALE as int
    } else {
        raw
    }
}

/// Clamps a controller output, in hundredths of a percent, to the
/// actuator's range before it is applied.
pub fn clamp_duty_permyriad(raw: i32) -> (r: u16)
    ensures
        r == spec_clamp_duty(raw as int),
        r <= DUTY_FULL_SCALE,
{
    if raw < 0 {
        0
    } else if raw > DUTY_FULL_SCALE as i32 {
        DUTY_FULL_SCALE
    } else {
        raw as u16
    }
}

} // verus!
