//! From exposure parameters to register values.
//!
//! A gain is given in thousandths, so that 1000 is a gain of one and the
//! steps of the sensor (an eighth, a quarter, a whole) are whole numbers. A
//! shutter time is a fraction of a second, numerator over denominator.

use vstd::prelude::*;

verus! {

/// A gain of one.
pub const UNITY_GAIN: u32 = 1000;

/// The largest gain whose code still fits a register value.
pub const MAX_GAIN: u32 = 65_447_999;

/// `value - origin`, or nothing where `value` lies below `origin`.
pub open spec fn above(value: int, origin: int) -> int {
    if value >= origin {
        value - origin
    } else {
        0
    }
}

/// The code of a gain in the lowest segment, which runs from one to four
/// in steps of an eighth.
pub open spec fn lower_segment(gain: int) -> int {
    0x08 + above(gain, 1000) / 125
}

/// The code of a gain in the middle segment, which runs from four to eight
/// in steps of a quarter.
pub open spec fn middle_segment(gain: int) -> int {
    0x51 + above(gain, 4000) / 250
}

/// The code of a gain in the highest segment, which runs from nine upwards
/// in whole steps.
pub open spec fn upper_segment(gain: int) -> int {
    0x61 + above(gain, 9000) / 1000
}

/// The code the sensor is given for a gain: up to four by the lowest
/// segment, above that and up to eight by the middle one, above eight by
/// the highest. Part of a step is dropped.
pub open spec fn gain_code_of(gain: int) -> int {
    if gain <= 4000 {
        lower_segment(gain)
    } else if gain <= 8000 {
        middle_segment(gain)
    } else {
        upper_segment(gain)
    }
}

/// The gain code for `gain`.
pub fn gain_code(gain: u32) -> (code: u16)
    requires
        gain <= MAX_GAIN,
    ensures
        code == gain_code_of(gain as int),
{
    if gain <= 4000 {
        let steps: u32 = if gain >= 1000 {
            (gain - 1000) / 125
        } else {
            0
        };
        (0x08 + steps) as u16
    } else if gain <= 8000 {
        (0x51 + (gain - 4000) / 250) as u16
    } else {
        let steps: u32 = if gain >= 9000 {
            (gain - 9000) / 1000
        } else {
            0
        };
        (0x61 + steps) as u16
    }
}

/// A larger gain never gets a smaller code, within a segment and from one
/// segment to the next.
pub proof fn lemma_gain_code_monotonic(low: int, high: int)
    requires
        low <= high,
    ensures
        gain_code_of(low) <= gain_code_of(high),
{
}

/// What the segments do where they meet. At eight the middle and the
/// highest segment give the same code, 0x61, and the highest stays there up
/// to nine. At four the code steps from 0x20, the last of the lowest
/// segment, to 0x51, the first of the middle one.
pub proof fn lemma_gain_code_boundaries()
    ensures
        middle_segment(8000) == 0x61,
        upper_segment(8000) == 0x61,
        gain_code_of(8000) == gain_code_of(8001),
        gain_code_of(9000) == 0x61,
        lower_segment(4000) == 0x20,
        middle_segment(4000) == 0x51,
        gain_code_of(4000) == 0x20,
        gain_code_of(4001) == 0x51,
        gain_code_of(1000) == 0x08,
{
}

/// Within a segment the code follows the gain without a jump: a gain one
/// step higher has the next code.
pub proof fn lemma_gain_code_steps(gain: int)
    ensures
        1000 <= gain && gain + 125 <= 4000 ==> gain_code_of(gain + 125) == gain_code_of(gain) + 1,
        4000 < gain && gain + 250 <= 8000 ==> gain_code_of(gain + 250) == gain_code_of(gain) + 1,
        9000 <= gain ==> gain_code_of(gain + 1000) == gain_code_of(gain) + 1,
{
}

/// Every code lies between the code of unity gain and what a register
/// value holds, for the gains that `gain_code` takes.
pub proof fn lemma_gain_code_range(gain: int)
    requires
        0 <= gain <= MAX_GAIN,
    ensures
        0x08 <= gain_code_of(gain) <= 0xFFFF,
{
}

/// The number of sensor clock periods in a shutter time of
/// `numerator / denominator` seconds, at `frequency` periods a second.
pub open spec fn integration_clocks(numerator: u32, denominator: u32, frequency: u32) -> int {
    (numerator as int * frequency as int) / (denominator as int)
}

/// The number of rows of integration that gives the shutter time, for the
/// shutter delay, column size and horizontal blanking that the sensor is
/// set to.
pub open spec fn shutter_width_of(
    numerator: u32,
    denominator: u32,
    frequency: u32,
    shutter_delay: u16,
    column_size: u16,
    horizontal_blanking: u16,
) -> int {
    (integration_clocks(numerator, denominator, frequency) + 180 + 4 * shutter_delay) / (
    column_size + horizontal_blanking + 226)
}

/// The shutter width for a shutter time and the sensor's settings. The
/// result depends on the six arguments and on nothing else.
pub fn shutter_width(
    numerator: u32,
    denominator: u32,
    frequency: u32,
    shutter_delay: u16,
    column_size: u16,
    horizontal_blanking: u16,
) -> (width: u64)
    requires
        denominator != 0,
    ensures
        width == shutter_width_of(
            numerator,
            denominator,
            frequency,
            shutter_delay,
            column_size,
            horizontal_blanking,
        ),
{
    assert(numerator as int * frequency as int <= 0xFFFF_FFFF * 0xFFFF_FFFF
        && numerator as int * frequency as int >= 0) by (nonlinear_arith)
        requires
            0 <= numerator <= 0xFFFF_FFFF,
            0 <= frequency <= 0xFFFF_FFFF,
    ;
    let product: u64 = (numerator as u64) * (frequency as u64);
    let clocks: u64 = product / (denominator as u64);
    assert(clocks <= product) by (nonlinear_arith)
        requires
            clocks == product / (denominator as u64),
            denominator >= 1,
    ;
    let rows: u64 = clocks + 180 + 4 * (shutter_delay as u64);
    let line: u64 = (column_size as u64) + (horizontal_blanking as u64) + 226;
    rows / line
}

/// The shutter width is never more than the rows counted before the
/// division by the line length, which is at least 226 clocks.
pub proof fn lemma_shutter_width_bounds(
    numerator: u32,
    denominator: u32,
    frequency: u32,
    shutter_delay: u16,
    column_size: u16,
    horizontal_blanking: u16,
)
    requires
        denominator != 0,
    ensures
        0 <= shutter_width_of(
            numerator,
            denominator,
            frequency,
            shutter_delay,
            column_size,
            horizontal_blanking,
        ) <= integration_clocks(numerator, denominator, frequency) + 180 + 4 * shutter_delay,
{
    let clocks = integration_clocks(numerator, denominator, frequency);
    let product = numerator as int * frequency as int;
    assert(product >= 0) by (nonlinear_arith)
        requires
            product == numerator as int * frequency as int,
            numerator >= 0,
            frequency >= 0,
    ;
    assert(clocks >= 0) by (nonlinear_arith)
        requires
            clocks == product / (denominator as int),
            product >= 0,
            denominator > 0,
    ;
    let rows = clocks + 180 + 4 * shutter_delay;
    let line = column_size + horizontal_blanking + 226;
    assert(0 <= rows / line <= rows) by (nonlinear_arith)
        requires
            rows >= 0,
            line >= 226,
    ;
}

} // verus!
