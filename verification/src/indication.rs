use vstd::prelude::*;

verus! {

/// Color shown by the tri-color indicator, derived from the CO2 reading.
#[derive(Clone, Copy, Debug, PartialEq, Eq)]
pub enum IndicatorState {
    Green,
    Yellow,
    Red,
    Off,
}

/// IEEE-754 single-precision bit pattern of 800.0, the lowest CO2 reading
/// (ppm) shown yellow.
pub const CO2_YELLOW_BITS: u32 = 0x4448_0000;

/// IEEE-754 single-precision bit pattern of 1000.0, the lowest CO2 reading
/// (ppm) shown red.
pub const CO2_RED_BITS: u32 = 0x447A_0000;

/// IEEE-754 single-precision bit pattern of 1400.0; only readings strictly
/// above it raise the audible alert.
pub const CO2_ALERT_BITS: u32 = 0x44AF_0000;

/// Sign bit of an IEEE-754 single, given its bits.
pub open spec fn f32_sign(b: u32) -> bool {
    b >= 0x8000_0000
}

/// The bits with the sign cleared: exponent and fraction, which order the
/// values of one sign.
pub open spec fn f32_mag(b: u32) -> u32 {
    (b % 0x8000_0000) as u32
}

/// NaN: exponent all ones with a non-zero fraction, i.e. a magnitude field
/// strictly above that of infinity.
pub open spec fn f32_is_nan(b: u32) -> bool {
    f32_mag(b) > 0x7f80_0000
}

/// `<` on IEEE-754 singles, stated on their bit patterns: false whenever
/// either side is NaN; otherwise negatives sort below positives (except that
/// -0.0 equals +0.0) and, within one sign, the magnitude bits order the
/// values (negatives in reverse).
pub open spec fn f32_lt(a: u32, b: u32) -> bool {
    &&& !f32_is_nan(a)
    &&& !f32_is_nan(b)
    &&& if f32_sign(a) {
        if f32_sign(b) {
            f32_mag(b) < f32_mag(a)
        } else {
            !(f32_mag(a) == 0 && f32_mag(b) == 0)
        }
    } else {
        if f32_sign(b) {
            false
        } else {
            f32_mag(a) < f32_mag(b)
        }
    }
}

/// `>` on IEEE-754 singles, on their bit patterns.
pub open spec fn f32_gt(a: u32, b: u32) -> bool {
    f32_lt(b, a)
}

/// `==` on IEEE-754 singles, on their bit patterns: NaN equals nothing, and
/// -0.0 equals +0.0.
pub open spec fn f32_eq(a: u32, b: u32) -> bool {
    &&& !f32_is_nan(a)
    &&& !f32_is_nan(b)
    &&& (a == b || (f32_mag(a) == 0 && f32_mag(b) == 0))
}

/// `<=` on IEEE-754 singles, on their bit patterns.
pub open spec fn f32_le(a: u32, b: u32) -> bool {
    f32_lt(a, b) || f32_eq(a, b)
}

/// The indication policy on the CO2 bits: below 800 ppm green, from 800 ppm
/// yellow, from 1000 ppm red; the alert sounds only strictly above 1400 ppm.
/// A NaN reading falls through both threshold comparisons to red with no
/// alert, exactly as the float comparisons would take it.
pub open spec fn classify_spec(co2: u32) -> (IndicatorState, bool) {
    if f32_lt(co2, CO2_YELLOW_BITS) {
        (IndicatorState::Green, false)
    } else if f32_lt(co2, CO2_RED_BITS) {
        (IndicatorState::Yellow, false)
    } else {
        (IndicatorState::Red, f32_gt(co2, CO2_ALERT_BITS))
    }
}

fn f32_lt_exec(a: u32, b: u32) -> (r: bool)
    ensures
        r == f32_lt(a, b),
{
    let mag_a: u32 = a % 0x8000_0000;
    let mag_b: u32 = b % 0x8000_0000;
    if mag_a > 0x7f80_0000 || mag_b > 0x7f80_0000 {
        return false;
    }
    if a >= 0x8000_0000 {
        if b >= 0x8000_0000 {
            mag_b < mag_a
        } else {
            !(mag_a == 0 && mag_b == 0)
        }
    } else {
        if b >= 0x8000_0000 {
            false
        } else {
            mag_a < mag_b
        }
    }
}

/// Map a CO2 reading (IEEE-754 single bits, ppm) to the indicator color and
/// the alert decision.
pub fn classify(co2: u32) -> (r: (IndicatorState, bool))
    ensures
        r == classify_spec(co2),
{
    if f32_lt_exec(co2, CO2_YELLOW_BITS) {
        (IndicatorState::Green, false)
    } else if f32_lt_exec(co2, CO2_RED_BITS) {
        (IndicatorState::Yellow, false)
    } else {
        (IndicatorState::Red, f32_lt_exec(CO2_ALERT_BITS, co2))
    }
}

/// The indicator's fixed pin encoding: one level per output, active low, in
/// the order red, green, blue. Exactly the outputs of a state's color are
/// driven low; everything else stays high (the blue output only for off, as
/// no classification shows blue).
pub open spec fn indicator_levels_spec(state: IndicatorState) -> (bool, bool, bool) {
    match state {
        IndicatorState::Green => (true, false, true),
        IndicatorState::Yellow => (false, false, true),
        IndicatorState::Red => (false, true, true),
        IndicatorState::Off => (true, true, true),
    }
}

/// The (red, green, blue) output levels that realize an indicator state.
pub fn indicator_levels(state: IndicatorState) -> (levels: (bool, bool, bool))
    ensures
        levels == indicator_levels_spec(state),
{
    match state {
        IndicatorState::Green => (true, false, true),
        IndicatorState::Yellow => (false, false, true),
        IndicatorState::Red => (false, true, true),
        IndicatorState::Off => (true, true, true),
    }
}

/// Below 800 ppm the indicator is green and no alert sounds.
pub proof fn lemma_classify_green(co2: u32)
    requires
        f32_lt(co2, CO2_YELLOW_BITS),
    ensures
        classify_spec(co2) == (IndicatorState::Green, false),
{
}

/// From 800 ppm up to, excluding, 1000 ppm the indicator is yellow and no
/// alert sounds.
pub proof fn lemma_classify_yellow(co2: u32)
    requires
        f32_le(CO2_YELLOW_BITS, co2),
        f32_lt(co2, CO2_RED_BITS),
    ensures
        classify_spec(co2) == (IndicatorState::Yellow, false),
{
}

/// From 1000 ppm up to and including 1400 ppm the indicator is red and no
/// alert sounds.
pub proof fn lemma_classify_red_quiet(co2: u32)
    requires
        f32_le(CO2_RED_BITS, co2),
        f32_le(co2, CO2_ALERT_BITS),
    ensures
        classify_spec(co2) == (IndicatorState::Red, false),
{
}

/// Strictly above 1400 ppm the indicator is red and the alert sounds.
pub proof fn lemma_classify_alert(co2: u32)
    requires
        f32_gt(co2, CO2_ALERT_BITS),
    ensures
        classify_spec(co2) == (IndicatorState::Red, true),
{
}

} // verus!

