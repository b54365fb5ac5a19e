use vstd::prelude::*;

use crate::machine::EVSEMachineInput;

verus! {

/// What a pilot reading means.
#[derive(Debug, Clone, Copy, PartialEq, Eq, Structural)]
pub enum PilotSymbol {
    Plus12V,
    Plus9V,
    Plus6V,
    Plus3V,
    /// A steady 0 V pilot; no window of the classifier yields it.
    Zero,
    Minus12V,
    Error,
}

/// Failure of the pilot's PWM output.
#[derive(Debug, Clone, Copy, PartialEq, Eq, Structural)]
pub enum PilotError {
    PwmError,
}

/// Duty cycle, in millionths, that sets the pilot to a steady +12 V: any
/// duty of one or more holds the output high.
pub const WAITING_FOR_VEHICLE_DUTY_PPM: u64 = 1_010_000;

/// Duty cycle, in millionths, that sets the pilot to a steady -12 V.
pub const ERROR_DUTY_PPM: u64 = 0;

/// `v` lies in the closed window `[lo, hi]`.
pub open spec fn within(v: int, lo: int, hi: int) -> bool {
    lo <= v <= hi
}

/// The low level of the pilot is negative but not near -12 V: the pilot
/// does not oscillate as it should.
pub open spec fn min_out_of_range(min_mv: int) -> bool {
    min_mv < 0 && !within(min_mv, -13000, -11000)
}

/// The symbol of a pilot reading whose low and high levels are `min_mv` and
/// `max_mv` millivolts: the low level is checked first, then the high level
/// against windows of one volt around +12, +9, +6, +3 and -12 V.
pub open spec fn pilot_symbol(min_mv: int, max_mv: int) -> PilotSymbol {
    if min_out_of_range(min_mv) {
        PilotSymbol::Error
    } else if within(max_mv, 11000, 13000) {
        PilotSymbol::Plus12V
    } else if within(max_mv, 8000, 10000) {
        PilotSymbol::Plus9V
    } else if within(max_mv, 5000, 7000) {
        PilotSymbol::Plus6V
    } else if within(max_mv, 2000, 4000) {
        PilotSymbol::Plus3V
    } else if within(max_mv, -13000, -11000) {
        PilotSymbol::Minus12V
    } else {
        PilotSymbol::Error
    }
}

/// The condition under which a reading has symbol `s`, stated for each
/// symbol on its own.
pub open spec fn has_symbol(s: PilotSymbol, min_mv: int, max_mv: int) -> bool {
    let ok = !min_out_of_range(min_mv);
    match s {
        PilotSymbol::Plus12V => ok && within(max_mv, 11000, 13000),
        PilotSymbol::Plus9V => ok && within(max_mv, 8000, 10000),
        PilotSymbol::Plus6V => ok && within(max_mv, 5000, 7000),
        PilotSymbol::Plus3V => ok && within(max_mv, 2000, 4000),
        PilotSymbol::Zero => false,
        PilotSymbol::Minus12V => ok && within(max_mv, -13000, -11000),
        PilotSymbol::Error => !ok || !(within(max_mv, 11000, 13000) || within(max_mv, 8000, 10000)
            || within(max_mv, 5000, 7000) || within(max_mv, 2000, 4000)
            || within(max_mv, -13000, -11000)),
    }
}

/// The machine input that a pilot symbol stands for.
pub open spec fn symbol_input(s: PilotSymbol) -> EVSEMachineInput {
    match s {
        PilotSymbol::Plus12V => EVSEMachineInput::PilotIs12V,
        PilotSymbol::Plus9V => EVSEMachineInput::PilotIs9V,
        PilotSymbol::Plus6V => EVSEMachineInput::PilotIs6V,
        PilotSymbol::Plus3V => EVSEMachineInput::PilotIs3V,
        PilotSymbol::Zero => EVSEMachineInput::PilotIs0V,
        PilotSymbol::Minus12V => EVSEMachineInput::PilotIsNegative12V,
        PilotSymbol::Error => EVSEMachineInput::PilotInError,
    }
}

/// Every reading has exactly one symbol: the classification is total, and
/// the windows do not overlap, so the order in which they are tried does not
/// matter.
pub proof fn lemma_classification_is_total(min_mv: int, max_mv: int, s: PilotSymbol)
    ensures
        pilot_symbol(min_mv, max_mv) == s <==> has_symbol(s, min_mv, max_mv),
{
}

/// Classifies a pilot reading given as its low and high levels in millivolts.
pub fn classify_pilot(min_mv: i32, max_mv: i32) -> (r: PilotSymbol)
    ensures
        r == pilot_symbol(min_mv as int, max_mv as int),
{
    if min_mv < 0 && !(-13000 <= min_mv && min_mv <= -11000) {
        PilotSymbol::Error
    } else if 11000 <= max_mv && max_mv <= 13000 {
        PilotSymbol::Plus12V
    } else if 8000 <= max_mv && max_mv <= 10000 {
        PilotSymbol::Plus9V
    } else if 5000 <= max_mv && max_mv <= 7000 {
        PilotSymbol::Plus6V
    } else if 2000 <= max_mv && max_mv <= 4000 {
        PilotSymbol::Plus3V
    } else if -13000 <= max_mv && max_mv <= -11000 {
        PilotSymbol::Minus12V
    } else {
        PilotSymbol::Error
    }
}

/// The machine input for a pilot symbol.
pub fn input_of_symbol(s: PilotSymbol) -> (r: EVSEMachineInput)
    ensures
        r == symbol_input(s),
{
    match s {
        PilotSymbol::Plus12V => EVSEMachineInput::PilotIs12V,
        PilotSymbol::Plus9V => EVSEMachineInput::PilotIs9V,
        PilotSymbol::Plus6V => EVSEMachineInput::PilotIs6V,
        PilotSymbol::Plus3V => EVSEMachineInput::PilotIs3V,
        PilotSymbol::Zero => EVSEMachineInput::PilotIs0V,
        PilotSymbol::Minus12V => EVSEMachineInput::PilotIsNegative12V,
        PilotSymbol::Error => EVSEMachineInput::PilotInError,
    }
}

/// The machine input for a pilot reading `(min, max)` in millivolts.
pub fn get_pilot_state(min_max: (i32, i32)) -> (r: EVSEMachineInput)
    ensures
        r == symbol_input(pilot_symbol(min_max.0 as int, min_max.1 as int)),
{
    let (min_mv, max_mv) = min_max;
    input_of_symbol(classify_pilot(min_mv, max_mv))
}

/// Duty cycle, in millionths, that advertises `ampere` amperes: 0.6 A per
/// percent of duty, so `ampere / 60` (rounded down). A result of a million
/// or more holds the pilot at +12 V, so callers keep `ampere` below 60.
pub fn duty_cycle_for_ampere(ampere: u32) -> (r: u64)
    ensures
        r == ampere as int * 1_000_000 / 60,
{
    (ampere as u64) * 1_000_000 / 60
}

} // verus!
