use vstd::prelude::*;

verus! {

/// Commanded level of an output, as the control logic sees it.
#[derive(Debug, Clone, Copy, PartialEq, Eq, Structural)]
pub enum OnOff {
    On,
    Off,
}

/// Logical level of a pin.
#[derive(Debug, Clone, Copy, PartialEq, Eq, Structural)]
pub enum Level {
    Low,
    High,
}

/// Errors of the hardware layer.
#[derive(Debug, Clone, Copy, PartialEq, Eq, Structural)]
pub enum HwError {
    PoisonError,
    GpioError,
    HardwareFault,
    InternalFaultThreadError,
}

/// Failure of a peripheral (pin, PWM, SPI or the pulse generator).
#[derive(Debug, Clone, Copy, PartialEq, Eq, Structural)]
pub struct PeripheralsError;

/// The pin level that a commanded state drives.
pub open spec fn level_of(state: OnOff) -> Level {
    match state {
        OnOff::On => Level::High,
        OnOff::Off => Level::Low,
    }
}

/// The commanded state that a pin level reflects.
pub open spec fn on_off_of(level: Level) -> OnOff {
    match level {
        Level::High => OnOff::On,
        Level::Low => OnOff::Off,
    }
}

impl From<OnOff> for Level {
    fn from(state: OnOff) -> Level {
        match state {
            OnOff::On => Level::High,
            OnOff::Off => Level::Low,
        }
    }
}

impl vstd::std_specs::convert::FromSpecImpl<OnOff> for Level {
    open spec fn obeys_from_spec() -> bool {
        true
    }

    open spec fn from_spec(state: OnOff) -> Level {
        level_of(state)
    }
}

impl From<Level> for OnOff {
    fn from(level: Level) -> OnOff {
        match level {
            Level::High => OnOff::On,
            Level::Low => OnOff::Off,
        }
    }
}

impl vstd::std_specs::convert::FromSpecImpl<Level> for OnOff {
    open spec fn obeys_from_spec() -> bool {
        true
    }

    open spec fn from_spec(level: Level) -> OnOff {
        on_off_of(level)
    }
}

/// One operation on the physical plant.
#[derive(Debug, Clone, Copy, PartialEq, Eq, Structural)]
pub enum HwOp {
    /// Start the power-watchdog oscillation (10 kHz, half duty).
    StartWatchdog,
    /// Stop the power-watchdog oscillation.
    StopWatchdog,
    /// Write the contactor pin.
    ContactorPin(OnOff),
    /// Drive the line that loops through the GFI current transformer.
    GroundTestPin(OnOff),
    /// Advertise a maximum current, in amperes, on the pilot.
    CurrentOffer(u32),
    /// Hold the pilot at a steady +12 V.
    WaitingForVehicle,
    /// Pulse GFI-reset: high for 100 ms, then low for 100 ms.
    GfiResetPulse,
    /// Clear the edge and interrupt state of the GFI-status input; fails
    /// unless the input then reads low.
    ClearGfiStatus,
    /// Wait, in milliseconds.
    Sleep(u32),
    /// Let pilot readings through to the state machine, or hold them back.
    ListenToPilot(bool),
}

/// An input that a script reads.
#[derive(Debug, Clone, Copy, PartialEq, Eq, Structural)]
pub enum Probe {
    /// The latched GFI indicator.
    GfiStatus,
    /// The relay mirror: whether the contactor actually closed.
    RelayMirror,
}

/// One step of a script: an operation, or a reading that must show a level.
#[derive(Debug, Clone, Copy, PartialEq, Eq, Structural)]
pub enum Step {
    Perform(HwOp),
    Expect(Probe, Level),
}

/// Commanding the contactor: for On the watchdog starts before the pin is
/// written; for Off the pin is written before the watchdog stops.
pub open spec fn contactor_steps(state: OnOff) -> Seq<Step> {
    match state {
        OnOff::On => seq![Step::Perform(HwOp::StartWatchdog), Step::Perform(HwOp::ContactorPin(OnOff::On))],
        OnOff::Off => seq![Step::Perform(HwOp::ContactorPin(OnOff::Off)), Step::Perform(HwOp::StopWatchdog)],
    }
}

/// At position `i` of `s`, a contactor-On write comes right after a
/// watchdog start, and a contactor-Off write comes right before a watchdog
/// stop.
pub open spec fn ordered_at(s: Seq<Step>, i: int) -> bool {
    &&& (s[i] == Step::Perform(HwOp::ContactorPin(OnOff::On)) ==> i > 0 && s[i - 1] == Step::Perform(
        HwOp::StartWatchdog,
    ))
    &&& (s[i] == Step::Perform(HwOp::ContactorPin(OnOff::Off)) ==> i + 1 < s.len() && s[i + 1]
        == Step::Perform(HwOp::StopWatchdog))
}

/// Every contactor write of `s` keeps the watchdog discipline.
pub open spec fn watchdog_ordered(s: Seq<Step>) -> bool {
    forall|i: int| 0 <= i < s.len() ==> #[trigger] ordered_at(s, i)
}

/// `s` writes the contactor pin nowhere.
pub open spec fn no_contactor_write(s: Seq<Step>) -> bool {
    forall|i: int| 0 <= i < s.len() ==> !(#[trigger] s[i] matches Step::Perform(HwOp::ContactorPin(_)))
}

/// Commanding the contactor keeps the watchdog discipline.
pub proof fn lemma_contactor_steps_ordered(state: OnOff)
    ensures
        watchdog_ordered(contactor_steps(state)),
{
    let s = contactor_steps(state);
    assert forall|i: int| 0 <= i < s.len() implies #[trigger] ordered_at(s, i) by {
        assert(i == 0 || i == 1);
    }
}

/// A script that writes no contactor pin keeps the discipline.
pub proof fn lemma_no_write_ordered(s: Seq<Step>)
    requires
        no_contactor_write(s),
    ensures
        watchdog_ordered(s),
{
    assert forall|i: int| 0 <= i < s.len() implies #[trigger] ordered_at(s, i) by {
        assert(!(s[i] matches Step::Perform(HwOp::ContactorPin(_))));
    }
}

/// Scripts that keep the discipline keep it when run one after the other.
pub proof fn lemma_ordered_concat(a: Seq<Step>, b: Seq<Step>)
    requires
        watchdog_ordered(a),
        watchdog_ordered(b),
    ensures
        watchdog_ordered(a + b),
{
    let s = a + b;
    assert forall|i: int| 0 <= i < s.len() implies #[trigger] ordered_at(s, i) by {
        if i < a.len() {
            assert(ordered_at(a, i));
            if i > 0 {
                assert(s[i - 1] == a[i - 1]);
            }
            if i + 1 < a.len() {
                assert(s[i + 1] == a[i + 1]);
            }
        } else {
            let j = i - a.len();
            assert(ordered_at(b, j));
            assert(s[i] == b[j]);
            if j > 0 {
                assert(s[i - 1] == b[j - 1]);
            }
            if j + 1 < b.len() {
                assert(s[i + 1] == b[j + 1]);
            }
        }
    }
}

/// The steps that command the contactor.
pub fn set_contactor(state: OnOff) -> (r: Vec<Step>)
    ensures
        r@ == contactor_steps(state),
{
    let r = match state {
        OnOff::On => vec![Step::Perform(HwOp::StartWatchdog), Step::Perform(HwOp::ContactorPin(OnOff::On))],
        OnOff::Off => vec![Step::Perform(HwOp::ContactorPin(OnOff::Off)), Step::Perform(HwOp::StopWatchdog)],
    };
    assert(r@ =~= contactor_steps(state));
    r
}

/// Frequency of the power-watchdog oscillation, in hertz.
pub const DEFAULT_PWM_FREQUENCY: u32 = 10_000;

/// Duty cycle of the power-watchdog oscillation, in thousandths.
pub const DEFAULT_DUTY_PERMILLE: u32 = 500;

/// The high and low times, in microseconds, of one period of a square wave
/// of `frequency_hz` with `duty_permille` thousandths of it high: the
/// period is rounded down to whole microseconds, and so is the high time.
pub fn pwm_pulse_delays(frequency_hz: u32, duty_permille: u32) -> (r: (u32, u32))
    requires
        frequency_hz > 0,
        duty_permille <= 1000,
    ensures
        r.0 == (1_000_000int / frequency_hz as int) * duty_permille / 1000,
        r.0 + r.1 == 1_000_000int / frequency_hz as int,
{
    let period: u32 = 1_000_000 / frequency_hz;
    assert(period * duty_permille <= 1_000_000 * 1000) by (nonlinear_arith)
        requires
            period <= 1_000_000,
            duty_permille <= 1000,
    ;
    let on: u32 = period * duty_permille / 1000;
    assert(on <= period) by (nonlinear_arith)
        requires
            on == period * duty_permille / 1000,
            duty_permille <= 1000,
    ;
    (on, period - on)
}

/// Change of the watchdog's oscillation.
#[derive(Debug, Clone, Copy, PartialEq, Eq, Structural)]
pub enum WatchdogCommand {
    Start,
    Stop,
}

/// What to do to the watchdog so that it oscillates iff `oscillate`, given
/// whether it `oscillating` already: nothing when it is in that state.
pub fn watchdog_command(oscillating: bool, oscillate: bool) -> (r: Option<WatchdogCommand>)
    ensures
        oscillating == oscillate <==> r is None,
        oscillate && !oscillating <==> r == Some(WatchdogCommand::Start),
        !oscillate && oscillating <==> r == Some(WatchdogCommand::Stop),
{
    if oscillating == oscillate {
        None
    } else if oscillate {
        Some(WatchdogCommand::Start)
    } else {
        Some(WatchdogCommand::Stop)
    }
}

} // verus!
