use vstd::prelude::*;

verus! {

use self::EVSEMachineInput as I;
use self::EVSEMachineOutput as O;
use self::EVSEMachineState as S;

/// States of the station, as J1772 names them, plus the self-test at start
/// and the two error states.
#[derive(Debug, Clone, Copy, PartialEq, Eq, Structural)]
pub enum EVSEMachineState {
    SelfTest,
    Standby,
    VehicleDetected,
    StartCharging,
    Charging,
    StopCharging,
    NoPower,
    VentilationNeeded,
    ResetableError,
    FailedStation,
}

/// Inputs of the state machine: pilot symbols, faults, and the inputs that
/// the transient states hand to themselves.
#[derive(Debug, Clone, Copy, PartialEq, Eq, Structural)]
pub enum EVSEMachineInput {
    SelfTestOk,
    SelfTestFailed,
    PilotIs12V,
    PilotIs9V,
    PilotIs6V,
    PilotIs3V,
    PilotIs0V,
    PilotIsNegative12V,
    PilotInError,
    GFIInterrupted,
    NoGround,
    HardwareFault,
    ChargingFinished,
}

/// Label that a transition gives out.
#[derive(Debug, Clone, Copy, PartialEq, Eq, Structural)]
pub enum EVSEMachineOutput {
    SelfTestOk,
    SelfTestError,
    HardwareFault,
    NoTransition,
    ConsiderCharging,
    Illegal,
    GFIError,
    NoGroundError,
    VehicleDisconnected,
    OfferCharging,
    PilotMeasurement,
    ChargingFinished,
    UnsupportedVehicle,
    NoPower,
}

/// The transition table: the next state and its label, or `None` where the
/// input is ignored in that state.
pub open spec fn transition(s: EVSEMachineState, i: EVSEMachineInput) -> Option<(EVSEMachineState, Option<EVSEMachineOutput>)> {
    match (s, i) {
        (S::SelfTest, I::SelfTestOk) => Some((S::Standby, Some(O::SelfTestOk))),
        (S::SelfTest, I::SelfTestFailed) => Some((S::FailedStation, Some(O::SelfTestError))),
        (S::SelfTest, I::HardwareFault) => Some((S::FailedStation, Some(O::HardwareFault))),

        (S::Standby, I::PilotIs12V) => Some((S::Standby, Some(O::NoTransition))),
        (S::Standby, I::PilotIs9V) => Some((S::VehicleDetected, Some(O::ConsiderCharging))),
        (S::Standby, I::PilotIs6V) => Some((S::ResetableError, Some(O::Illegal))),
        (S::Standby, I::PilotIs3V) => Some((S::ResetableError, Some(O::Illegal))),
        (S::Standby, I::GFIInterrupted) => Some((S::FailedStation, Some(O::GFIError))),
        (S::Standby, I::NoGround) => Some((S::FailedStation, Some(O::NoGroundError))),
        (S::Standby, I::HardwareFault) => Some((S::FailedStation, Some(O::HardwareFault))),
        (S::Standby, I::PilotIsNegative12V) => Some((S::FailedStation, Some(O::HardwareFault))),

        (S::VehicleDetected, I::PilotIs12V) => Some((S::Standby, Some(O::VehicleDisconnected))),
        (S::VehicleDetected, I::PilotIs9V) => Some((S::VehicleDetected, Some(O::NoTransition))),
        (S::VehicleDetected, I::PilotIs6V) => Some((S::StartCharging, Some(O::OfferCharging))),
        (S::VehicleDetected, I::PilotIs3V) => Some((S::VentilationNeeded, None)),
        (S::VehicleDetected, I::PilotIsNegative12V) => Some((S::NoPower, None)),
        (S::VehicleDetected, I::PilotInError) => Some((S::ResetableError, Some(O::PilotMeasurement))),
        (S::VehicleDetected, I::GFIInterrupted) => Some((S::FailedStation, Some(O::GFIError))),
        (S::VehicleDetected, I::NoGround) => Some((S::FailedStation, Some(O::NoGroundError))),
        (S::VehicleDetected, I::HardwareFault) => Some((S::FailedStation, Some(O::HardwareFault))),

        (S::StartCharging, I::PilotInError) => Some((S::ResetableError, Some(O::PilotMeasurement))),
        (S::StartCharging, I::GFIInterrupted) => Some((S::FailedStation, Some(O::GFIError))),
        (S::StartCharging, I::NoGround) => Some((S::FailedStation, Some(O::NoGroundError))),
        (S::StartCharging, I::HardwareFault) => Some((S::FailedStation, Some(O::HardwareFault))),
        (S::StartCharging, I::SelfTestOk) => Some((S::Charging, Some(O::NoTransition))),
        (S::StartCharging, I::SelfTestFailed) => Some((S::ResetableError, Some(O::SelfTestError))),

        (S::Charging, I::PilotIs12V) => Some((S::StopCharging, Some(O::VehicleDisconnected))),
        (S::Charging, I::PilotIs9V) => Some((S::StopCharging, Some(O::ChargingFinished))),
        (S::Charging, I::PilotIs6V) => Some((S::Charging, Some(O::NoTransition))),
        (S::Charging, I::PilotIs3V) => Some((S::VentilationNeeded, Some(O::UnsupportedVehicle))),
        (S::Charging, I::PilotIsNegative12V) => Some((S::StopCharging, Some(O::NoPower))),
        (S::Charging, I::PilotInError) => Some((S::StopCharging, Some(O::PilotMeasurement))),
        (S::Charging, I::GFIInterrupted) => Some((S::FailedStation, Some(O::GFIError))),
        (S::Charging, I::NoGround) => Some((S::FailedStation, Some(O::NoGroundError))),
        (S::Charging, I::HardwareFault) => Some((S::FailedStation, Some(O::HardwareFault))),

        (S::StopCharging, I::ChargingFinished) => Some((S::Standby, Some(O::NoTransition))),
        (S::StopCharging, I::PilotInError) => Some((S::ResetableError, Some(O::PilotMeasurement))),
        (S::StopCharging, I::GFIInterrupted) => Some((S::FailedStation, Some(O::GFIError))),
        (S::StopCharging, I::NoGround) => Some((S::FailedStation, Some(O::NoGroundError))),
        (S::StopCharging, I::HardwareFault) => Some((S::FailedStation, Some(O::HardwareFault))),

        (S::NoPower, I::PilotIsNegative12V) => Some((S::NoPower, Some(O::ChargingFinished))),
        (S::NoPower, I::HardwareFault) => Some((S::FailedStation, Some(O::HardwareFault))),
        (S::NoPower, I::GFIInterrupted) => Some((S::FailedStation, Some(O::GFIError))),
        (S::NoPower, I::NoGround) => Some((S::FailedStation, Some(O::NoGroundError))),

        (S::VentilationNeeded, I::GFIInterrupted) => Some((S::FailedStation, Some(O::GFIError))),
        (S::VentilationNeeded, I::NoGround) => Some((S::FailedStation, Some(O::NoGroundError))),
        (S::VentilationNeeded, I::HardwareFault) => Some((S::FailedStation, Some(O::HardwareFault))),

        (S::ResetableError, I::PilotIs12V) => Some((S::Standby, None)),
        (S::ResetableError, I::GFIInterrupted) => Some((S::FailedStation, Some(O::GFIError))),
        (S::ResetableError, I::NoGround) => Some((S::FailedStation, Some(O::NoGroundError))),
        (S::ResetableError, I::HardwareFault) => Some((S::FailedStation, Some(O::HardwareFault))),

        _ => None,
    }
}

/// Looks up the transition table.
pub fn next_transition(s: EVSEMachineState, i: EVSEMachineInput) -> (r: Option<(EVSEMachineState, Option<EVSEMachineOutput>)>)
    ensures
        r == transition(s, i),
{
    match (s, i) {
        (S::SelfTest, I::SelfTestOk) => Some((S::Standby, Some(O::SelfTestOk))),
        (S::SelfTest, I::SelfTestFailed) => Some((S::FailedStation, Some(O::SelfTestError))),
        (S::SelfTest, I::HardwareFault) => Some((S::FailedStation, Some(O::HardwareFault))),

        (S::Standby, I::PilotIs12V) => Some((S::Standby, Some(O::NoTransition))),
        (S::Standby, I::PilotIs9V) => Some((S::VehicleDetected, Some(O::ConsiderCharging))),
        (S::Standby, I::PilotIs6V) => Some((S::ResetableError, Some(O::Illegal))),
        (S::Standby, I::PilotIs3V) => Some((S::ResetableError, Some(O::Illegal))),
        (S::Standby, I::GFIInterrupted) => Some((S::FailedStation, Some(O::GFIError))),
        (S::Standby, I::NoGround) => Some((S::FailedStation, Some(O::NoGroundError))),
        (S::Standby, I::HardwareFault) => Some((S::FailedStation, Some(O::HardwareFault))),
        (S::Standby, I::PilotIsNegative12V) => Some((S::FailedStation, Some(O::HardwareFault))),

        (S::VehicleDetected, I::PilotIs12V) => Some((S::Standby, Some(O::VehicleDisconnected))),
        (S::VehicleDetected, I::PilotIs9V) => Some((S::VehicleDetected, Some(O::NoTransition))),
        (S::VehicleDetected, I::PilotIs6V) => Some((S::StartCharging, Some(O::OfferCharging))),
        (S::VehicleDetected, I::PilotIs3V) => Some((S::VentilationNeeded, None)),
        (S::VehicleDetected, I::PilotIsNegative12V) => Some((S::NoPower, None)),
        (S::VehicleDetected, I::PilotInError) => Some((S::ResetableError, Some(O::PilotMeasurement))),
        (S::VehicleDetected, I::GFIInterrupted) => Some((S::FailedStation, Some(O::GFIError))),
        (S::VehicleDetected, I::NoGround) => Some((S::FailedStation, Some(O::NoGroundError))),
        (S::VehicleDetected, I::HardwareFault) => Some((S::FailedStation, Some(O::HardwareFault))),

        (S::StartCharging, I::PilotInError) => Some((S::ResetableError, Some(O::PilotMeasurement))),
        (S::StartCharging, I::GFIInterrupted) => Some((S::FailedStation, Some(O::GFIError))),
        (S::StartCharging, I::NoGround) => Some((S::FailedStation, Some(O::NoGroundError))),
        (S::StartCharging, I::HardwareFault) => Some((S::FailedStation, Some(O::HardwareFault))),
        (S::StartCharging, I::SelfTestOk) => Some((S::Charging, Some(O::NoTransition))),
        (S::StartCharging, I::SelfTestFailed) => Some((S::ResetableError, Some(O::SelfTestError))),

        (S::Charging, I::PilotIs12V) => Some((S::StopCharging, Some(O::VehicleDisconnected))),
        (S::Charging, I::PilotIs9V) => Some((S::StopCharging, Some(O::ChargingFinished))),
        (S::Charging, I::PilotIs6V) => Some((S::Charging, Some(O::NoTransition))),
        (S::Charging, I::PilotIs3V) => Some((S::VentilationNeeded, Some(O::UnsupportedVehicle))),
        (S::Charging, I::PilotIsNegative12V) => Some((S::StopCharging, Some(O::NoPower))),
        (S::Charging, I::PilotInError) => Some((S::StopCharging, Some(O::PilotMeasurement))),
        (S::Charging, I::GFIInterrupted) => Some((S::FailedStation, Some(O::GFIError))),
        (S::Charging, I::NoGround) => Some((S::FailedStation, Some(O::NoGroundError))),
        (S::Charging, I::HardwareFault) => Some((S::FailedStation, Some(O::HardwareFault))),

        (S::StopCharging, I::ChargingFinished) => Some((S::Standby, Some(O::NoTransition))),
        (S::StopCharging, I::PilotInError) => Some((S::ResetableError, Some(O::PilotMeasurement))),
        (S::StopCharging, I::GFIInterrupted) => Some((S::FailedStation, Some(O::GFIError))),
        (S::StopCharging, I::NoGround) => Some((S::FailedStation, Some(O::NoGroundError))),
        (S::StopCharging, I::HardwareFault) => Some((S::FailedStation, Some(O::HardwareFault))),

        (S::NoPower, I::PilotIsNegative12V) => Some((S::NoPower, Some(O::ChargingFinished))),
        (S::NoPower, I::HardwareFault) => Some((S::FailedStation, Some(O::HardwareFault))),
        (S::NoPower, I::GFIInterrupted) => Some((S::FailedStation, Some(O::GFIError))),
        (S::NoPower, I::NoGround) => Some((S::FailedStation, Some(O::NoGroundError))),

        (S::VentilationNeeded, I::GFIInterrupted) => Some((S::FailedStation, Some(O::GFIError))),
        (S::VentilationNeeded, I::NoGround) => Some((S::FailedStation, Some(O::NoGroundError))),
        (S::VentilationNeeded, I::HardwareFault) => Some((S::FailedStation, Some(O::HardwareFault))),

        (S::ResetableError, I::PilotIs12V) => Some((S::Standby, None)),
        (S::ResetableError, I::GFIInterrupted) => Some((S::FailedStation, Some(O::GFIError))),
        (S::ResetableError, I::NoGround) => Some((S::FailedStation, Some(O::NoGroundError))),
        (S::ResetableError, I::HardwareFault) => Some((S::FailedStation, Some(O::HardwareFault))),

        _ => None,
    }
}

/// A ground fault, a lost ground or a hardware fault sends every state but
/// the self-test and `FailedStation` itself to `FailedStation` in one
/// transition; a hardware fault does so from the self-test too.
pub proof fn lemma_faults_fail_the_station(s: EVSEMachineState, i: EVSEMachineInput)
    requires
        i is GFIInterrupted || i is NoGround || i is HardwareFault,
        !(s is FailedStation),
        s is SelfTest ==> i is HardwareFault,
    ensures
        transition(s, i) matches Some((next, _)) && next == EVSEMachineState::FailedStation,
{
}

/// `FailedStation` is absorbing: it takes no input.
pub proof fn lemma_failed_station_is_absorbing(i: EVSEMachineInput)
    ensures
        transition(EVSEMachineState::FailedStation, i) is None,
{
}

/// Refusal of an input that the current state does not take.
#[derive(Debug, Clone, Copy, PartialEq, Eq, Structural)]
pub struct TransitionImpossibleError;

/// The station's state machine; it starts in `SelfTest`.
#[derive(Debug)]
pub struct EVSEMachine {
    state: EVSEMachineState,
}

impl View for EVSEMachine {
    type V = EVSEMachineState;

    closed spec fn view(&self) -> EVSEMachineState {
        self.state
    }
}

impl EVSEMachine {
    /// A machine in its initial state, `SelfTest`.
    pub fn new() -> (r: Self)
        ensures
            r@ == EVSEMachineState::SelfTest,
    {
        EVSEMachine { state: EVSEMachineState::SelfTest }
    }

    /// The current state.
    pub fn state(&self) -> (r: EVSEMachineState)
        ensures
            r == self@,
    {
        self.state
    }

    /// Feeds one input: takes the transition of the table and returns its
    /// label, or leaves the state as it is and refuses an input that the
    /// table ignores.
    pub fn consume(&mut self, input: &EVSEMachineInput) -> (r: Result<Option<EVSEMachineOutput>, TransitionImpossibleError>)
        ensures
            match transition(old(self)@, *input) {
                Some((next, out)) => final(self)@ == next && r == Ok::<Option<EVSEMachineOutput>, TransitionImpossibleError>(out),
                None => final(self)@ == old(self)@ && r is Err,
            },
    {
        match next_transition(self.state, *input) {
            Some((next, out)) => {
                self.state = next;
                Ok(out)
            },
            None => Err(TransitionImpossibleError),
        }
    }
}

} // verus!
