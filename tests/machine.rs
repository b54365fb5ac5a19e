use juicelib::machine::EVSEMachineInput::{
    ChargingFinished, GFIInterrupted, HardwareFault, NoGround, PilotInError, PilotIs0V, PilotIs12V,
    PilotIs3V, PilotIs6V, PilotIs9V, PilotIsNegative12V, SelfTestFailed, SelfTestOk,
};
use juicelib::machine::{EVSEMachine, EVSEMachineInput, EVSEMachineOutput, EVSEMachineState};

#[test]
fn test_new_sm() {
    let mut machine = EVSEMachine::new();
    let output = machine.consume(&EVSEMachineInput::SelfTestOk).unwrap();
    println!("Output: {:?}", output);
    println!("State: {:?}", machine.state());
}

#[test]
fn test_self_test() {
    let mut machine = EVSEMachine::new();
    let output = machine.consume(&EVSEMachineInput::SelfTestFailed).unwrap();
    println!("Output: {:?}", output.unwrap());
    println!("State: {:?}", machine.state());
    assert!(matches!(machine.state(), EVSEMachineState::FailedStation));
}

#[test]
fn test_standby() {
    let mut machine = EVSEMachine::new();
    let output = machine.consume(&EVSEMachineInput::SelfTestOk).unwrap();
    println!("Output: {:?}", output.unwrap());
    println!("State: {:?}", machine.state());
    assert!(matches!(machine.state(), EVSEMachineState::Standby));
}

#[test]
fn test_gfi_interrupted() {
    let mut machine = EVSEMachine::new();
    let output = machine.consume(&EVSEMachineInput::SelfTestOk).unwrap();
    println!("Output: {:?}", output.unwrap());
    assert!(matches!(machine.state(), EVSEMachineState::Standby));
    let output = machine.consume(&EVSEMachineInput::GFIInterrupted).unwrap();
    println!("Output: {:?}", output.unwrap());
    assert!(matches!(machine.state(), EVSEMachineState::FailedStation));
}

#[test]
fn test_no_ground() {
    let mut machine = EVSEMachine::new();
    let output = machine.consume(&EVSEMachineInput::SelfTestOk).unwrap();
    println!("Output: {:?}", output.unwrap());
    assert!(matches!(machine.state(), EVSEMachineState::Standby));
    let output = machine.consume(&EVSEMachineInput::NoGround).unwrap();
    println!("Output: {:?}", output.unwrap());
    assert!(matches!(machine.state(), EVSEMachineState::FailedStation));
}

// The transition table sends a vehicle asking for charge to StartCharging;
// Charging follows once that state's self-test hands it SelfTestOk.
#[test]
fn test_start_charging() {
    let mut machine = EVSEMachine::new();
    let output = machine.consume(&EVSEMachineInput::SelfTestOk).unwrap();
    println!("Output: {:?}", output.unwrap());
    assert!(matches!(machine.state(), EVSEMachineState::Standby));
    let output = machine.consume(&EVSEMachineInput::PilotIs9V).unwrap();
    println!("Output: {:?}", output.unwrap());
    assert!(matches!(machine.state(), EVSEMachineState::VehicleDetected));
    let output = machine.consume(&EVSEMachineInput::PilotIs6V).unwrap();
    println!("Output: {:?}", output.unwrap());
    assert!(matches!(machine.state(), EVSEMachineState::StartCharging));
    let output = machine.consume(&EVSEMachineInput::SelfTestOk).unwrap();
    println!("Output: {:?}", output.unwrap());
    assert!(matches!(machine.state(), EVSEMachineState::Charging));
}

#[test]
fn test_vehicle_left() {
    let mut machine = EVSEMachine::new();
    let output = machine.consume(&EVSEMachineInput::SelfTestOk).unwrap();
    println!("Output: {:?}", output.unwrap());
    assert!(matches!(machine.state(), EVSEMachineState::Standby));
    let output = machine.consume(&EVSEMachineInput::PilotIs9V).unwrap();
    println!("Output: {:?}", output.unwrap());
    assert!(matches!(machine.state(), EVSEMachineState::VehicleDetected));
    let output = machine.consume(&EVSEMachineInput::PilotIs12V).unwrap();
    println!("Output: {:?}", output.unwrap());
    assert!(matches!(machine.state(), EVSEMachineState::Standby));
}

// A +9 V pilot while charging stops the charge (StopCharging), which hands
// itself ChargingFinished and returns to Standby.
#[test]
fn test_charging_finished() {
    let mut machine = EVSEMachine::new();
    machine.consume(&EVSEMachineInput::SelfTestOk).unwrap();
    assert!(matches!(machine.state(), EVSEMachineState::Standby));
    machine.consume(&EVSEMachineInput::PilotIs9V).unwrap();
    assert!(matches!(machine.state(), EVSEMachineState::VehicleDetected));
    machine.consume(&EVSEMachineInput::PilotIs6V).unwrap();
    machine.consume(&EVSEMachineInput::SelfTestOk).unwrap();
    assert!(matches!(machine.state(), EVSEMachineState::Charging));
    let output = machine.consume(&EVSEMachineInput::PilotIs9V).unwrap();
    assert_eq!(output, Some(EVSEMachineOutput::ChargingFinished));
    assert!(matches!(machine.state(), EVSEMachineState::StopCharging));
    machine.consume(&EVSEMachineInput::ChargingFinished).unwrap();
    assert!(matches!(machine.state(), EVSEMachineState::Standby));
}

#[test]
fn ignored_input_is_refused_and_keeps_state() {
    let mut machine = EVSEMachine::new();
    assert!(machine.consume(&EVSEMachineInput::PilotIs9V).is_err());
    assert_eq!(machine.state(), EVSEMachineState::SelfTest);
    machine.consume(&EVSEMachineInput::SelfTestOk).unwrap();
    assert!(machine.consume(&EVSEMachineInput::PilotInError).is_err());
    assert!(machine.consume(&EVSEMachineInput::PilotIs0V).is_err());
    assert_eq!(machine.state(), EVSEMachineState::Standby);
}

fn drive(inputs: &[EVSEMachineInput]) -> EVSEMachine {
    let mut machine = EVSEMachine::new();
    for i in inputs {
        machine.consume(i).unwrap();
    }
    machine
}

#[test]
fn faults_fail_every_operating_state() {
    let paths: Vec<Vec<EVSEMachineInput>> = vec![
        vec![SelfTestOk],
        vec![SelfTestOk, PilotIs9V],
        vec![SelfTestOk, PilotIs9V, PilotIs6V],
        vec![SelfTestOk, PilotIs9V, PilotIs6V, SelfTestOk],
        vec![SelfTestOk, PilotIs9V, PilotIs6V, SelfTestOk, PilotIs12V],
        vec![SelfTestOk, PilotIs9V, PilotIsNegative12V],
        vec![SelfTestOk, PilotIs9V, PilotIs3V],
        vec![SelfTestOk, PilotIs6V],
    ];
    for path in &paths {
        for fault in [GFIInterrupted, NoGround, HardwareFault] {
            let mut machine = drive(path);
            machine.consume(&fault).unwrap();
            assert_eq!(machine.state(), EVSEMachineState::FailedStation);
        }
    }
    let mut machine = EVSEMachine::new();
    machine.consume(&HardwareFault).unwrap();
    assert_eq!(machine.state(), EVSEMachineState::FailedStation);
}

#[test]
fn failed_station_takes_no_input() {
    let mut machine = drive(&[SelfTestOk, GFIInterrupted]);
    for input in [
        SelfTestOk, SelfTestFailed, PilotIs12V, PilotIs9V, PilotIs6V, PilotIs3V, PilotIs0V,
        PilotIsNegative12V, PilotInError, GFIInterrupted, NoGround, HardwareFault, ChargingFinished,
    ] {
        assert!(machine.consume(&input).is_err());
        assert_eq!(machine.state(), EVSEMachineState::FailedStation);
    }
}

#[test]
fn ventilation_and_pilot_error_paths() {
    let machine = drive(&[SelfTestOk, PilotIs9V, PilotIs3V]);
    assert_eq!(machine.state(), EVSEMachineState::VentilationNeeded);
    let mut machine = drive(&[SelfTestOk, PilotIs9V, PilotInError]);
    assert_eq!(machine.state(), EVSEMachineState::ResetableError);
    machine.consume(&PilotIs12V).unwrap();
    assert_eq!(machine.state(), EVSEMachineState::Standby);
    let machine = drive(&[SelfTestOk, PilotIs9V, PilotIsNegative12V]);
    assert_eq!(machine.state(), EVSEMachineState::NoPower);
    let machine = drive(&[SelfTestOk, PilotIs6V]);
    assert_eq!(machine.state(), EVSEMachineState::ResetableError);
}
