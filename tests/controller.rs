use juicelib::controller::{fault_input, gfi_edge_fault, pilot_input, Action, Controller, Fault, Phase};
use juicelib::facade::{HwOp, Level, OnOff, Probe};
use juicelib::machine::{EVSEMachineInput, EVSEMachineState};
use juicelib::script::Event;

/// A plant that answers the controller as the wiring would.
struct Plant {
    contactor: OnOff,
    watchdog: bool,
    gfi_latched: bool,
    gfi_detects: bool,
    reset_clears: bool,
    ops: Vec<HwOp>,
    on_commands: Vec<EVSEMachineState>,
    gfi_reads: Vec<Level>,
}

impl Plant {
    fn new() -> Plant {
        Plant {
            contactor: OnOff::Off,
            watchdog: false,
            gfi_latched: false,
            gfi_detects: true,
            reset_clears: true,
            ops: vec![],
            on_commands: vec![],
            gfi_reads: vec![],
        }
    }

    fn perform(&mut self, op: HwOp, state: EVSEMachineState) -> Event {
        self.ops.push(op);
        match op {
            HwOp::StartWatchdog => self.watchdog = true,
            HwOp::StopWatchdog => self.watchdog = false,
            HwOp::ContactorPin(s) => {
                if s == OnOff::On {
                    assert!(self.watchdog, "contactor on with a quiet watchdog");
                    self.on_commands.push(state);
                }
                self.contactor = s;
            }
            HwOp::GroundTestPin(OnOff::On) => {
                if self.gfi_detects {
                    self.gfi_latched = true;
                }
            }
            HwOp::GfiResetPulse => {
                if self.reset_clears {
                    self.gfi_latched = false;
                }
            }
            HwOp::ClearGfiStatus => {
                if self.gfi_latched {
                    return Event::Failed;
                }
            }
            _ => {}
        }
        Event::Done
    }

    fn read(&mut self, p: Probe) -> Level {
        match p {
            Probe::GfiStatus => {
                let l = if self.gfi_latched { Level::High } else { Level::Low };
                self.gfi_reads.push(l);
                l
            }
            Probe::RelayMirror => Level::from(self.contactor),
        }
    }
}

/// Runs the controller until it waits with no input left, or halts.
fn run(ctl: &mut Controller, plant: &mut Plant, inputs: &[EVSEMachineInput]) {
    let mut next = 0;
    for _ in 0..10_000 {
        match ctl.next_action() {
            Action::Perform(op) => {
                let ev = plant.perform(op, ctl.state());
                ctl.on_event(ev);
            }
            Action::Read(p) => {
                let l = plant.read(p);
                ctl.on_event(Event::Read(l));
            }
            Action::AwaitInput => {
                if next == inputs.len() {
                    return;
                }
                ctl.on_event(Event::Input(inputs[next]));
                next += 1;
            }
            Action::Halt => return,
        }
    }
    panic!("controller did not settle");
}

fn reading(min_mv: i32, max_mv: i32) -> EVSEMachineInput {
    pilot_input(Some((min_mv, max_mv)))
}

fn charging() -> (Controller, Plant) {
    let mut ctl = Controller::new();
    let mut plant = Plant::new();
    run(&mut ctl, &mut plant, &[reading(-12000, 12000), reading(-12000, 9000), reading(-12000, 6000)]);
    assert_eq!(ctl.state(), EVSEMachineState::Charging);
    (ctl, plant)
}

fn watchdog_discipline_kept(ops: &[HwOp]) -> bool {
    ops.iter().enumerate().all(|(i, op)| match op {
        HwOp::ContactorPin(OnOff::On) => i > 0 && ops[i - 1] == HwOp::StartWatchdog,
        HwOp::ContactorPin(OnOff::Off) => i + 1 < ops.len() && ops[i + 1] == HwOp::StopWatchdog,
        _ => true,
    })
}

#[test]
fn clean_charge_cycle() {
    let mut ctl = Controller::new();
    let mut plant = Plant::new();
    run(
        &mut ctl,
        &mut plant,
        &[
            reading(-12000, 12000),
            reading(-12000, 9000),
            reading(-12000, 6000),
        ],
    );
    assert_eq!(ctl.state(), EVSEMachineState::Charging);
    assert_eq!(plant.contactor, OnOff::On);
    assert!(plant.ops.contains(&HwOp::CurrentOffer(32)));
    run(&mut ctl, &mut plant, &[reading(-12000, 9000), reading(-12000, 12000)]);
    assert_eq!(ctl.state(), EVSEMachineState::Standby);
    assert_eq!(ctl.phase(), Phase::Awaiting);
    assert_eq!(plant.contactor, OnOff::Off);
    assert!(!plant.watchdog);
    assert_eq!(plant.on_commands, vec![EVSEMachineState::StartCharging]);
    assert!(watchdog_discipline_kept(&plant.ops));
}

#[test]
fn gfi_during_charge_fails_the_station() {
    let (mut ctl, mut plant) = charging();
    run(&mut ctl, &mut plant, &[fault_input(Some(Fault::GFIInterrupted))]);
    assert_eq!(ctl.state(), EVSEMachineState::FailedStation);
    assert_eq!(ctl.next_action(), Action::Halt);
    assert_eq!(plant.contactor, OnOff::Off);
    assert!(!plant.watchdog);
    let n = plant.ops.len();
    assert_eq!(plant.ops[n - 2..], [HwOp::ContactorPin(OnOff::Off), HwOp::StopWatchdog]);
}

#[test]
fn self_test_failure_at_boot() {
    let mut ctl = Controller::new();
    let mut plant = Plant::new();
    plant.gfi_detects = false;
    run(&mut ctl, &mut plant, &[]);
    assert_eq!(ctl.state(), EVSEMachineState::FailedStation);
    assert_eq!(ctl.next_action(), Action::Halt);
    assert!(plant.on_commands.is_empty());
    assert_eq!(plant.gfi_reads, vec![Level::Low, Level::Low]);
    assert!(!plant.ops.contains(&HwOp::ListenToPilot(true)));
}

#[test]
fn self_test_fails_when_the_fault_does_not_clear() {
    let mut ctl = Controller::new();
    let mut plant = Plant::new();
    plant.reset_clears = false;
    run(&mut ctl, &mut plant, &[]);
    assert_eq!(ctl.state(), EVSEMachineState::FailedStation);
    assert_eq!(plant.gfi_reads, vec![Level::Low, Level::High]);
}

#[test]
fn self_test_reads_low_high_low() {
    let mut ctl = Controller::new();
    let mut plant = Plant::new();
    run(&mut ctl, &mut plant, &[]);
    assert_eq!(ctl.state(), EVSEMachineState::Standby);
    assert_eq!(plant.gfi_reads, vec![Level::Low, Level::High, Level::Low, Level::Low]);
    let toggles = plant.ops.iter().filter(|op| **op == HwOp::GroundTestPin(OnOff::On)).count();
    assert_eq!(toggles, 10);
    assert_eq!(plant.ops.last(), Some(&HwOp::ListenToPilot(true)));
}

#[test]
fn vehicle_unplugged_during_charging() {
    let (mut ctl, mut plant) = charging();
    run(&mut ctl, &mut plant, &[reading(-12000, 12000)]);
    assert_eq!(ctl.state(), EVSEMachineState::Standby);
    assert_eq!(plant.contactor, OnOff::Off);
    assert!(plant.ops.contains(&HwOp::CurrentOffer(0)));
    assert!(watchdog_discipline_kept(&plant.ops));
}

#[test]
fn ventilation_needed_vehicle() {
    let mut ctl = Controller::new();
    let mut plant = Plant::new();
    run(&mut ctl, &mut plant, &[reading(-12000, 9000), reading(-12000, 3000)]);
    assert_eq!(ctl.state(), EVSEMachineState::VentilationNeeded);
    assert_eq!(plant.contactor, OnOff::Off);
}

#[test]
fn pilot_error_is_recoverable() {
    let mut ctl = Controller::new();
    let mut plant = Plant::new();
    run(&mut ctl, &mut plant, &[reading(-12000, 9000), reading(0, 0)]);
    assert_eq!(ctl.state(), EVSEMachineState::ResetableError);
    run(&mut ctl, &mut plant, &[reading(-12000, 12000)]);
    assert_eq!(ctl.state(), EVSEMachineState::Standby);
}

#[test]
fn relay_mirror_mismatch_fails_the_station() {
    let mut ctl = Controller::new();
    let mut plant = Plant::new();
    run(&mut ctl, &mut plant, &[]);
    assert_eq!(ctl.state(), EVSEMachineState::Standby);
    // The relay reads high although the contactor was commanded off.
    ctl.on_event(Event::Input(reading(-12000, 9000)));
    loop {
        match ctl.next_action() {
            Action::Read(Probe::RelayMirror) => {
                ctl.on_event(Event::Read(Level::High));
                break;
            }
            Action::Perform(op) => {
                let ev = plant.perform(op, ctl.state());
                ctl.on_event(ev);
            }
            other => panic!("unexpected action {:?}", other),
        }
    }
    assert_eq!(ctl.phase(), Phase::Recovering);
    assert_eq!(ctl.next_action(), Action::Perform(HwOp::ContactorPin(OnOff::Off)));
    ctl.on_event(Event::Failed);
    assert_eq!(ctl.next_action(), Action::Perform(HwOp::StopWatchdog));
    ctl.on_event(Event::Done);
    assert_eq!(ctl.state(), EVSEMachineState::FailedStation);
    assert_eq!(ctl.next_action(), Action::Perform(HwOp::ContactorPin(OnOff::Off)));
    ctl.on_event(Event::Failed);
    assert_eq!(ctl.next_action(), Action::Perform(HwOp::StopWatchdog));
    ctl.on_event(Event::Failed);
    assert_eq!(ctl.next_action(), Action::Halt);
    ctl.on_event(Event::Input(reading(-12000, 12000)));
    assert_eq!(ctl.state(), EVSEMachineState::FailedStation);
}

#[test]
fn waiting_controller_ignores_other_events() {
    let mut ctl = Controller::new();
    let mut plant = Plant::new();
    run(&mut ctl, &mut plant, &[]);
    assert_eq!(ctl.next_action(), Action::AwaitInput);
    ctl.on_event(Event::Done);
    ctl.on_event(Event::Read(Level::High));
    assert_eq!(ctl.next_action(), Action::AwaitInput);
    // An input that Standby ignores leaves it waiting.
    ctl.on_event(Event::Input(reading(0, 0)));
    assert_eq!(ctl.state(), EVSEMachineState::Standby);
    assert_eq!(ctl.next_action(), Action::AwaitInput);
}

#[test]
fn queue_inputs() {
    assert_eq!(fault_input(Some(Fault::GFIInterrupted)), EVSEMachineInput::GFIInterrupted);
    assert_eq!(fault_input(Some(Fault::NoGround)), EVSEMachineInput::NoGround);
    assert_eq!(fault_input(Some(Fault::PilotInError)), EVSEMachineInput::PilotInError);
    assert_eq!(fault_input(Some(Fault::InternalFaultThreadError)), EVSEMachineInput::HardwareFault);
    assert_eq!(fault_input(None), EVSEMachineInput::PilotInError);
    assert_eq!(pilot_input(None), EVSEMachineInput::PilotInError);
    assert_eq!(pilot_input(Some((-12000, 6000))), EVSEMachineInput::PilotIs6V);
}

#[test]
fn gfi_edge_counts_only_with_contactor_on() {
    assert_eq!(gfi_edge_fault(Level::High, OnOff::On), Some(Fault::GFIInterrupted));
    assert_eq!(gfi_edge_fault(Level::High, OnOff::Off), None);
    assert_eq!(gfi_edge_fault(Level::Low, OnOff::On), None);
    assert_eq!(gfi_edge_fault(Level::Low, OnOff::Off), None);
}

/// Drives the controller into `inputs`' last state, answering the relay
/// mirror with `relay` from the moment that state's script starts.
fn enter_with_relay(inputs: &[EVSEMachineInput], relay: Level) -> Controller {
    let mut ctl = Controller::new();
    let mut plant = Plant::new();
    run(&mut ctl, &mut plant, &inputs[..inputs.len() - 1]);
    ctl.on_event(Event::Input(inputs[inputs.len() - 1]));
    for _ in 0..100 {
        match ctl.next_action() {
            Action::Perform(op) => {
                let ev = plant.perform(op, ctl.state());
                ctl.on_event(ev);
            }
            Action::Read(Probe::RelayMirror) => ctl.on_event(Event::Read(relay)),
            Action::Read(p) => {
                let l = plant.read(p);
                ctl.on_event(Event::Read(l));
            }
            _ => return ctl,
        }
    }
    panic!("controller did not settle");
}

#[test]
fn relay_mirror_checked_after_contactor_off_in_every_idle_state() {
    let cases = [
        vec![reading(-12000, 9000), reading(-12000, 3000)],
        vec![reading(-12000, 9000), reading(-12000, -12000)],
        vec![reading(-12000, 9000), reading(0, 0)],
    ];
    for inputs in &cases {
        let ok = enter_with_relay(inputs, Level::Low);
        assert_eq!(ok.next_action(), Action::AwaitInput);
        let bad = enter_with_relay(inputs, Level::High);
        assert_eq!(bad.state(), EVSEMachineState::FailedStation);
        assert_eq!(bad.next_action(), Action::Halt);
    }
}

#[test]
fn faults_in_idle_states_fail_the_station() {
    for fault in [Fault::GFIInterrupted, Fault::NoGround, Fault::InternalFaultThreadError] {
        for path in [reading(-12000, 3000), reading(-12000, -12000), reading(0, 0)] {
            let mut ctl = Controller::new();
            let mut plant = Plant::new();
            run(&mut ctl, &mut plant, &[reading(-12000, 9000), path, fault_input(Some(fault))]);
            assert_eq!(ctl.state(), EVSEMachineState::FailedStation);
            assert_eq!(ctl.next_action(), Action::Halt);
            assert_eq!(plant.contactor, OnOff::Off);
        }
    }
}
