use juicelib::machine::EVSEMachineInput;
use juicelib::pilot::{classify_pilot, duty_cycle_for_ampere, get_pilot_state, PilotSymbol};

#[test]
fn classify_each_window() {
    assert_eq!(classify_pilot(-12000, 12000), PilotSymbol::Plus12V);
    assert_eq!(classify_pilot(-12000, 9000), PilotSymbol::Plus9V);
    assert_eq!(classify_pilot(-12000, 6000), PilotSymbol::Plus6V);
    assert_eq!(classify_pilot(-12000, 3000), PilotSymbol::Plus3V);
    assert_eq!(classify_pilot(-12000, -12000), PilotSymbol::Minus12V);
    assert_eq!(classify_pilot(-12000, 0), PilotSymbol::Error);
    assert_eq!(classify_pilot(-12000, 10500), PilotSymbol::Error);
}

#[test]
fn window_edges_are_closed() {
    assert_eq!(classify_pilot(-13000, 11000), PilotSymbol::Plus12V);
    assert_eq!(classify_pilot(-11000, 13000), PilotSymbol::Plus12V);
    assert_eq!(classify_pilot(-12000, 13001), PilotSymbol::Error);
    assert_eq!(classify_pilot(-12000, 10000), PilotSymbol::Plus9V);
    assert_eq!(classify_pilot(-12000, 7000), PilotSymbol::Plus6V);
    assert_eq!(classify_pilot(-12000, 2000), PilotSymbol::Plus3V);
    assert_eq!(classify_pilot(-12000, -11000), PilotSymbol::Minus12V);
}

#[test]
fn low_level_out_of_window_is_an_error() {
    assert_eq!(classify_pilot(-10999, 12000), PilotSymbol::Error);
    assert_eq!(classify_pilot(-13001, 9000), PilotSymbol::Error);
    assert_eq!(classify_pilot(-1, 6000), PilotSymbol::Error);
    // A non-negative low level is a steady pilot: only the high level counts.
    assert_eq!(classify_pilot(12000, 12000), PilotSymbol::Plus12V);
    assert_eq!(classify_pilot(0, 0), PilotSymbol::Error);
}

#[test]
fn every_reading_has_one_symbol() {
    let mut v = -14000;
    while v <= 14000 {
        for min in [-13500, -12000, -500, 0, 12000] {
            let s = classify_pilot(min, v);
            let count = [
                PilotSymbol::Plus12V,
                PilotSymbol::Plus9V,
                PilotSymbol::Plus6V,
                PilotSymbol::Plus3V,
                PilotSymbol::Zero,
                PilotSymbol::Minus12V,
                PilotSymbol::Error,
            ]
            .iter()
            .filter(|x| **x == s)
            .count();
            assert_eq!(count, 1);
        }
        v += 250;
    }
}

#[test]
fn pilot_state_inputs() {
    assert_eq!(get_pilot_state((-12000, 12000)), EVSEMachineInput::PilotIs12V);
    assert_eq!(get_pilot_state((-12000, 9000)), EVSEMachineInput::PilotIs9V);
    assert_eq!(get_pilot_state((-12000, 6000)), EVSEMachineInput::PilotIs6V);
    assert_eq!(get_pilot_state((-12000, 3000)), EVSEMachineInput::PilotIs3V);
    assert_eq!(get_pilot_state((-12000, -12000)), EVSEMachineInput::PilotIsNegative12V);
    assert_eq!(get_pilot_state((0, 0)), EVSEMachineInput::PilotInError);
}

#[test]
fn duty_cycle_formula() {
    assert_eq!(duty_cycle_for_ampere(32), 533_333);
    assert_eq!(duty_cycle_for_ampere(0), 0);
    assert_eq!(duty_cycle_for_ampere(6), 100_000);
    assert_eq!(duty_cycle_for_ampere(60), 1_000_000);
}
