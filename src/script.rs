use vstd::prelude::*;

use crate::facade::{
    contactor_steps, set_contactor, lemma_contactor_steps_ordered, lemma_no_write_ordered,
    lemma_ordered_concat, no_contactor_write, watchdog_ordered, HwOp, Level, OnOff, Probe, Step,
};
use crate::machine::{EVSEMachineInput, EVSEMachineState};

verus! {

/// Largest current offered to a vehicle, in amperes.
pub const MAX_CURRENT_OFFER: u32 = 32;

/// Number of synthetic-fault cycles of the GFI self-test.
pub const GFI_TEST_CYCLES: u32 = 10;

/// Half a mains period at 50 Hz, in milliseconds: how long the GFI-test pin
/// stays at each level during the burst.
pub const GFI_TEST_HALF_PERIOD_MS: u32 = 10;

/// What the hardware side reports back to the controller.
#[derive(Debug, Clone, Copy, PartialEq, Eq, Structural)]
pub enum Event {
    /// The operation was carried out.
    Done,
    /// The operation failed.
    Failed,
    /// The probe read this level.
    Read(Level),
    /// An input for the state machine: a pilot reading or a fault.
    Input(EVSEMachineInput),
}

/// A step performed with the given outcome went as the script requires.
pub open spec fn step_passes(step: Step, ev: Event) -> bool {
    match step {
        Step::Perform(_) => ev == Event::Done,
        Step::Expect(_, level) => ev == Event::Read(level),
    }
}

/// Every step of `script` went as it requires, with outcomes `evs`.
pub open spec fn script_passes(script: Seq<Step>, evs: Seq<Event>) -> bool {
    evs.len() == script.len() && forall|i: int|
        0 <= i < script.len() ==> #[trigger] step_passes(script[i], evs[i])
}

/// One cycle of the synthetic ground fault: the test pin high for half a
/// mains period, then low for half a period.
pub open spec fn gfi_cycle() -> Seq<Step> {
    seq![
        Step::Perform(HwOp::GroundTestPin(OnOff::On)),
        Step::Perform(HwOp::Sleep(10)),
        Step::Perform(HwOp::GroundTestPin(OnOff::Off)),
        Step::Perform(HwOp::Sleep(10)),
    ]
}

/// `n` cycles of the synthetic ground fault.
pub open spec fn gfi_burst(n: nat) -> Seq<Step>
    decreases n,
{
    if n == 0 {
        Seq::empty()
    } else {
        gfi_burst((n - 1) as nat) + gfi_cycle()
    }
}

/// A step of the synthetic-fault burst.
pub open spec fn is_burst_step(s: Step) -> bool {
    s == Step::Perform(HwOp::GroundTestPin(OnOff::On)) || s == Step::Perform(HwOp::GroundTestPin(OnOff::Off))
        || s == Step::Perform(HwOp::Sleep(10))
}

/// Self-test, before the burst: test pin and contactor off, clear any
/// latched fault, and check that GFI-status reads low.
pub open spec fn self_test_prefix() -> Seq<Step> {
    seq![Step::Perform(HwOp::GroundTestPin(OnOff::Off))] + contactor_steps(OnOff::Off) + seq![
        Step::Perform(HwOp::Sleep(200)),
        Step::Perform(HwOp::GfiResetPulse),
        Step::Perform(HwOp::Sleep(100)),
        Step::Perform(HwOp::ClearGfiStatus),
        Step::Expect(Probe::GfiStatus, Level::Low),
    ]
}

/// Self-test, after the burst: GFI-status must read high, then the fault is
/// cleared and must read low, twice, 100 ms apart.
pub open spec fn self_test_suffix() -> Seq<Step> {
    seq![
        Step::Expect(Probe::GfiStatus, Level::High),
        Step::Perform(HwOp::Sleep(500)),
        Step::Perform(HwOp::GfiResetPulse),
        Step::Perform(HwOp::ClearGfiStatus),
        Step::Perform(HwOp::Sleep(100)),
        Step::Expect(Probe::GfiStatus, Level::Low),
        Step::Perform(HwOp::Sleep(100)),
        Step::Expect(Probe::GfiStatus, Level::Low),
        Step::Perform(HwOp::ClearGfiStatus),
    ]
}

/// The GFI self-test.
pub open spec fn self_test_steps() -> Seq<Step> {
    self_test_prefix() + gfi_burst(10) + self_test_suffix()
}

/// The script run on entering each state.
pub open spec fn entry_steps(s: EVSEMachineState) -> Seq<Step> {
    match s {
        EVSEMachineState::SelfTest => seq![Step::Perform(HwOp::ListenToPilot(false))] + self_test_steps(),
        EVSEMachineState::Standby => contactor_steps(OnOff::Off) + seq![
            Step::Perform(HwOp::WaitingForVehicle),
            Step::Perform(HwOp::GroundTestPin(OnOff::Off)),
            Step::Perform(HwOp::Sleep(1000)),
            Step::Expect(Probe::RelayMirror, Level::Low),
            Step::Perform(HwOp::ListenToPilot(true)),
        ],
        EVSEMachineState::VehicleDetected => contactor_steps(OnOff::Off) + seq![
            Step::Perform(HwOp::Sleep(100)),
            Step::Expect(Probe::RelayMirror, Level::Low),
            Step::Perform(HwOp::CurrentOffer(32)),
            Step::Perform(HwOp::GroundTestPin(OnOff::Off)),
        ],
        EVSEMachineState::StartCharging => start_charging_prefix() + self_test_steps()
            + contactor_steps(OnOff::On) + seq![
            Step::Perform(HwOp::Sleep(200)),
            Step::Expect(Probe::RelayMirror, Level::High),
        ],
        EVSEMachineState::Charging => seq![Step::Expect(Probe::RelayMirror, Level::High)],
        EVSEMachineState::StopCharging => seq![
            Step::Perform(HwOp::CurrentOffer(0)),
            Step::Perform(HwOp::Sleep(2000)),
        ] + contactor_steps(OnOff::Off) + seq![
            Step::Perform(HwOp::Sleep(100)),
            Step::Expect(Probe::RelayMirror, Level::Low),
        ],
        EVSEMachineState::NoPower => seq![Step::Perform(HwOp::CurrentOffer(0))] + contactor_steps(OnOff::Off)
            + seq![
            Step::Perform(HwOp::GroundTestPin(OnOff::Off)),
            Step::Perform(HwOp::Sleep(100)),
            Step::Expect(Probe::RelayMirror, Level::Low),
        ],
        EVSEMachineState::VentilationNeeded => contactor_steps(OnOff::Off) + relay_off_check(),
        EVSEMachineState::ResetableError => seq![Step::Perform(HwOp::CurrentOffer(0))] + contactor_steps(
            OnOff::Off,
        ) + relay_off_check(),
        EVSEMachineState::FailedStation => contactor_steps(OnOff::Off),
    }
}

/// A relay settle time, then the relay mirror must read low.
pub open spec fn relay_off_check() -> Seq<Step> {
    seq![Step::Perform(HwOp::Sleep(100)), Step::Expect(Probe::RelayMirror, Level::Low)]
}

/// Start of charging, before the self-test: the J1772 grace second, the
/// relay mirror low, the contactor off and a settle time.
pub open spec fn start_charging_prefix() -> Seq<Step> {
    seq![Step::Perform(HwOp::Sleep(1000)), Step::Expect(Probe::RelayMirror, Level::Low)]
        + contactor_steps(OnOff::Off) + seq![Step::Perform(HwOp::Sleep(200))]
}

/// The input that a state hands to itself once its entry script has passed.
pub open spec fn entry_input(s: EVSEMachineState) -> Option<EVSEMachineInput> {
    match s {
        EVSEMachineState::SelfTest => Some(EVSEMachineInput::SelfTestOk),
        EVSEMachineState::StartCharging => Some(EVSEMachineInput::SelfTestOk),
        EVSEMachineState::StopCharging => Some(EVSEMachineInput::ChargingFinished),
        _ => None,
    }
}

/// `s` commands the contactor On nowhere.
pub open spec fn no_contactor_on(s: Seq<Step>) -> bool {
    forall|i: int| 0 <= i < s.len() ==> #[trigger] s[i] != Step::Perform(HwOp::ContactorPin(OnOff::On))
}

proof fn lemma_no_on_concat(a: Seq<Step>, b: Seq<Step>)
    requires
        no_contactor_on(a),
        no_contactor_on(b),
    ensures
        no_contactor_on(a + b),
{
    let s = a + b;
    assert forall|i: int| 0 <= i < s.len() implies #[trigger] s[i] != Step::Perform(
        HwOp::ContactorPin(OnOff::On),
    ) by {
        if i < a.len() {
            assert(s[i] == a[i]);
        } else {
            assert(s[i] == b[i - a.len()]);
        }
    }
}

/// The burst is four steps a cycle, each of them a burst step.
pub proof fn lemma_burst(n: nat)
    ensures
        gfi_burst(n).len() == 4 * n,
        forall|i: int| 0 <= i < 4 * n ==> is_burst_step(#[trigger] gfi_burst(n)[i]),
        no_contactor_write(gfi_burst(n)),
        no_contactor_on(gfi_burst(n)),
    decreases n,
{
    if n > 0 {
        lemma_burst((n - 1) as nat);
        let a = gfi_burst((n - 1) as nat);
        let c = gfi_cycle();
        let b = gfi_burst(n);
        assert(b == a + c);
        assert forall|i: int| 0 <= i < 4 * n implies is_burst_step(#[trigger] b[i]) by {
            if i < a.len() {
                assert(b[i] == a[i]);
            } else {
                assert(b[i] == c[i - a.len()]);
            }
        }
    }
}

/// Where the self-test checks GFI-status, and what lies in between.
pub proof fn lemma_self_test_shape()
    ensures
        self_test_steps().len() == 57,
        self_test_steps()[7] == Step::Expect(Probe::GfiStatus, Level::Low),
        forall|i: int| 8 <= i < 48 ==> is_burst_step(#[trigger] self_test_steps()[i]),
        self_test_steps()[48] == Step::Expect(Probe::GfiStatus, Level::High),
        self_test_steps()[50] == Step::Perform(HwOp::GfiResetPulse),
        self_test_steps()[53] == Step::Expect(Probe::GfiStatus, Level::Low),
        self_test_steps()[55] == Step::Expect(Probe::GfiStatus, Level::Low),
        no_contactor_on(self_test_steps()),
        watchdog_ordered(self_test_steps()),
{
    let p = self_test_prefix();
    let b = gfi_burst(10);
    let q = self_test_suffix();
    let s = self_test_steps();
    lemma_burst(10);
    lemma_contactor_steps_ordered(OnOff::Off);
    let p1 = seq![Step::Perform(HwOp::GroundTestPin(OnOff::Off))];
    let p3 = seq![
        Step::Perform(HwOp::Sleep(200)),
        Step::Perform(HwOp::GfiResetPulse),
        Step::Perform(HwOp::Sleep(100)),
        Step::Perform(HwOp::ClearGfiStatus),
        Step::Expect(Probe::GfiStatus, Level::Low),
    ];
    assert(p == p1 + contactor_steps(OnOff::Off) + p3);
    assert(no_contactor_write(p1));
    assert(no_contactor_write(p3));
    assert(no_contactor_write(q));
    lemma_no_write_ordered(p1);
    lemma_no_write_ordered(p3);
    lemma_no_write_ordered(q);
    lemma_no_write_ordered(b);
    lemma_ordered_concat(p1, contactor_steps(OnOff::Off));
    lemma_ordered_concat(p1 + contactor_steps(OnOff::Off), p3);
    lemma_ordered_concat(p, b);
    lemma_ordered_concat(p + b, q);
    assert(no_contactor_on(p1));
    assert(no_contactor_on(contactor_steps(OnOff::Off)));
    assert(no_contactor_on(p3));
    assert(no_contactor_on(q));
    lemma_no_on_concat(p1, contactor_steps(OnOff::Off));
    lemma_no_on_concat(p1 + contactor_steps(OnOff::Off), p3);
    lemma_no_on_concat(p, b);
    lemma_no_on_concat(p + b, q);
    assert(p.len() == 8);
    assert(s[7] == p[7]);
    assert forall|i: int| 8 <= i < 48 implies is_burst_step(#[trigger] s[i]) by {
        assert(s[i] == (p + b)[i]);
        assert((p + b)[i] == b[i - 8]);
    }
    assert(s[48] == q[0]);
    assert(s[50] == q[2]);
    assert(s[53] == q[5]);
    assert(s[55] == q[7]);
}

/// The GFI self-test passes only if GFI-status reads low before the
/// synthetic-fault burst, high right after it, and low after the reset.
pub proof fn lemma_self_test_requires_gfi_readings(evs: Seq<Event>)
    requires
        script_passes(self_test_steps(), evs),
    ensures
        evs[7] == Event::Read(Level::Low),
        evs[48] == Event::Read(Level::High),
        evs[53] == Event::Read(Level::Low),
        evs[55] == Event::Read(Level::Low),
{
    lemma_self_test_shape();
    assert(step_passes(self_test_steps()[7], evs[7]));
    assert(step_passes(self_test_steps()[48], evs[48]));
    assert(step_passes(self_test_steps()[53], evs[53]));
    assert(step_passes(self_test_steps()[55], evs[55]));
}

/// Every entry script keeps the watchdog discipline: the watchdog starts
/// right before the contactor is commanded On, and stops right after it is
/// commanded Off.
pub proof fn lemma_entry_scripts_keep_watchdog_order(s: EVSEMachineState)
    ensures
        watchdog_ordered(entry_steps(s)),
{
    let off = contactor_steps(OnOff::Off);
    lemma_contactor_steps_ordered(OnOff::Off);
    lemma_contactor_steps_ordered(OnOff::On);
    lemma_self_test_shape();
    match s {
        EVSEMachineState::SelfTest => {
            let a = seq![Step::Perform(HwOp::ListenToPilot(false))];
            assert(no_contactor_write(a));
            lemma_no_write_ordered(a);
            lemma_ordered_concat(a, self_test_steps());
        },
        EVSEMachineState::Standby => {
            let b = entry_steps(s).subrange(2, 7);
            assert(entry_steps(s) == off + b);
            assert(no_contactor_write(b));
            lemma_no_write_ordered(b);
            lemma_ordered_concat(off, b);
        },
        EVSEMachineState::VehicleDetected => {
            let b = entry_steps(s).subrange(2, 6);
            assert(entry_steps(s) == off + b);
            assert(no_contactor_write(b));
            lemma_no_write_ordered(b);
            lemma_ordered_concat(off, b);
        },
        EVSEMachineState::StartCharging => {
            let a = seq![Step::Perform(HwOp::Sleep(1000)), Step::Expect(Probe::RelayMirror, Level::Low)];
            let c = seq![Step::Perform(HwOp::Sleep(200))];
            let d = seq![Step::Perform(HwOp::Sleep(200)), Step::Expect(Probe::RelayMirror, Level::High)];
            let on = contactor_steps(OnOff::On);
            assert(no_contactor_write(a));
            assert(no_contactor_write(c));
            assert(no_contactor_write(d));
            lemma_no_write_ordered(a);
            lemma_no_write_ordered(c);
            lemma_no_write_ordered(d);
            lemma_ordered_concat(a, off);
            lemma_ordered_concat(a + off, c);
            lemma_ordered_concat(start_charging_prefix(), self_test_steps());
            lemma_ordered_concat(start_charging_prefix() + self_test_steps(), on);
            lemma_ordered_concat(start_charging_prefix() + self_test_steps() + on, d);
        },
        EVSEMachineState::Charging => {
            assert(no_contactor_write(entry_steps(s)));
            lemma_no_write_ordered(entry_steps(s));
        },
        EVSEMachineState::StopCharging => {
            let a = seq![Step::Perform(HwOp::CurrentOffer(0)), Step::Perform(HwOp::Sleep(2000))];
            let d = seq![Step::Perform(HwOp::Sleep(100)), Step::Expect(Probe::RelayMirror, Level::Low)];
            assert(no_contactor_write(a));
            assert(no_contactor_write(d));
            lemma_no_write_ordered(a);
            lemma_no_write_ordered(d);
            lemma_ordered_concat(a, off);
            lemma_ordered_concat(a + off, d);
        },
        EVSEMachineState::NoPower => {
            let a = seq![Step::Perform(HwOp::CurrentOffer(0))];
            let d = seq![
                Step::Perform(HwOp::GroundTestPin(OnOff::Off)),
                Step::Perform(HwOp::Sleep(100)),
                Step::Expect(Probe::RelayMirror, Level::Low),
            ];
            assert(no_contactor_write(a));
            assert(no_contactor_write(d));
            lemma_no_write_ordered(a);
            lemma_no_write_ordered(d);
            lemma_ordered_concat(a, off);
            lemma_ordered_concat(a + off, d);
        },
        EVSEMachineState::ResetableError => {
            let a = seq![Step::Perform(HwOp::CurrentOffer(0))];
            let d = relay_off_check();
            assert(no_contactor_write(a));
            assert(no_contactor_write(d));
            lemma_no_write_ordered(a);
            lemma_no_write_ordered(d);
            lemma_ordered_concat(a, off);
            lemma_ordered_concat(a + off, d);
        },
        EVSEMachineState::VentilationNeeded => {
            let d = relay_off_check();
            assert(no_contactor_write(d));
            lemma_no_write_ordered(d);
            lemma_ordered_concat(off, d);
        },
        _ => {},
    }
}

/// Index, in the start-of-charging script, of the step that commands the
/// contactor On.
pub open spec fn contactor_on_index() -> int {
    63
}

/// Only the start-of-charging script commands the contactor On, at one
/// place, which comes after the whole GFI self-test.
pub proof fn lemma_contactor_on_only_after_self_test(s: EVSEMachineState, i: int)
    requires
        0 <= i < entry_steps(s).len(),
        entry_steps(s)[i] == Step::Perform(HwOp::ContactorPin(OnOff::On)),
    ensures
        s == EVSEMachineState::StartCharging,
        i == contactor_on_index(),
        entry_steps(s).subrange(5, 62) == self_test_steps(),
{
    lemma_self_test_shape();
    let off = contactor_steps(OnOff::Off);
    assert(no_contactor_on(off));
    match s {
        EVSEMachineState::SelfTest => {
            let a = seq![Step::Perform(HwOp::ListenToPilot(false))];
            assert(no_contactor_on(a));
            lemma_no_on_concat(a, self_test_steps());
        },
        EVSEMachineState::StartCharging => {
            let e = entry_steps(s);
            let p = start_charging_prefix();
            let t = self_test_steps();
            let on = contactor_steps(OnOff::On);
            let d = seq![Step::Perform(HwOp::Sleep(200)), Step::Expect(Probe::RelayMirror, Level::High)];
            assert(p.len() == 5);
            assert(e == p + t + on + d);
            assert(no_contactor_on(p));
            if i < 62 {
                assert(e[i] == (p + t)[i]);
                if i < 5 {
                    assert((p + t)[i] == p[i]);
                } else {
                    assert((p + t)[i] == t[i - 5]);
                }
            } else if i == 62 {
                assert(e[i] == on[0]);
            } else if i > 63 {
                assert(e[i] == d[i - 64]);
            }
            assert(e.subrange(5, 62) =~= t);
        },
        _ => {
            assert(no_contactor_on(entry_steps(s)));
        },
    }
}

/// `a` followed by `b`.
fn concat(a: Vec<Step>, b: Vec<Step>) -> (r: Vec<Step>)
    ensures
        r@ == a@ + b@,
{
    let mut a = a;
    let mut b = b;
    a.append(&mut b);
    a
}

/// Builds the GFI self-test.
pub fn self_test_script() -> (r: Vec<Step>)
    ensures
        r@ == self_test_steps(),
{
    let first = vec![Step::Perform(HwOp::GroundTestPin(OnOff::Off))];
    let clear = vec![
        Step::Perform(HwOp::Sleep(200)),
        Step::Perform(HwOp::GfiResetPulse),
        Step::Perform(HwOp::Sleep(100)),
        Step::Perform(HwOp::ClearGfiStatus),
        Step::Expect(Probe::GfiStatus, Level::Low),
    ];
    let mut r = concat(concat(first, set_contactor(OnOff::Off)), clear);
    assert(r@ =~= self_test_prefix());
    let mut k: u32 = 0;
    while k < GFI_TEST_CYCLES
        invariant
            k <= GFI_TEST_CYCLES,
            r@ == self_test_prefix() + gfi_burst(k as nat),
        decreases GFI_TEST_CYCLES - k,
    {
        let cycle = vec![
            Step::Perform(HwOp::GroundTestPin(OnOff::On)),
            Step::Perform(HwOp::Sleep(GFI_TEST_HALF_PERIOD_MS)),
            Step::Perform(HwOp::GroundTestPin(OnOff::Off)),
            Step::Perform(HwOp::Sleep(GFI_TEST_HALF_PERIOD_MS)),
        ];
        assert(cycle@ =~= gfi_cycle());
        r = concat(r, cycle);
        k = k + 1;
        assert(gfi_burst(k as nat) == gfi_burst((k - 1) as nat) + gfi_cycle());
        assert(r@ =~= self_test_prefix() + gfi_burst(k as nat));
    }
    let check = vec![
        Step::Expect(Probe::GfiStatus, Level::High),
        Step::Perform(HwOp::Sleep(500)),
        Step::Perform(HwOp::GfiResetPulse),
        Step::Perform(HwOp::ClearGfiStatus),
        Step::Perform(HwOp::Sleep(100)),
        Step::Expect(Probe::GfiStatus, Level::Low),
        Step::Perform(HwOp::Sleep(100)),
        Step::Expect(Probe::GfiStatus, Level::Low),
        Step::Perform(HwOp::ClearGfiStatus),
    ];
    assert(check@ =~= self_test_suffix());
    concat(r, check)
}

/// Builds the relay-off check.
fn relay_off_script() -> (r: Vec<Step>)
    ensures
        r@ == relay_off_check(),
{
    let r = vec![Step::Perform(HwOp::Sleep(100)), Step::Expect(Probe::RelayMirror, Level::Low)];
    assert(r@ =~= relay_off_check());
    r
}

/// Builds the script run on entering `state`.
pub fn entry_script(state: EVSEMachineState) -> (r: Vec<Step>)
    ensures
        r@ == entry_steps(state),
{
    let r = match state {
        EVSEMachineState::SelfTest => concat(vec![Step::Perform(HwOp::ListenToPilot(false))], self_test_script()),
        EVSEMachineState::Standby => concat(
            set_contactor(OnOff::Off),
            vec![
                Step::Perform(HwOp::WaitingForVehicle),
                Step::Perform(HwOp::GroundTestPin(OnOff::Off)),
                Step::Perform(HwOp::Sleep(1000)),
                Step::Expect(Probe::RelayMirror, Level::Low),
                Step::Perform(HwOp::ListenToPilot(true)),
            ],
        ),
        EVSEMachineState::VehicleDetected => concat(
            set_contactor(OnOff::Off),
            vec![
                Step::Perform(HwOp::Sleep(100)),
                Step::Expect(Probe::RelayMirror, Level::Low),
                Step::Perform(HwOp::CurrentOffer(MAX_CURRENT_OFFER)),
                Step::Perform(HwOp::GroundTestPin(OnOff::Off)),
            ],
        ),
        EVSEMachineState::StartCharging => {
            let grace = vec![Step::Perform(HwOp::Sleep(1000)), Step::Expect(Probe::RelayMirror, Level::Low)];
            let settle = vec![Step::Perform(HwOp::Sleep(200))];
            let prefix = concat(concat(grace, set_contactor(OnOff::Off)), settle);
            assert(prefix@ =~= start_charging_prefix());
            let check = vec![Step::Perform(HwOp::Sleep(200)), Step::Expect(Probe::RelayMirror, Level::High)];
            concat(concat(concat(prefix, self_test_script()), set_contactor(OnOff::On)), check)
        },
        EVSEMachineState::Charging => vec![Step::Expect(Probe::RelayMirror, Level::High)],
        EVSEMachineState::StopCharging => concat(
            concat(
                vec![Step::Perform(HwOp::CurrentOffer(0)), Step::Perform(HwOp::Sleep(2000))],
                set_contactor(OnOff::Off),
            ),
            vec![Step::Perform(HwOp::Sleep(100)), Step::Expect(Probe::RelayMirror, Level::Low)],
        ),
        EVSEMachineState::NoPower => concat(
            concat(vec![Step::Perform(HwOp::CurrentOffer(0))], set_contactor(OnOff::Off)),
            vec![
                Step::Perform(HwOp::GroundTestPin(OnOff::Off)),
                Step::Perform(HwOp::Sleep(100)),
                Step::Expect(Probe::RelayMirror, Level::Low),
            ],
        ),
        EVSEMachineState::VentilationNeeded => concat(set_contactor(OnOff::Off), relay_off_script()),
        EVSEMachineState::ResetableError => concat(
            concat(vec![Step::Perform(HwOp::CurrentOffer(0))], set_contactor(OnOff::Off)),
            relay_off_script(),
        ),
        EVSEMachineState::FailedStation => set_contactor(OnOff::Off),
    };
    assert(r@ =~= entry_steps(state));
    r
}

/// The input that `state` hands to itself once its entry script has passed.
pub fn entry_input_of(state: EVSEMachineState) -> (r: Option<EVSEMachineInput>)
    ensures
        r == entry_input(state),
{
    match state {
        EVSEMachineState::SelfTest => Some(EVSEMachineInput::SelfTestOk),
        EVSEMachineState::StartCharging => Some(EVSEMachineInput::SelfTestOk),
        EVSEMachineState::StopCharging => Some(EVSEMachineInput::ChargingFinished),
        _ => None,
    }
}

} // verus!
