use vstd::prelude::*;

use crate::facade::{contactor_steps, set_contactor, HwOp, Level, OnOff, Probe, Step};
use crate::machine::{transition, EVSEMachine, EVSEMachineInput, EVSEMachineState};
use crate::pilot::{get_pilot_state, pilot_symbol, symbol_input};
use crate::script::{
    contactor_on_index, entry_input, entry_input_of, entry_script, entry_steps,
    lemma_contactor_on_only_after_self_test, lemma_self_test_requires_gfi_readings,
    lemma_self_test_shape, script_passes, self_test_steps, step_passes, Event,
};

verus! {

/// Faults that the fault listener reports.
#[derive(Debug, Clone, Copy, PartialEq, Eq, Structural)]
pub enum Fault {
    GFIInterrupted,
    NoGround,
    PilotInError,
    InternalFaultThreadError,
}

/// The machine input for a fault.
pub open spec fn fault_input_spec(f: Fault) -> EVSEMachineInput {
    match f {
        Fault::GFIInterrupted => EVSEMachineInput::GFIInterrupted,
        Fault::NoGround => EVSEMachineInput::NoGround,
        Fault::PilotInError => EVSEMachineInput::PilotInError,
        Fault::InternalFaultThreadError => EVSEMachineInput::HardwareFault,
    }
}

/// The machine input for what the fault queue gave: a fault, or `None` when
/// the queue is closed, which counts as a pilot error.
pub fn fault_input(received: Option<Fault>) -> (r: EVSEMachineInput)
    ensures
        r == match received {
            Some(f) => fault_input_spec(f),
            None => EVSEMachineInput::PilotInError,
        },
{
    match received {
        Some(Fault::GFIInterrupted) => EVSEMachineInput::GFIInterrupted,
        Some(Fault::NoGround) => EVSEMachineInput::NoGround,
        Some(Fault::PilotInError) => EVSEMachineInput::PilotInError,
        Some(Fault::InternalFaultThreadError) => EVSEMachineInput::HardwareFault,
        None => EVSEMachineInput::PilotInError,
    }
}

/// What a rising edge of GFI-status means: a ground fault when the input
/// is high while the contactor is commanded On; nothing while the contactor
/// is commanded Off, since the self-test trips the GFI on purpose then.
pub fn gfi_edge_fault(gfi_status: Level, contactor: OnOff) -> (r: Option<Fault>)
    ensures
        r == (if gfi_status == Level::High && contactor == OnOff::On {
            Some(Fault::GFIInterrupted)
        } else {
            None::<Fault>
        }),
{
    if gfi_status == Level::High && contactor == OnOff::On {
        Some(Fault::GFIInterrupted)
    } else {
        None
    }
}

/// The machine input for what the pilot queue gave: a reading `(min, max)`
/// in millivolts, or `None` when the queue is closed, which counts as a
/// pilot error.
pub fn pilot_input(received: Option<(i32, i32)>) -> (r: EVSEMachineInput)
    ensures
        r == match received {
            Some((min_mv, max_mv)) => symbol_input(pilot_symbol(min_mv as int, max_mv as int)),
            None => EVSEMachineInput::PilotInError,
        },
{
    match received {
        Some(reading) => get_pilot_state(reading),
        None => EVSEMachineInput::PilotInError,
    }
}

/// What the controller is doing.
#[derive(Debug, Clone, Copy, PartialEq, Eq, Structural)]
pub enum Phase {
    /// Running the entry script of the current state.
    Entering,
    /// A step failed: commanding the contactor off, whatever fails, before
    /// the machine is told of a hardware fault.
    Recovering,
    /// The station failed: commanding the contactor off, whatever fails,
    /// before halting.
    Stopping,
    /// Waiting for a pilot reading or a fault.
    Awaiting,
    /// Halted; only an operator can restart the station.
    Halted,
}

/// What the hardware side is asked to do next.
#[derive(Debug, Clone, Copy, PartialEq, Eq, Structural)]
pub enum Action {
    /// Carry out an operation and report `Done` or `Failed`.
    Perform(HwOp),
    /// Read a probe and report its level.
    Read(Probe),
    /// Wait for the next pilot reading or fault and report it as an input.
    AwaitInput,
    /// Stop the control loop.
    Halt,
}

/// The controller as a mathematical value.
pub struct ControllerView {
    pub state: EVSEMachineState,
    pub phase: Phase,
    pub script: Seq<Step>,
    pub pos: int,
    /// Outcomes of the steps of the script done so far.
    pub passed: Seq<Event>,
}

/// The controller's invariant.
pub open spec fn controller_wf(v: ControllerView) -> bool {
    &&& 0 <= v.pos
    &&& v.phase is Entering ==> {
        &&& v.state != EVSEMachineState::FailedStation
        &&& v.script == entry_steps(v.state)
        &&& v.pos < v.script.len()
        &&& script_passes(v.script.subrange(0, v.pos), v.passed)
    }
    &&& v.phase is Recovering ==> v.state != EVSEMachineState::FailedStation && v.script
        == contactor_steps(OnOff::Off) && v.pos < 2
    &&& v.phase is Stopping ==> v.state == EVSEMachineState::FailedStation && v.script
        == contactor_steps(OnOff::Off) && v.pos < 2
    &&& v.phase is Awaiting ==> v.state != EVSEMachineState::FailedStation
    &&& v.phase is Halted ==> v.state == EVSEMachineState::FailedStation
}

/// The action of a step.
pub open spec fn step_action(s: Step) -> Action {
    match s {
        Step::Perform(op) => Action::Perform(op),
        Step::Expect(p, _) => Action::Read(p),
    }
}

/// What the controller asks for next.
pub open spec fn action_of(v: ControllerView) -> Action {
    match v.phase {
        Phase::Awaiting => Action::AwaitInput,
        Phase::Halted => Action::Halt,
        _ => step_action(v.script[v.pos]),
    }
}

/// The controller on entering `state`: its entry script from the start, or,
/// for `FailedStation`, the contactor commanded off before halting.
pub open spec fn entered(state: EVSEMachineState) -> ControllerView {
    if state == EVSEMachineState::FailedStation {
        ControllerView {
            state,
            phase: Phase::Stopping,
            script: contactor_steps(OnOff::Off),
            pos: 0,
            passed: Seq::empty(),
        }
    } else {
        ControllerView { state, phase: Phase::Entering, script: entry_steps(state), pos: 0, passed: Seq::empty() }
    }
}

/// The controller waiting for an input in `state`.
pub open spec fn awaiting(state: EVSEMachineState) -> ControllerView {
    ControllerView { state, phase: Phase::Awaiting, script: Seq::empty(), pos: 0, passed: Seq::empty() }
}

/// Feeding `input` to the machine in `state`: the next state is entered;
/// an input that the state ignores leaves it waiting.
pub open spec fn fed(state: EVSEMachineState, input: EVSEMachineInput) -> ControllerView {
    match transition(state, input) {
        Some((next, _)) => entered(next),
        None => awaiting(state),
    }
}

/// The next step, one position further, with `ev` recorded.
pub open spec fn advanced(v: ControllerView, ev: Event) -> ControllerView {
    ControllerView { pos: v.pos + 1, passed: v.passed.push(ev), ..v }
}

/// How the controller moves on an event.
///
/// Running an entry script, a step that went as required moves to the next
/// one; once the script is through, the state's own input (if any) is fed
/// to the machine, else the controller waits for an input. A step that did
/// not go as required commands the contactor off and then feeds a hardware
/// fault. On `FailedStation` the contactor is commanded off and the
/// controller halts. Failures while commanding the contactor off are
/// passed over.
pub open spec fn step(v: ControllerView, ev: Event) -> ControllerView {
    match v.phase {
        Phase::Entering => if step_passes(v.script[v.pos], ev) {
            if v.pos + 1 == v.script.len() {
                match entry_input(v.state) {
                    Some(input) => fed(v.state, input),
                    None => awaiting(v.state),
                }
            } else {
                advanced(v, ev)
            }
        } else {
            ControllerView {
                state: v.state,
                phase: Phase::Recovering,
                script: contactor_steps(OnOff::Off),
                pos: 0,
                passed: Seq::empty(),
            }
        },
        Phase::Recovering => if v.pos + 1 == v.script.len() {
            fed(v.state, EVSEMachineInput::HardwareFault)
        } else {
            advanced(v, ev)
        },
        Phase::Stopping => if v.pos + 1 == v.script.len() {
            ControllerView { phase: Phase::Halted, script: Seq::empty(), pos: 0, passed: Seq::empty(), ..v }
        } else {
            advanced(v, ev)
        },
        Phase::Awaiting => match ev {
            Event::Input(input) => fed(v.state, input),
            _ => v,
        },
        Phase::Halted => v,
    }
}

/// Drives the station: it holds the state machine, asks the hardware side
/// for one action at a time and moves on the event that comes back.
pub struct Controller {
    machine: EVSEMachine,
    phase: Phase,
    script: Vec<Step>,
    pos: usize,
    passed: Ghost<Seq<Event>>,
}

impl View for Controller {
    type V = ControllerView;

    closed spec fn view(&self) -> ControllerView {
        ControllerView {
            state: self.machine@,
            phase: self.phase,
            script: self.script@,
            pos: self.pos as int,
            passed: self.passed@,
        }
    }
}

impl Controller {
    /// The controller's invariant holds.
    pub open spec fn wf(&self) -> bool {
        controller_wf(self@)
    }

    /// A controller at start: the machine in `SelfTest`, about to run the
    /// GFI self-test.
    pub fn new() -> (r: Self)
        ensures
            r.wf(),
            r@ == entered(EVSEMachineState::SelfTest),
    {
        let r = Controller {
            machine: EVSEMachine::new(),
            phase: Phase::Entering,
            script: entry_script(EVSEMachineState::SelfTest),
            pos: 0,
            passed: Ghost(Seq::empty()),
        };
        assert(r@.script.subrange(0, 0) =~= Seq::<Step>::empty());
        r
    }

    /// The current state of the machine.
    pub fn state(&self) -> (r: EVSEMachineState)
        ensures
            r == self@.state,
    {
        self.machine.state()
    }

    /// What the controller is doing.
    pub fn phase(&self) -> (r: Phase)
        ensures
            r == self@.phase,
    {
        self.phase
    }

    /// What the hardware side is to do next.
    pub fn next_action(&self) -> (r: Action)
        requires
            self.wf(),
        ensures
            r == action_of(self@),
    {
        match self.phase {
            Phase::Awaiting => Action::AwaitInput,
            Phase::Halted => Action::Halt,
            _ => match self.script[self.pos] {
                Step::Perform(op) => Action::Perform(op),
                Step::Expect(p, _) => Action::Read(p),
            },
        }
    }

    fn enter(&mut self)
        requires
            old(self).machine@ != EVSEMachineState::FailedStation ==> entry_steps(old(self).machine@).len() > 0,
        ensures
            final(self)@ == entered(old(self).machine@),
            final(self).machine == old(self).machine,
    {
        let state = self.machine.state();
        if state == EVSEMachineState::FailedStation {
            self.phase = Phase::Stopping;
            self.script = set_contactor(OnOff::Off);
        } else {
            self.phase = Phase::Entering;
            self.script = entry_script(state);
        }
        self.pos = 0;
        self.passed = Ghost(Seq::empty());
    }

    fn wait(&mut self)
        ensures
            final(self)@ == awaiting(old(self).machine@),
            final(self).machine == old(self).machine,
    {
        self.phase = Phase::Awaiting;
        self.script = Vec::new();
        self.pos = 0;
        self.passed = Ghost(Seq::empty());
    }

    fn feed(&mut self, input: EVSEMachineInput)
        ensures
            final(self)@ == fed(old(self).machine@, input),
    {
        proof {
            lemma_entry_steps_nonempty(old(self).machine@);
            if let Some((next, _)) = transition(old(self).machine@, input) {
                lemma_entry_steps_nonempty(next);
            }
        }
        match self.machine.consume(&input) {
            Ok(_) => self.enter(),
            Err(_) => self.wait(),
        }
    }

    /// Moves on the outcome of the last action.
    pub fn on_event(&mut self, ev: Event)
        requires
            old(self).wf(),
        ensures
            final(self).wf(),
            final(self)@ == step(old(self)@, ev),
    {
        let ghost v = self@;
        match self.phase {
            Phase::Entering => {
                let ok = match (self.script[self.pos], ev) {
                    (Step::Perform(_), Event::Done) => true,
                    (Step::Expect(_, want), Event::Read(got)) => want == got,
                    _ => false,
                };
                if ok {
                    if self.pos == self.script.len() - 1 {
                        match entry_input_of(self.machine.state()) {
                            Some(input) => self.feed(input),
                            None => self.wait(),
                        }
                    } else {
                        self.pos = self.pos + 1;
                        self.passed = Ghost(self.passed@.push(ev));
                        proof {
                            let s = v.script;
                            assert(s.subrange(0, v.pos + 1) =~= s.subrange(0, v.pos).push(s[v.pos]));
                        }
                    }
                } else {
                    self.phase = Phase::Recovering;
                    self.script = set_contactor(OnOff::Off);
                    self.pos = 0;
                    self.passed = Ghost(Seq::empty());
                }
            },
            Phase::Recovering => {
                if self.pos == self.script.len() - 1 {
                    self.feed(EVSEMachineInput::HardwareFault);
                } else {
                    self.pos = self.pos + 1;
                    self.passed = Ghost(self.passed@.push(ev));
                }
            },
            Phase::Stopping => {
                if self.pos == self.script.len() - 1 {
                    self.phase = Phase::Halted;
                    self.script = Vec::new();
                    self.pos = 0;
                    self.passed = Ghost(Seq::empty());
                } else {
                    self.pos = self.pos + 1;
                    self.passed = Ghost(self.passed@.push(ev));
                }
            },
            Phase::Awaiting => {
                if let Event::Input(input) = ev {
                    self.feed(input);
                }
            },
            Phase::Halted => {},
        }
        proof {
            lemma_step_keeps_wf(v, ev);
        }
    }
}

/// Every entry script has at least one step.
proof fn lemma_entry_steps_nonempty(s: EVSEMachineState)
    ensures
        entry_steps(s).len() > 0,
{
    lemma_self_test_shape();
}

/// The invariant holds on entering any state.
proof fn lemma_entered_wf(s: EVSEMachineState)
    ensures
        controller_wf(entered(s)),
{
    lemma_entry_steps_nonempty(s);
    assert(entered(s).script.subrange(0, 0) =~= Seq::<Step>::empty());
}

/// Each event keeps the controller's invariant.
pub proof fn lemma_step_keeps_wf(v: ControllerView, ev: Event)
    requires
        controller_wf(v),
    ensures
        controller_wf(step(v, ev)),
{
    if let Some((next, _)) = transition(v.state, EVSEMachineInput::HardwareFault) {
        lemma_entered_wf(next);
    }
    if let Some(input) = entry_input(v.state) {
        if let Some((next, _)) = transition(v.state, input) {
            lemma_entered_wf(next);
        }
    }
    if let Event::Input(input) = ev {
        if let Some((next, _)) = transition(v.state, input) {
            lemma_entered_wf(next);
        }
    }
    if v.phase is Entering && step_passes(v.script[v.pos], ev) && v.pos + 1 < v.script.len() {
        let s = v.script;
        assert(s.subrange(0, v.pos + 1) =~= s.subrange(0, v.pos).push(s[v.pos]));
        let w = step(v, ev);
        assert forall|i: int| 0 <= i < w.pos implies #[trigger] step_passes(
            w.script.subrange(0, w.pos)[i],
            w.passed[i],
        ) by {
            if i < v.pos {
                assert(step_passes(v.script.subrange(0, v.pos)[i], v.passed[i]));
            }
        }
    }
}

/// The controller commands the contactor On only in `StartCharging`, at the
/// step right after the whole GFI self-test has passed: GFI-status read low
/// before the synthetic-fault burst, high after it, and low after the reset.
pub proof fn lemma_contactor_on_needs_passed_self_test(v: ControllerView)
    requires
        controller_wf(v),
        action_of(v) == Action::Perform(HwOp::ContactorPin(OnOff::On)),
    ensures
        v.state == EVSEMachineState::StartCharging,
        v.phase is Entering,
        v.pos == contactor_on_index(),
        script_passes(self_test_steps(), v.passed.subrange(5, 62)),
        v.passed[12] == Event::Read(Level::Low),
        v.passed[53] == Event::Read(Level::High),
        v.passed[58] == Event::Read(Level::Low),
{
    if !(v.phase is Entering) {
        assert(v.script[v.pos] != Step::Perform(HwOp::ContactorPin(OnOff::On)));
    }
    lemma_contactor_on_only_after_self_test(v.state, v.pos);
    lemma_self_test_shape();
    let done = v.script.subrange(0, v.pos);
    let evs = v.passed.subrange(5, 62);
    assert forall|i: int| 0 <= i < self_test_steps().len() implies #[trigger] step_passes(
        self_test_steps()[i],
        evs[i],
    ) by {
        assert(step_passes(done[i + 5], v.passed[i + 5]));
        assert(self_test_steps()[i] == v.script.subrange(5, 62)[i]);
    }
    lemma_self_test_requires_gfi_readings(evs);
}

/// On entering `FailedStation`, the controller commands the contactor pin
/// off, then stops the watchdog, then halts, whatever the hardware reports.
pub proof fn lemma_failed_station_stops_contactor_and_watchdog(v: ControllerView, ev: Event, e1: Event, e2: Event)
    requires
        controller_wf(v),
        v.state != EVSEMachineState::FailedStation,
        step(v, ev).state == EVSEMachineState::FailedStation,
    ensures
        action_of(step(v, ev)) == Action::Perform(HwOp::ContactorPin(OnOff::Off)),
        action_of(step(step(v, ev), e1)) == Action::Perform(HwOp::StopWatchdog),
        action_of(step(step(step(v, ev), e1), e2)) == Action::Halt,
        step(step(step(v, ev), e1), e2).state == EVSEMachineState::FailedStation,
{
    lemma_step_keeps_wf(v, ev);
}

/// Any step of an entry script that does not pass fails the station: the
/// controller commands the contactor pin off and stops the watchdog,
/// whatever those report, then feeds a hardware fault, which every state
/// but `FailedStation` answers by entering `FailedStation`.
pub proof fn lemma_failed_step_fails_the_station(v: ControllerView, ev: Event, e1: Event, e2: Event)
    requires
        controller_wf(v),
        v.phase is Entering,
        !step_passes(v.script[v.pos], ev),
    ensures
        action_of(step(v, ev)) == Action::Perform(HwOp::ContactorPin(OnOff::Off)),
        action_of(step(step(v, ev), e1)) == Action::Perform(HwOp::StopWatchdog),
        step(step(step(v, ev), e1), e2) == entered(EVSEMachineState::FailedStation),
{
    crate::machine::lemma_faults_fail_the_station(v.state, EVSEMachineInput::HardwareFault);
}

/// The self-test at start lets the machine reach `Standby` only if every
/// step passed, in particular GFI-status read low before the burst, high
/// after it, and low after the reset; a step that does not pass leads the
/// controller to command the contactor off and feed a hardware fault, which
/// fails the station.
pub proof fn lemma_self_test_outcome(v: ControllerView, ev: Event, e1: Event, e2: Event)
    requires
        controller_wf(v),
        v.state == EVSEMachineState::SelfTest,
        v.phase is Entering,
    ensures
        step(v, ev).state == EVSEMachineState::Standby ==> {
            &&& script_passes(entry_steps(EVSEMachineState::SelfTest), v.passed.push(ev))
            &&& v.passed.push(ev)[8] == Event::Read(Level::Low)
            &&& v.passed.push(ev)[49] == Event::Read(Level::High)
            &&& v.passed.push(ev)[54] == Event::Read(Level::Low)
        },
        !step_passes(v.script[v.pos], ev) ==> {
            &&& step(v, ev).phase is Recovering
            &&& step(step(step(v, ev), e1), e2).state == EVSEMachineState::FailedStation
        },
{
    lemma_self_test_shape();
    let evs = v.passed.push(ev);
    let e = entry_steps(EVSEMachineState::SelfTest);
    if step(v, ev).state == EVSEMachineState::Standby {
        assert(step_passes(v.script[v.pos], ev));
        assert(v.pos + 1 == v.script.len());
        assert forall|i: int| 0 <= i < e.len() implies #[trigger] step_passes(e[i], evs[i]) by {
            if i < v.pos {
                assert(step_passes(v.script.subrange(0, v.pos)[i], v.passed[i]));
            }
        }
        let t = evs.subrange(1, 58);
        assert forall|i: int| 0 <= i < self_test_steps().len() implies #[trigger] step_passes(
            self_test_steps()[i],
            t[i],
        ) by {
            assert(step_passes(e[i + 1], evs[i + 1]));
            assert(self_test_steps()[i] == e[i + 1]);
        }
        lemma_self_test_requires_gfi_readings(t);
    }
}

} // verus!
