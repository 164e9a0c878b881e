//! The vending machine domain: a two-phase machine that accepts a coin and
//! then releases a candy, plugged into the generic interaction loop.

use vstd::prelude::*;
use crate::application::{run_events, run_steps, Application, Control, StateMachine};

verus! {

/// The vending machine's state. `locked` is set between accepting a coin and
/// releasing the candy it paid for; `candies` only ever decreases and `coins`
/// only ever grows.
#[derive(Clone, Copy, PartialEq, Eq, Structural, Debug)]
pub struct CandyMachineState {
    pub locked: bool,
    pub candies: usize,
    pub coins: usize,
}

impl CandyMachineState {
    /// States the machine keeps itself in: while locked a candy is owed, and
    /// the running totals stay clear of the machine-word limit, so accepting
    /// a coin can never overflow `coins`.
    pub open spec fn wf(self) -> bool {
        &&& self.locked ==> self.candies >= 1
        &&& self.coins + self.candies + (if self.locked { 0int } else { 1int }) <= usize::MAX
    }

    /// Checks validity at run time, for callers outside the proof's reach.
    pub fn is_valid(&self) -> (b: bool)
        ensures
            b == self.wf(),
    {
        let slack: u128 = if self.locked {
            0
        } else {
            1
        };
        (!self.locked || self.candies >= 1) && (self.coins as u128) + (self.candies as u128)
            + slack <= usize::MAX as u128
    }
}

/// A decoded vending machine command.
#[derive(Clone, Copy, PartialEq, Eq, Structural, Debug)]
pub enum CandyMachineInput {
    Coin,
    Turn,
    Exit,
    Unknown,
}

/// The outcome of applying one input to the machine.
#[derive(Clone, Copy, PartialEq, Eq, Structural, Debug)]
pub enum CandyMachineEvent {
    CandyReleased,
    CoinReceived,
    Exited,
    InputIgnored,
}

/// What one character of raw input means: `c` inserts a coin, `t` turns the
/// crank, `x` exits, anything else is unrecognized.
pub open spec fn to_input_spec(c: char) -> CandyMachineInput {
    if c == 'c' {
        CandyMachineInput::Coin
    } else if c == 't' {
        CandyMachineInput::Turn
    } else if c == 'x' {
        CandyMachineInput::Exit
    } else {
        CandyMachineInput::Unknown
    }
}

/// Decodes one character of raw input; total, so decoding never fails.
pub fn to_input(c: char) -> (input: CandyMachineInput)
    ensures
        input == to_input_spec(c),
{
    match c {
        'c' => CandyMachineInput::Coin,
        't' => CandyMachineInput::Turn,
        'x' => CandyMachineInput::Exit,
        _ => CandyMachineInput::Unknown,
    }
}

/// The machine's transition function: a coin is accepted only while unlocked
/// with candies left, the crank turns only while locked with coins taken,
/// `Exit` changes nothing, and everything else is ignored.
pub open spec fn update_spec(s: CandyMachineState, input: CandyMachineInput) -> (
    CandyMachineState,
    CandyMachineEvent,
) {
    match input {
        CandyMachineInput::Coin => if s.candies > 0 && !s.locked {
            (
                CandyMachineState { locked: true, coins: (s.coins + 1) as usize, ..s },
                CandyMachineEvent::CoinReceived,
            )
        } else {
            (s, CandyMachineEvent::InputIgnored)
        },
        CandyMachineInput::Turn => if s.coins > 0 && s.locked {
            (
                CandyMachineState { locked: false, candies: (s.candies - 1) as usize, ..s },
                CandyMachineEvent::CandyReleased,
            )
        } else {
            (s, CandyMachineEvent::InputIgnored)
        },
        CandyMachineInput::Exit => (s, CandyMachineEvent::Exited),
        CandyMachineInput::Unknown => (s, CandyMachineEvent::InputIgnored),
    }
}

/// Applies one input to the machine in place and reports the outcome; total
/// over all valid states and inputs, and never leaves a partial mutation.
pub fn update(state: &mut CandyMachineState, input: CandyMachineInput) -> (event: CandyMachineEvent)
    requires
        old(state).wf(),
    ensures
        *final(state) == update_spec(*old(state), input).0,
        event == update_spec(*old(state), input).1,
        final(state).wf(),
{
    match input {
        CandyMachineInput::Coin => {
            if state.candies > 0 && !state.locked {
                state.coins = state.coins + 1;
                state.locked = true;
                CandyMachineEvent::CoinReceived
            } else {
                CandyMachineEvent::InputIgnored
            }
        },
        CandyMachineInput::Turn => {
            if state.coins > 0 && state.locked {
                state.candies = state.candies - 1;
                state.locked = false;
                CandyMachineEvent::CandyReleased
            } else {
                CandyMachineEvent::InputIgnored
            }
        },
        CandyMachineInput::Exit => CandyMachineEvent::Exited,
        CandyMachineInput::Unknown => CandyMachineEvent::InputIgnored,
    }
}

/// Which events end the loop: only `Exited`, with a status of its own.
pub open spec fn process_event_spec(event: CandyMachineEvent) -> Control {
    if event == CandyMachineEvent::Exited {
        Control::Stop(0x0100)
    } else {
        Control::Continue
    }
}

/// Decides, from the event of a cycle, whether the loop goes on.
pub fn process_event(event: &CandyMachineEvent) -> (c: Control)
    ensures
        c == process_event_spec(*event),
{
    match event {
        CandyMachineEvent::Exited => Control::Stop(0x0100),
        _ => Control::Continue,
    }
}

/// Extension point for propagating a freshly updated state; nothing listens
/// to it yet.
#[allow(unused_variables)]
pub fn publish(state: &CandyMachineState) {
}

/// The vending machine as a pluggable domain of the interaction loop.
pub struct CandyMachine;

impl StateMachine for CandyMachine {
    type Interaction = char;

    type Input = CandyMachineInput;

    type State = CandyMachineState;

    type Event = CandyMachineEvent;

    open spec fn wf(s: CandyMachineState) -> bool {
        s.wf()
    }

    open spec fn decode_spec(i: char) -> CandyMachineInput {
        to_input_spec(i)
    }

    open spec fn evolve_spec(s: CandyMachineState, i: CandyMachineInput) -> (
        CandyMachineState,
        CandyMachineEvent,
    ) {
        update_spec(s, i)
    }

    open spec fn handle_spec(e: CandyMachineEvent) -> Control {
        process_event_spec(e)
    }

    fn decode(i: char) -> CandyMachineInput {
        to_input(i)
    }

    fn evolve(s: &mut CandyMachineState, i: CandyMachineInput) -> CandyMachineEvent {
        update(s, i)
    }

    fn handle(e: &CandyMachineEvent) -> Control {
        process_event(e)
    }

    fn publish(s: &CandyMachineState) {
        publish(s)
    }
}

/// Law: every input applied to a valid state leaves the machine in a valid
/// state; together with `update` never requiring more than validity, the
/// transition function is total and panic-free.
pub proof fn lemma_update_preserves_wf(s: CandyMachineState, input: CandyMachineInput)
    requires
        s.wf(),
    ensures
        update_spec(s, input).0.wf(),
{
}

/// Law: inserting a coin while the machine is already locked leaves
/// `(locked, candies, coins)` unchanged and yields `InputIgnored`.
pub proof fn lemma_coin_ignored_when_locked(s: CandyMachineState)
    requires
        s.locked,
    ensures
        update_spec(s, CandyMachineInput::Coin).0 == s,
        update_spec(s, CandyMachineInput::Coin).1 == CandyMachineEvent::InputIgnored,
{
}

/// How many entries of `events` are the event `e`.
pub open spec fn count_event(events: Seq<CandyMachineEvent>, e: CandyMachineEvent) -> nat
    decreases events.len(),
{
    if events.len() == 0 {
        0
    } else {
        (if events[0] == e {
            1nat
        } else {
            0
        }) + count_event(events.drop_first(), e)
    }
}

/// Law of conservation: over any input sequence from a valid state, candies
/// never increase, and they fall by exactly one per `CandyReleased` event
/// while coins rise by exactly one per `CoinReceived` event.
pub proof fn lemma_conservation(s: CandyMachineState, inputs: Seq<CandyMachineInput>)
    requires
        s.wf(),
    ensures
        run_steps::<CandyMachine>(s, inputs).candies == s.candies - count_event(
            run_events::<CandyMachine>(s, inputs),
            CandyMachineEvent::CandyReleased,
        ),
        run_steps::<CandyMachine>(s, inputs).coins == s.coins + count_event(
            run_events::<CandyMachine>(s, inputs),
            CandyMachineEvent::CoinReceived,
        ),
        run_steps::<CandyMachine>(s, inputs).candies <= s.candies,
    decreases inputs.len(),
{
    if inputs.len() > 0 {
        let s1 = update_spec(s, inputs[0]).0;
        let e0 = update_spec(s, inputs[0]).1;
        lemma_update_preserves_wf(s, inputs[0]);
        lemma_conservation(s1, inputs.drop_first());
        let events = run_events::<CandyMachine>(s, inputs);
        assert(events == seq![e0] + run_events::<CandyMachine>(s1, inputs.drop_first()));
        assert(events[0] == e0);
        assert(events.drop_first() =~= run_events::<CandyMachine>(s1, inputs.drop_first()));
    }
}

impl CandyMachine {
    /// A fresh machine bound to the loop: unlocked, ten candies, no coins.
    pub fn new() -> (app: Application<CandyMachine>)
        ensures
            app.state == (CandyMachineState { locked: false, candies: 10, coins: 0 }),
            app.state.wf(),
    {
        Application { state: CandyMachineState { locked: false, candies: 10, coins: 0 } }
    }
}

} // verus!

