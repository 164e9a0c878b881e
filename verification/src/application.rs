//! The generic transition engine: it owns one mutable domain state and drives
//! the cycle decode -> evolve -> publish -> handle, independent of what the
//! domain's state, input and event types concretely are.

use vstd::prelude::*;

verus! {

/// What the event handler decides after each cycle: keep looping, or stop the
/// interaction loop with the given process status.
#[derive(Clone, Copy, PartialEq, Eq, Structural, Debug)]
pub enum Control {
    Continue,
    Stop(u32),
}

/// A domain state machine plugged into the interaction loop. The spec
/// functions are the mathematical transition system; each executable slot is
/// proved to compute exactly what its spec function says.
pub trait StateMachine: Sized {
    /// Raw value obtained from the external input channel.
    type Interaction;

    /// Domain-meaningful decoded command.
    type Input;

    /// The single mutable domain state.
    type State;

    /// Outcome of applying an input to the state.
    type Event;

    /// Which states the machine keeps itself in.
    spec fn wf(s: Self::State) -> bool;

    /// What decoding an interaction yields; total, so decoding never fails.
    spec fn decode_spec(i: Self::Interaction) -> Self::Input;

    /// The transition function: the next state and the emitted event.
    spec fn evolve_spec(s: Self::State, i: Self::Input) -> (Self::State, Self::Event);

    /// Which events end the loop, and with what status.
    spec fn handle_spec(e: Self::Event) -> Control;

    fn decode(i: Self::Interaction) -> (input: Self::Input)
        ensures
            input == Self::decode_spec(i),
    ;

    fn evolve(s: &mut Self::State, i: Self::Input) -> (event: Self::Event)
        requires
            Self::wf(*old(s)),
        ensures
            *final(s) == Self::evolve_spec(*old(s), i).0,
            event == Self::evolve_spec(*old(s), i).1,
            Self::wf(*final(s)),
    ;

    fn handle(e: &Self::Event) -> (c: Control)
        ensures
            c == Self::handle_spec(*e),
    ;

    /// Extension point for propagating a freshly updated state.
    fn publish(s: &Self::State);
}

/// The state reached from `s` by evolving once per input of `inputs`, in order.
pub open spec fn run_steps<M: StateMachine>(s: M::State, inputs: Seq<M::Input>) -> M::State
    decreases inputs.len(),
{
    if inputs.len() == 0 {
        s
    } else {
        run_steps::<M>(M::evolve_spec(s, inputs[0]).0, inputs.drop_first())
    }
}

/// The events emitted while evolving from `s` once per input of `inputs`.
pub open spec fn run_events<M: StateMachine>(s: M::State, inputs: Seq<M::Input>) -> Seq<M::Event>
    decreases inputs.len(),
{
    if inputs.len() == 0 {
        Seq::empty()
    } else {
        seq![M::evolve_spec(s, inputs[0]).1] + run_events::<M>(
            M::evolve_spec(s, inputs[0]).0,
            inputs.drop_first(),
        )
    }
}

/// The inputs that a sequence of raw interactions decodes to.
pub open spec fn decoded<M: StateMachine>(interactions: Seq<M::Interaction>) -> Seq<M::Input> {
    interactions.map(|k: int, i: M::Interaction| M::decode_spec(i))
}

/// Evolving along `inputs` and then once more by `i` is the same as evolving
/// along `inputs.push(i)`.
pub proof fn lemma_run_steps_push<M: StateMachine>(s: M::State, inputs: Seq<M::Input>, i: M::Input)
    ensures
        run_steps::<M>(s, inputs.push(i)) == M::evolve_spec(run_steps::<M>(s, inputs), i).0,
    decreases inputs.len(),
{
    let stepped = inputs.push(i);
    assert(stepped.len() == inputs.len() + 1);
    if inputs.len() == 0 {
        assert(stepped[0] == i);
        assert(stepped.drop_first() =~= Seq::<M::Input>::empty());
        assert(run_steps::<M>(s, stepped) == run_steps::<M>(
            M::evolve_spec(s, i).0,
            Seq::<M::Input>::empty(),
        ));
        assert(run_steps::<M>(M::evolve_spec(s, i).0, Seq::<M::Input>::empty())
            == M::evolve_spec(s, i).0);
        assert(run_steps::<M>(s, inputs) == s);
    } else {
        assert(stepped[0] == inputs[0]);
        assert(stepped.drop_first() =~= inputs.drop_first().push(i));
        assert(run_steps::<M>(s, stepped) == run_steps::<M>(
            M::evolve_spec(s, inputs[0]).0,
            inputs.drop_first().push(i),
        ));
        lemma_run_steps_push::<M>(M::evolve_spec(s, inputs[0]).0, inputs.drop_first(), i);
        assert(run_steps::<M>(s, inputs) == run_steps::<M>(
            M::evolve_spec(s, inputs[0]).0,
            inputs.drop_first(),
        ));
    }
}

/// One event is emitted per input consumed.
pub proof fn lemma_run_events_len<M: StateMachine>(s: M::State, inputs: Seq<M::Input>)
    ensures
        run_events::<M>(s, inputs).len() == inputs.len(),
    decreases inputs.len(),
{
    if inputs.len() > 0 {
        lemma_run_events_len::<M>(M::evolve_spec(s, inputs[0]).0, inputs.drop_first());
    }
}

/// The events of `inputs.push(i)` are the events of `inputs` followed by the
/// event of evolving the reached state once more by `i`.
pub proof fn lemma_run_events_push<M: StateMachine>(
    s: M::State,
    inputs: Seq<M::Input>,
    i: M::Input,
)
    ensures
        run_events::<M>(s, inputs.push(i)) =~= run_events::<M>(s, inputs).push(
            M::evolve_spec(run_steps::<M>(s, inputs), i).1,
        ),
    decreases inputs.len(),
{
    let stepped = inputs.push(i);
    lemma_run_events_len::<M>(s, inputs);
    lemma_run_events_len::<M>(s, stepped);
    if inputs.len() == 0 {
        assert(stepped[0] == i);
        assert(stepped.drop_first() =~= Seq::<M::Input>::empty());
        assert(run_steps::<M>(s, inputs) == s);
        assert(run_events::<M>(s, inputs) =~= Seq::<M::Event>::empty());
        assert(run_events::<M>(s, stepped) == seq![M::evolve_spec(s, i).1] + run_events::<M>(
            M::evolve_spec(s, i).0,
            Seq::<M::Input>::empty(),
        ));
        assert(run_events::<M>(M::evolve_spec(s, i).0, Seq::<M::Input>::empty())
            =~= Seq::<M::Event>::empty());
    } else {
        let s1 = M::evolve_spec(s, inputs[0]).0;
        let e0 = M::evolve_spec(s, inputs[0]).1;
        assert(stepped[0] == inputs[0]);
        assert(stepped.drop_first() =~= inputs.drop_first().push(i));
        lemma_run_events_push::<M>(s1, inputs.drop_first(), i);
        lemma_run_events_len::<M>(s1, inputs.drop_first());
        assert(run_events::<M>(s, stepped) == seq![e0] + run_events::<M>(
            s1,
            inputs.drop_first().push(i),
        ));
        assert(run_events::<M>(s, inputs) == seq![e0] + run_events::<M>(s1, inputs.drop_first()));
        assert(run_steps::<M>(s, inputs) == run_steps::<M>(s1, inputs.drop_first()));
        assert(seq![e0] + run_events::<M>(s1, inputs.drop_first()).push(
            M::evolve_spec(run_steps::<M>(s1, inputs.drop_first()), i).1,
        ) =~= (seq![e0] + run_events::<M>(s1, inputs.drop_first())).push(
            M::evolve_spec(run_steps::<M>(s1, inputs.drop_first()), i).1,
        ));
    }
}

/// The interaction loop engine, owning the one state instance of a run.
pub struct Application<M: StateMachine> {
    pub state: M::State,
}

impl<M: StateMachine> Application<M> {
    /// One cycle of the loop, minus the I/O: decode the interaction, evolve
    /// the state, publish it, and let the event handler decide whether the
    /// loop goes on.
    pub fn step(&mut self, interaction: M::Interaction) -> (r: (M::Event, Control))
        requires
            M::wf(old(self).state),
        ensures
            final(self).state == M::evolve_spec(old(self).state, M::decode_spec(interaction)).0,
            r.0 == M::evolve_spec(old(self).state, M::decode_spec(interaction)).1,
            r.1 == M::handle_spec(r.0),
            M::wf(final(self).state),
    {
        let input = M::decode(interaction);
        let event = M::evolve(&mut self.state, input);
        M::publish(&self.state);
        let control = M::handle(&event);
        (event, control)
    }

    /// A run of the interaction loop over interactions already listened for:
    /// each is decoded, evolves the state, is published and handled in turn,
    /// and the run stops early the moment the event handler decides to.
    /// Returns the stop status, if any cycle reached one, and how many
    /// interactions were consumed. The unbounded loop around the blocking
    /// listener is the caller's; each of its cycles is one `step`.
    pub fn run(&mut self, interactions: &Vec<M::Interaction>) -> (r: (Option<u32>, usize)) where
        M::Interaction: Copy,

        requires
            M::wf(old(self).state),
        ensures
            M::wf(final(self).state),
            r.1 <= interactions@.len(),
            ({
                let inputs = decoded::<M>(interactions@.subrange(0, r.1 as int));
                let events = run_events::<M>(old(self).state, inputs);
                &&& final(self).state == run_steps::<M>(old(self).state, inputs)
                &&& (r.0 is None ==> r.1 == interactions@.len())
                &&& (r.0 matches Some(code) ==> r.1 >= 1 && M::handle_spec(events[r.1 - 1])
                    == Control::Stop(code))
                &&& forall|k: int|
                    0 <= k < r.1 - 1 ==> M::handle_spec(#[trigger] events[k]) == Control::Continue
                &&& (r.0 is None ==> forall|k: int|
                    0 <= k < r.1 ==> M::handle_spec(#[trigger] events[k]) == Control::Continue)
            }),
    {
        let ghost s0 = self.state;
        let ghost mut trace: Seq<M::Input> = Seq::empty();
        let mut idx: usize = 0;
        while idx < interactions.len()
            invariant
                idx <= interactions@.len(),
                M::wf(self.state),
                trace =~= decoded::<M>(interactions@.subrange(0, idx as int)),
                self.state == run_steps::<M>(s0, trace),
                s0 == old(self).state,
                forall|k: int|
                    0 <= k < trace.len() ==> M::handle_spec(
                        #[trigger] run_events::<M>(s0, trace)[k],
                    ) == Control::Continue,
            decreases interactions@.len() - idx,
        {
            let interaction = interactions[idx];
            let ghost input_spec = M::decode_spec(interaction);
            let ghost prev_trace = trace;
            let ghost prev_state = self.state;
            proof {
                lemma_run_steps_push::<M>(s0, prev_trace, input_spec);
                lemma_run_events_push::<M>(s0, prev_trace, input_spec);
                lemma_run_events_len::<M>(s0, prev_trace);
                trace = trace.push(input_spec);
                lemma_run_events_len::<M>(s0, trace);
                assert(interactions@.subrange(0, idx + 1) =~= interactions@.subrange(
                    0,
                    idx as int,
                ).push(interactions@[idx as int]));
                assert(trace =~= decoded::<M>(interactions@.subrange(0, idx + 1)));
            }
            let (event, control) = self.step(interaction);
            idx = idx + 1;
            proof {
                assert(event == M::evolve_spec(prev_state, input_spec).1);
                assert(prev_state == run_steps::<M>(s0, prev_trace));
                assert(run_events::<M>(s0, trace) =~= run_events::<M>(s0, prev_trace).push(event));
                assert(run_events::<M>(s0, trace)[trace.len() - 1] == event);
                assert forall|k: int| 0 <= k < trace.len() - 1 implies M::handle_spec(
                    #[trigger] run_events::<M>(s0, trace)[k],
                ) == Control::Continue by {
                    assert(run_events::<M>(s0, trace)[k] == run_events::<M>(s0, prev_trace)[k]);
                }
            }
            match control {
                Control::Continue => {},
                Control::Stop(code) => {
                    return (Some(code), idx);
                },
            }
        }
        (None, idx)
    }
}

} // verus!
