use vstd::prelude::*;

verus! {

/// Where the stream pump stands.
#[derive(Debug, Clone, Copy, PartialEq, Eq, Structural)]
pub enum PumpState {
    /// Waiting for the next raw unit from the transport.
    AwaitingPacket,
    /// Driving the decoder through to the next tick boundary.
    Parsing,
    /// The transport ran out of data; the end marker was sent.
    Ended,
    /// Decoding failed in a way that ends the stream.
    Errored,
    /// The consumer closed the sink.
    Cancelled,
}

/// What a fetch of the next raw unit gave.
#[derive(Debug, Clone, Copy, PartialEq, Eq, Structural)]
pub enum FetchOutcome {
    Packet,
    TransientError,
    EndOfStream,
}

/// What the pump observed.
#[derive(Debug, Clone, Copy, PartialEq, Eq, Structural)]
pub enum PumpInput {
    /// The start of an iteration, with whether the sink is closed.
    IterationStart { sink_closed: bool },
    /// The result of fetching the next raw unit.
    Fetched(FetchOutcome),
    /// The result of parsing through to the next tick boundary.
    Parsed { ok: bool },
}

/// What the pump does next.
#[derive(Debug, Clone, Copy, PartialEq, Eq, Structural)]
pub enum PumpAction {
    /// Ask the transport for the next raw unit.
    RequestPacket,
    /// Run the decoder through to the next tick boundary.
    RunToTickEnd,
    /// Begin the next iteration.
    NextIteration,
    /// Push the end marker to the sink, then stop.
    PushEnd,
    /// Stop without touching the decoder again.
    Halt,
}

/// The action asks the decoder or its transport for work.
pub open spec fn uses_decoder(a: PumpAction) -> bool {
    a == PumpAction::RequestPacket || a == PumpAction::RunToTickEnd
}

/// The pump has stopped for good.
pub open spec fn is_terminal(s: PumpState) -> bool {
    s == PumpState::Ended || s == PumpState::Errored || s == PumpState::Cancelled
}

/// One transition of the pump.
pub open spec fn pump_step_spec(s: PumpState, input: PumpInput) -> (PumpState, PumpAction) {
    if is_terminal(s) {
        (s, PumpAction::Halt)
    } else {
        match input {
            PumpInput::IterationStart { sink_closed } => if sink_closed {
                (PumpState::Cancelled, PumpAction::Halt)
            } else {
                (PumpState::AwaitingPacket, PumpAction::RequestPacket)
            },
            PumpInput::Fetched(o) => if s == PumpState::AwaitingPacket {
                match o {
                    FetchOutcome::Packet => (PumpState::Parsing, PumpAction::RunToTickEnd),
                    FetchOutcome::TransientError => (
                        PumpState::AwaitingPacket,
                        PumpAction::NextIteration,
                    ),
                    FetchOutcome::EndOfStream => (PumpState::Ended, PumpAction::PushEnd),
                }
            } else {
                (s, PumpAction::NextIteration)
            },
            PumpInput::Parsed { ok } => if s == PumpState::Parsing {
                if ok {
                    (PumpState::AwaitingPacket, PumpAction::NextIteration)
                } else {
                    (PumpState::Errored, PumpAction::Halt)
                }
            } else {
                (s, PumpAction::NextIteration)
            },
        }
    }
}

/// Advances the pump on one observation. A closed sink, seen at the start of
/// an iteration, cancels the pump before any further decoder work; a fetch
/// error is tolerated, a parse error ends the stream, and the end of the
/// transport sends the end marker.
pub fn pump_step(s: PumpState, input: PumpInput) -> (r: (PumpState, PumpAction))
    ensures
        r == pump_step_spec(s, input),
{
    if s == PumpState::Ended || s == PumpState::Errored || s == PumpState::Cancelled {
        return (s, PumpAction::Halt);
    }
    match input {
        PumpInput::IterationStart { sink_closed } => {
            if sink_closed {
                (PumpState::Cancelled, PumpAction::Halt)
            } else {
                (PumpState::AwaitingPacket, PumpAction::RequestPacket)
            }
        },
        PumpInput::Fetched(o) => {
            if s == PumpState::AwaitingPacket {
                match o {
                    FetchOutcome::Packet => (PumpState::Parsing, PumpAction::RunToTickEnd),
                    FetchOutcome::TransientError => (PumpState::AwaitingPacket, PumpAction::NextIteration),
                    FetchOutcome::EndOfStream => (PumpState::Ended, PumpAction::PushEnd),
                }
            } else {
                (s, PumpAction::NextIteration)
            }
        },
        PumpInput::Parsed { ok } => {
            if s == PumpState::Parsing {
                if ok {
                    (PumpState::AwaitingPacket, PumpAction::NextIteration)
                } else {
                    (PumpState::Errored, PumpAction::Halt)
                }
            } else {
                (s, PumpAction::NextIteration)
            }
        },
    }
}

/// The actions the pump takes from state `s` on the observations `inputs`.
pub open spec fn run_actions(s: PumpState, inputs: Seq<PumpInput>) -> Seq<PumpAction>
    decreases inputs.len(),
{
    if inputs.len() == 0 {
        Seq::empty()
    } else {
        let (next, a) = pump_step_spec(s, inputs[0]);
        seq![a] + run_actions(next, inputs.drop_first())
    }
}

proof fn lemma_terminal_stays_halted(s: PumpState, inputs: Seq<PumpInput>)
    requires
        is_terminal(s),
    ensures
        forall|i: int| 0 <= i < inputs.len() ==> run_actions(s, inputs)[i] == PumpAction::Halt,
        run_actions(s, inputs).len() == inputs.len(),
    decreases inputs.len(),
{
    if inputs.len() > 0 {
        lemma_terminal_stays_halted(s, inputs.drop_first());
        let rest = run_actions(s, inputs.drop_first());
        assert(run_actions(s, inputs) == seq![PumpAction::Halt] + rest);
        assert forall|i: int| 0 <= i < inputs.len() implies run_actions(s, inputs)[i]
            == PumpAction::Halt by {
            if i > 0 {
                assert(run_actions(s, inputs)[i] == rest[i - 1]);
            }
        }
    }
}

/// Once the pump has seen the sink closed at the start of an iteration, it
/// halts, and whatever it observes afterwards it asks nothing more of the
/// decoder or its transport.
pub proof fn lemma_closed_sink_stops_pump(s: PumpState, later: Seq<PumpInput>)
    ensures
        !uses_decoder(pump_step_spec(s, PumpInput::IterationStart { sink_closed: true }).1),
        is_terminal(pump_step_spec(s, PumpInput::IterationStart { sink_closed: true }).0),
        forall|i: int|
            0 <= i < later.len() ==> !uses_decoder(
                #[trigger] run_actions(
                    pump_step_spec(s, PumpInput::IterationStart { sink_closed: true }).0,
                    later,
                )[i],
            ),
{
    let next = pump_step_spec(s, PumpInput::IterationStart { sink_closed: true }).0;
    lemma_terminal_stays_halted(next, later);
}

} // verus!
