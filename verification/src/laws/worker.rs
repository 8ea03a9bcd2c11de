//! The toggling worker and the messages: how the worker alternates, when it
//! ends, and what the end of the stream does.

use crate::model::BinModel;
use crate::protocol::{
    BusMessage, GraphOp, OpOutcome, Phase, RelayAction, StateChange, Step,
};
use crate::render::{GstUnifiedSinkRenderType, DEFAULT_RENDER_TYPE};
use crate::sink::NodeModel;
use crate::toggler::{Toggler, TogglerPhase, TogglerStep, SINK_SWITCH_INTERVAL};
use vstd::prelude::*;

verus! {

/// After any number of undisturbed rounds the worker is awake again, and
/// it has turned to the other kind once in each round.
proof fn lemma_toggler_rounds(toggler: Toggler, rounds: nat)
    requires
        toggler.phase == TogglerPhase::Awake,
    ensures
        toggler.spec_after_rounds(rounds).phase == TogglerPhase::Awake,
        toggler.spec_after_rounds(rounds).switch_sink == (if rounds % 2 == 0 {
            toggler.switch_sink
        } else {
            !toggler.switch_sink
        }),
    decreases rounds,
{
    if rounds > 0 {
        lemma_toggler_rounds(
            toggler.spec_poll(false).0.spec_poll(false).0,
            (rounds - 1) as nat,
        );
    }
}

/// Undisturbed, the worker sleeps for the fixed interval and then requests
/// a kind, round after round, and the kinds alternate: a worker that is
/// awake asks after an even number of rounds for the kind it would ask for
/// now, and after an odd number for the other one.
pub proof fn lemma_toggler_alternates(toggler: Toggler, rounds: nat)
    requires
        toggler.phase == TogglerPhase::Awake,
    ensures
        toggler.spec_poll(false) == (
            Toggler { phase: TogglerPhase::Rested, ..toggler },
            TogglerStep::Sleep(SINK_SWITCH_INTERVAL),
        ),
        toggler.spec_poll(false).0.spec_poll(false) == (
            Toggler { switch_sink: !toggler.switch_sink, phase: TogglerPhase::Awake },
            TogglerStep::Reconfigure(toggler.spec_next_kind()),
        ),
        toggler.spec_after_rounds(rounds).phase == TogglerPhase::Awake,
        toggler.spec_after_rounds(rounds).spec_next_kind() == (if rounds % 2 == 0 {
            toggler.spec_next_kind()
        } else {
            Toggler { switch_sink: !toggler.switch_sink, ..toggler }.spec_next_kind()
        }),
        toggler.spec_after_rounds(rounds + 1).spec_next_kind() != toggler.spec_after_rounds(
            rounds,
        ).spec_next_kind(),
{
    lemma_toggler_rounds(toggler, rounds);
    lemma_toggler_rounds(toggler, rounds + 1);
}

/// A worker that has just started asks for the file capture first, and for
/// the default kind and the file capture in turn from then on.
pub proof fn lemma_toggler_starts_with_capture(rounds: nat)
    ensures
        Toggler::spec_new().spec_after_rounds(rounds).spec_next_kind() == (if rounds % 2 == 0 {
            GstUnifiedSinkRenderType::GstUnifiedsinkRenderTypeFile
        } else {
            DEFAULT_RENDER_TYPE
        }),
{
    lemma_toggler_alternates(Toggler::spec_new(), rounds);
}

/// The worker ends at the first turn at which it is told to halt, before
/// or after a sleep, and from then on it stays ended whatever it is told:
/// it makes no request after it has ended.
pub proof fn lemma_toggler_stops(toggler: Toggler, halts: Seq<bool>, halted: bool)
    ensures
        toggler.spec_poll(true).1 == TogglerStep::Exit,
        toggler.spec_poll(true).0.phase == TogglerPhase::Ended,
        toggler.phase == TogglerPhase::Ended ==> toggler.spec_poll(halted) == (
            toggler,
            TogglerStep::Exit,
        ),
        toggler.phase == TogglerPhase::Ended ==> toggler.spec_poll_all(halts) == toggler,
    decreases halts.len(),
{
    if toggler.phase == TogglerPhase::Ended && halts.len() > 0 {
        lemma_toggler_stops(toggler, halts.drop_first(), halted);
    }
}

/// The end of the stream is always handed on, whether the toggling test
/// keeps other messages back or not, and it always ends the worker at its
/// next turn.
pub proof fn lemma_stream_end_halts_and_propagates(bin: BinModel, toggler: Toggler)
    ensures
        bin.handle_message(BusMessage::StreamEnd).1 == RelayAction::Forward,
        bin.handle_message(BusMessage::StreamEnd).0.toggler_halted(),
        toggler.spec_poll(bin.handle_message(BusMessage::StreamEnd).0.toggler_halted()).1
            == TogglerStep::Exit,
{
}

/// Once the end of the stream has been seen, nothing that the controller
/// does forgets it: every later turn of the worker ends it.
pub proof fn lemma_stream_end_is_kept(
    bin: BinModel,
    node: NodeModel,
    transition: StateChange,
    outcome: OpOutcome,
    message: BusMessage,
    enabled: bool,
    raw: u32,
)
    requires
        bin.test_thread_eos,
    ensures
        bin.reconfigure(node).0.toggler_halted(),
        bin.change_state(transition).0.toggler_halted(),
        bin.resume(outcome).0.toggler_halted(),
        bin.handle_message(message).0.toggler_halted(),
        bin.set_test_switch_sink(enabled).toggler_halted(),
        bin.set_output_value(raw).toggler_halted(),
        bin.disposed().toggler_halted(),
{
}

/// Leaving `Playing` while the worker runs tells the worker to end before
/// the host waits for it, and the worker is recorded as running until the
/// host reports that the wait is over.
pub proof fn lemma_leaving_playing_ends_worker(bin: BinModel, toggler: Toggler, outcome: OpOutcome)
    requires
        bin.phase == Phase::Idle,
        bin.test_thread_start,
    ensures
        ({
            let start = bin.change_state(StateChange::PlayingToPaused);
            &&& start.1 == Step::Perform(GraphOp::JoinToggler)
            &&& start.0.toggler_halted()
            &&& start.0.test_thread_start
            &&& toggler.spec_poll(start.0.toggler_halted()).1 == TogglerStep::Exit
            &&& start.0.resume(outcome) == (BinModel { test_thread_start: false, ..bin }, Step::Done)
        }),
{
}

/// Messages other than the end of the stream and the progress reports of
/// the valve are handed on exactly while the toggling test is off; the
/// progress reports go to the reporter that is configured, whatever kind of
/// terminal stage is current and whether the test is on or off.
pub proof fn lemma_relay_routes(bin: BinModel)
    ensures
        bin.handle_message(BusMessage::Other).1 == (if bin.test_switch_sink_enable {
            RelayAction::Suppress
        } else {
            RelayAction::Forward
        }),
        bin.handle_message(BusMessage::GateProgress) == (bin, RelayAction::Report(bin.output_type)),
        bin.handle_message(BusMessage::Other).0 == bin,
{
}

} // verus!
