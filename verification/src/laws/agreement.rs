//! The controller and the graph stay in agreement, step by step and over
//! whole runs.

use crate::host::{agree, drive, plausible_run, HostModel};
use crate::model::BinModel;
use crate::protocol::{BusMessage, GraphOp, OpOutcome, Phase, StateChange, Step, SwitchError};
use crate::render::DEFAULT_RENDER_TYPE;
use crate::sink::NodeModel;
use vstd::prelude::*;

verus! {

/// A new controller and the graph of a bin that has been put together
/// agree.
pub proof fn lemma_new_agrees()
    ensures
        BinModel::initial().inv(),
        agree(BinModel::initial(), Step::Done, HostModel::assembled()),
        BinModel::initial().render_type() == DEFAULT_RENDER_TYPE,
        BinModel::initial().video_sink() is None,
{
}

/// Whatever is asked of the controller and whatever the host reports, the
/// controller stays in a state that it can be in.
pub proof fn lemma_inv_is_kept(
    bin: BinModel,
    node: NodeModel,
    transition: StateChange,
    outcome: OpOutcome,
    message: BusMessage,
    enabled: bool,
    raw: u32,
)
    requires
        bin.inv(),
        node.wf(),
    ensures
        bin.reconfigure(node).0.inv(),
        bin.change_state(transition).0.inv(),
        bin.resume(outcome).0.inv(),
        bin.handle_message(message).0.inv(),
        bin.set_test_switch_sink(enabled).inv(),
        bin.set_output_value(raw).inv(),
        bin.disposed().inv(),
{
}

/// Every step that the controller takes on an outcome keeps it in
/// agreement with the graph, whatever the outcome is, as long as it is one
/// that the host framework promises.
pub proof fn lemma_resume_keeps_agreement(
    bin: BinModel,
    op: GraphOp,
    host: HostModel,
    outcome: OpOutcome,
)
    requires
        agree(bin, Step::Perform(op), host),
        host.plausible(op, outcome),
    ensures
        agree(
            bin.resume(outcome).0,
            bin.resume(outcome).1,
            host.perform(op, outcome, bin.selected),
        ),
{
}

/// A request that is made while nothing is under way keeps the controller
/// in agreement with the graph.
pub proof fn lemma_request_keeps_agreement(bin: BinModel, host: HostModel, node: NodeModel)
    requires
        agree(bin, Step::Done, host),
        node.wf(),
    ensures
        agree(bin.reconfigure(node).0, bin.reconfigure(node).1, host),
{
}

/// A transition that is made while nothing is under way keeps the
/// controller in agreement with the graph.
pub proof fn lemma_transition_keeps_agreement(
    bin: BinModel,
    host: HostModel,
    transition: StateChange,
)
    requires
        agree(bin, Step::Done, host),
    ensures
        agree(bin.change_state(transition).0, bin.change_state(transition).1, host),
{
}

/// Messages and settings leave the swap alone: they keep the controller in
/// agreement with the graph, whenever they arrive.
pub proof fn lemma_settings_keep_agreement(
    bin: BinModel,
    step: Step,
    host: HostModel,
    message: BusMessage,
    enabled: bool,
    raw: u32,
)
    requires
        agree(bin, step, host),
    ensures
        agree(bin.handle_message(message).0, step, host),
        agree(bin.set_test_switch_sink(enabled), step, host),
        agree(bin.set_output_value(raw), step, host),
{
}

/// A request or a transition that arrives while an operation is under way
/// is refused and changes nothing: nothing can come between the steps of a
/// swap.
pub proof fn lemma_busy_controller_refuses(
    bin: BinModel,
    node: NodeModel,
    transition: StateChange,
)
    requires
        bin.phase != Phase::Idle,
    ensures
        bin.reconfigure(node) == (bin, Step::Failed(SwitchError::ConcurrentAccess)),
        bin.change_state(transition) == (bin, Step::Failed(SwitchError::ConcurrentAccess)),
{
}

/// Halting the flow and resuming it take effect whatever the host reports,
/// and asking twice for the same is asking once.
pub proof fn lemma_blocking_is_idempotent(
    host: HostModel,
    blocking: bool,
    first: OpOutcome,
    second: OpOutcome,
    selected: NodeModel,
)
    ensures
        host.perform(GraphOp::SetBlocking(blocking), first, selected).blocking == blocking,
        host.perform(GraphOp::SetBlocking(blocking), first, selected).perform(
            GraphOp::SetBlocking(blocking),
            second,
            selected,
        ) == host.perform(GraphOp::SetBlocking(blocking), first, selected),
{
}

/// The terminal stage is stopped, detached, attached, linked and started
/// only while the flow is halted, in the graph and in the controller's
/// record of it.
pub proof fn lemma_terminal_touched_only_while_blocked(bin: BinModel, op: GraphOp, host: HostModel)
    requires
        agree(bin, Step::Perform(op), host),
        op.touches_terminal(),
    ensures
        host.blocking,
        bin.blocking,
{
}

/// However the host's operations come out, as long as each outcome is one
/// that the host framework promises, the controller and the graph agree
/// after them. So at most one terminal stage is ever a member of the bin;
/// and once the request is served or given up, nothing is under way, the
/// stage that the controller has bound is the one member and there is none
/// if it has none bound, the flow is as the controller records it, and a
/// swap that was given up has left nothing bound, nothing built and the
/// flow halted.
pub proof fn lemma_run_keeps_agreement(
    bin: BinModel,
    step: Step,
    host: HostModel,
    outcomes: Seq<OpOutcome>,
)
    requires
        agree(bin, step, host),
        plausible_run(bin, step, host, outcomes),
    ensures
        ({
            let end = drive(bin, step, host, outcomes);
            &&& agree(end.0, end.1, end.2)
            &&& 0 <= end.2.attached <= 1
            &&& !(end.1 is Perform) ==> {
                &&& end.0.phase == Phase::Idle
                &&& end.2.member == end.0.video_sink()
                &&& end.2.attached == (if end.0.bound {
                    1int
                } else {
                    0int
                })
                &&& end.2.blocking == end.0.blocking
                &&& (end.0.video_sink() matches Some(node) ==> node.kind == end.0.render_type())
            }
            &&& (end.1 matches Step::Failed(error) && error.ends_swap() ==> {
                &&& end.0.video_sink() is None
                &&& end.2.holds_none()
                &&& end.2.blocking
            })
        }),
    decreases outcomes.len(),
{
    match step {
        Step::Perform(op) => {
            if outcomes.len() > 0 {
                let next = bin.resume(outcomes[0]);
                lemma_resume_keeps_agreement(bin, op, host, outcomes[0]);
                lemma_run_keeps_agreement(
                    next.0,
                    next.1,
                    host.perform(op, outcomes[0], bin.selected),
                    outcomes.drop_first(),
                );
            }
        },
        _ => {},
    }
}

/// What is under way ends after at most nine operations, however they come
/// out: the controller neither retries nor waits.
pub proof fn lemma_run_ends(bin: BinModel, step: Step, host: HostModel, outcomes: Seq<OpOutcome>)
    requires
        step is Perform ==> bin.phase != Phase::Idle,
        outcomes.len() >= bin.phase.steps_left(),
    ensures
        !(drive(bin, step, host, outcomes).1 is Perform),
    decreases outcomes.len(),
{
    match step {
        Step::Perform(op) => {
            if outcomes.len() > 0 {
                let next = bin.resume(outcomes[0]);
                assert(next.0.phase.steps_left() < bin.phase.steps_left());
                assert(next.1 is Perform ==> next.0.phase != Phase::Idle);
                lemma_run_ends(
                    next.0,
                    next.1,
                    host.perform(op, outcomes[0], bin.selected),
                    outcomes.drop_first(),
                );
            }
        },
        _ => {},
    }
}

} // verus!
