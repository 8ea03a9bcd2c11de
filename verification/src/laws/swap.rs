//! What requests come to: a swap that completes, a request that changes
//! nothing, sequences of requests, and the first build on entering `Paused`.

use crate::host::{agree, cooperative, drive, plausible_run, serve, serve_all, HostModel};
use crate::laws::agreement::{
    lemma_new_agrees, lemma_request_keeps_agreement, lemma_resume_keeps_agreement,
    lemma_run_keeps_agreement, lemma_transition_keeps_agreement,
};
use crate::model::BinModel;
use crate::protocol::{GraphOp, OpOutcome, Phase, StateChange, Step, SwitchError};
use crate::render::{GstUnifiedSinkRenderType, DEFAULT_RENDER_TYPE};
use crate::sink::NodeModel;
use vstd::prelude::*;

verus! {

/// The operations that a swap still asks for if each of them succeeds.
spec fn swap_ops_left(bin: BinModel) -> nat {
    match bin.phase {
        Phase::ClosingGate => if bin.bound {
            8
        } else {
            6
        },
        Phase::StoppingOld => 7,
        Phase::DetachingOld => 6,
        Phase::Building => 5,
        Phase::Attaching => 4,
        Phase::Linking => 3,
        Phase::Syncing => 2,
        Phase::OpeningGate => 1,
        _ => 0,
    }
}

/// The state in which a swap ends if each of its operations succeeds.
spec fn completed(bin: BinModel) -> BinModel {
    BinModel { bound: true, blocking: false, phase: Phase::Idle, ..bin.adopt() }
}

/// The graph in which a swap ends if each of its operations succeeds.
spec fn completed_host(bin: BinModel, host: HostModel) -> HostModel {
    let attach_ahead = swap_ops_left(bin) >= 4;
    let detach_ahead = swap_ops_left(bin) >= 7 || (bin.phase == Phase::DetachingOld);
    HostModel {
        blocking: false,
        held: Some(bin.adopt().selected),
        member: Some(bin.adopt().selected),
        attached: 1,
        attaches: if attach_ahead {
            host.attaches + 1
        } else {
            host.attaches
        },
        detaches: if detach_ahead {
            host.detaches + 1
        } else {
            host.detaches
        },
        ..host
    }
}

/// A swap whose every operation succeeds, from whichever of its phases,
/// ends served, with the selected stage bound and the flow open; and a host
/// that lets every operation succeed is one that the host framework allows.
proof fn lemma_cooperative_run(bin: BinModel, op: GraphOp, host: HostModel, outcomes: Seq<OpOutcome>)
    requires
        agree(bin, Step::Perform(op), host),
        swap_ops_left(bin) > 0,
        outcomes.len() >= swap_ops_left(bin),
        forall|i: int| 0 <= i < outcomes.len() ==> outcomes[i] == OpOutcome::Succeeded,
    ensures
        drive(bin, Step::Perform(op), host, outcomes) == (
            completed(bin),
            Step::Done,
            completed_host(bin, host),
        ),
        plausible_run(bin, Step::Perform(op), host, outcomes),
    decreases outcomes.len(),
{
    let next = bin.resume(outcomes[0]);
    let after = host.perform(op, outcomes[0], bin.selected);
    let rest = outcomes.drop_first();
    lemma_resume_keeps_agreement(bin, op, host, outcomes[0]);
    if bin.phase == Phase::OpeningGate {
        assert(drive(next.0, next.1, after, rest) == (next.0, next.1, after));
        assert(plausible_run(next.0, next.1, after, rest));
    } else {
        lemma_cooperative_run(next.0, next.0.phase.pending().unwrap(), after, rest);
    }
}

/// A request for the kind that is current asks the host for nothing,
/// whenever it arrives: the controller stays as it is, no stage is attached
/// or detached, and the flow is not touched.
pub proof fn lemma_same_kind_is_noop(
    bin: BinModel,
    host: HostModel,
    node: NodeModel,
    outcomes: Seq<OpOutcome>,
)
    requires
        node.kind == bin.render_type(),
    ensures
        bin.reconfigure(node).0 == bin,
        !(bin.reconfigure(node).1 is Perform),
        bin.phase == Phase::Idle ==> bin.reconfigure(node).1 == Step::Done,
        drive(bin.reconfigure(node).0, bin.reconfigure(node).1, host, outcomes) == (
            bin,
            bin.reconfigure(node).1,
            host,
        ),
{
}

/// A request for another kind than the current one, made while nothing is
/// under way and served by a host whose every operation succeeds, ends with
/// the requested stage bound and the flow open. The graph then holds
/// exactly one terminal stage, the requested one; it was attached once, and
/// the stage that was bound before, if there was one, was detached once.
pub proof fn lemma_swap_completes(bin: BinModel, host: HostModel, node: NodeModel)
    requires
        agree(bin, Step::Done, host),
        node.wf(),
        node.kind != bin.render_type(),
    ensures
        serve(bin, host, node) == (
            BinModel { selected: node, bound: true, blocking: false, ..bin },
            Step::Done,
            HostModel {
                blocking: false,
                held: Some(node),
                member: Some(node),
                attached: 1,
                attaches: host.attaches + 1,
                detaches: if bin.bound {
                    host.detaches + 1
                } else {
                    host.detaches
                },
                ..host
            },
        ),
        agree(serve(bin, host, node).0, Step::Done, serve(bin, host, node).2),
        serve(bin, host, node).0.video_sink() == Some(node),
{
    let start = bin.reconfigure(node);
    lemma_request_keeps_agreement(bin, host, node);
    lemma_cooperative_run(start.0, GraphOp::SetBlocking(true), host, cooperative());
    lemma_run_keeps_agreement(start.0, start.1, host, cooperative());
}

/// Whether one of the requests given asks for another kind than `kind`.
pub open spec fn asks_other_kind(nodes: Seq<NodeModel>, kind: GstUnifiedSinkRenderType) -> bool {
    exists|i: int| 0 <= i < nodes.len() && (#[trigger] nodes[i]).kind != kind
}

/// After any sequence of requests, each served by a host whose every
/// operation succeeds before the next is made, the controller and the graph
/// agree and nothing is under way; the current kind is that of the last
/// request; and a terminal stage is bound exactly if one was bound before
/// or one of the requests asked for another kind than the one that was
/// current at first.
pub proof fn lemma_requests_settle(bin: BinModel, host: HostModel, nodes: Seq<NodeModel>)
    requires
        agree(bin, Step::Done, host),
        forall|i: int| 0 <= i < nodes.len() ==> (#[trigger] nodes[i]).wf(),
    ensures
        ({
            let end = serve_all(bin, host, nodes);
            &&& agree(end.0, Step::Done, end.1)
            &&& end.0.phase == Phase::Idle
            &&& nodes.len() == 0 ==> end == (bin, host)
            &&& nodes.len() > 0 ==> end.0.render_type() == nodes.last().kind
            &&& end.0.bound == (bin.bound || asks_other_kind(nodes, bin.render_type()))
        }),
    decreases nodes.len(),
{
    if nodes.len() > 0 {
        let prefix = nodes.drop_last();
        let last = nodes.last();
        let before = serve_all(bin, host, prefix);
        lemma_requests_settle(bin, host, prefix);
        assert(last == nodes[nodes.len() - 1]);
        assert(forall|i: int| 0 <= i < prefix.len() ==> prefix[i] == nodes[i]);
        if last.kind == before.0.render_type() {
            lemma_same_kind_is_noop(before.0, before.1, last, cooperative());
        } else {
            lemma_swap_completes(before.0, before.1, last);
        }
        if prefix.len() > 0 {
            assert(prefix.last() == nodes[prefix.len() - 1]);
        }
        if asks_other_kind(prefix, bin.render_type()) {
            let i = choose|i: int|
                0 <= i < prefix.len() && (#[trigger] prefix[i]).kind != bin.render_type();
            assert(nodes[i].kind != bin.render_type());
        }
        if asks_other_kind(nodes, bin.render_type()) && !asks_other_kind(
            prefix,
            bin.render_type(),
        ) {
            let i = choose|i: int|
                0 <= i < nodes.len() && (#[trigger] nodes[i]).kind != bin.render_type();
            if i < prefix.len() {
                assert(prefix[i].kind != bin.render_type());
            }
        }
    }
}

/// For every sequence of requests, each served by a host whose every
/// operation succeeds before the next is made: after the last of them the
/// bound terminal stage is of the kind that was requested last, and it is
/// the one terminal stage that is a member of the bin.
///
/// Left out are the sequences after which nothing is bound at all: those
/// that start with nothing bound and only ever ask for the kind that is
/// current, each request of which changes nothing.
pub proof fn lemma_last_request_is_bound(bin: BinModel, host: HostModel, nodes: Seq<NodeModel>)
    requires
        agree(bin, Step::Done, host),
        nodes.len() > 0,
        forall|i: int| 0 <= i < nodes.len() ==> (#[trigger] nodes[i]).wf(),
        bin.bound || asks_other_kind(nodes, bin.render_type()),
    ensures
        ({
            let end = serve_all(bin, host, nodes);
            &&& end.0.video_sink() matches Some(node) && node.kind == nodes.last().kind
            &&& end.0.phase == Phase::Idle
            &&& end.1.member == end.0.video_sink()
            &&& end.1.attached == 1
            &&& !end.1.blocking
        }),
{
    lemma_requests_settle(bin, host, nodes);
}

/// Two requests that arrive together are served one after the other, and
/// whichever order they are served in, the graph is never left between the
/// two: the bound terminal stage is of the kind that was served last, and
/// exactly one terminal stage is a member of the bin.
pub proof fn lemma_either_order_settles(
    bin: BinModel,
    host: HostModel,
    first: NodeModel,
    second: NodeModel,
)
    requires
        agree(bin, Step::Done, host),
        first.wf(),
        second.wf(),
        first.kind != second.kind,
    ensures
        ({
            let end = serve_all(bin, host, seq![first, second]);
            &&& end.0.video_sink() matches Some(node) && node.kind == second.kind
            &&& end.1.member == end.0.video_sink()
            &&& end.1.attached == 1
        }),
        ({
            let end = serve_all(bin, host, seq![second, first]);
            &&& end.0.video_sink() matches Some(node) && node.kind == first.kind
            &&& end.1.member == end.0.video_sink()
            &&& end.1.attached == 1
        }),
{
    let forth = seq![first, second];
    let back = seq![second, first];
    assert(forth[0] == first && forth[1] == second);
    assert(back[0] == second && back[1] == first);
    assert(forth[0].kind != bin.render_type() || forth[1].kind != bin.render_type());
    assert(back[0].kind != bin.render_type() || back[1].kind != bin.render_type());
    lemma_last_request_is_bound(bin, host, forth);
    lemma_last_request_is_bound(bin, host, back);
}

/// Entering `Paused` with nothing bound, served by a host whose every
/// operation succeeds, binds a terminal stage of the kind that is current:
/// for a new controller, the default kind.
pub proof fn lemma_entering_paused_binds(bin: BinModel, host: HostModel)
    requires
        agree(bin, Step::Done, host),
        !bin.bound,
    ensures
        ({
            let start = bin.change_state(StateChange::ReadyToPaused);
            let end = drive(start.0, start.1, host, cooperative());
            &&& end.1 == Step::Done
            &&& end.0 == (BinModel { bound: true, blocking: false, ..bin })
            &&& end.0.video_sink() == Some(bin.selected)
            &&& end.0.render_type() == bin.render_type()
            &&& end.2.member == Some(bin.selected)
            &&& end.2.attached == 1
            &&& !end.2.blocking
        }),
{
    let start = bin.change_state(StateChange::ReadyToPaused);
    lemma_transition_keeps_agreement(bin, host, StateChange::ReadyToPaused);
    lemma_cooperative_run(start.0, GraphOp::SetBlocking(true), host, cooperative());
}

/// A new controller that enters `Paused`, served by a host whose every
/// operation succeeds, binds a terminal stage of the default kind, which
/// carries no settings.
pub proof fn lemma_first_pause_binds_default()
    ensures
        ({
            let start = BinModel::initial().change_state(StateChange::ReadyToPaused);
            let end = drive(start.0, start.1, HostModel::assembled(), cooperative());
            &&& end.1 == Step::Done
            &&& end.0.video_sink() == Some(NodeModel { kind: DEFAULT_RENDER_TYPE, file: None })
            &&& end.2.member == end.0.video_sink()
            &&& end.2.attached == 1
        }),
{
    lemma_new_agrees();
    lemma_entering_paused_binds(BinModel::initial(), HostModel::assembled());
}

/// Entering `Paused` with nothing bound fails if the factory fails: the
/// error reaches the caller, nothing is bound, no terminal stage is a
/// member of the bin, and the flow stays halted.
pub proof fn lemma_entering_paused_fails_with_factory(
    bin: BinModel,
    host: HostModel,
    outcomes: Seq<OpOutcome>,
)
    requires
        agree(bin, Step::Done, host),
        !bin.bound,
        outcomes.len() >= 2,
        outcomes[1] == OpOutcome::Failed,
    ensures
        ({
            let start = bin.change_state(StateChange::ReadyToPaused);
            let end = drive(start.0, start.1, host, outcomes);
            &&& end.1 == Step::Failed(SwitchError::ConstructionFailed)
            &&& end.0 == (BinModel { blocking: true, ..bin })
            &&& end.0.video_sink() is None
            &&& end.2 == (HostModel { blocking: true, ..host })
            &&& end.2.holds_none()
        }),
{
    let start = bin.change_state(StateChange::ReadyToPaused);
    let halted = start.0.resume(outcomes[0]);
    let built = halted.0.resume(outcomes[1]);
    let rest = outcomes.drop_first();
    assert(rest[0] == outcomes[1]);
    let after = host.perform(GraphOp::SetBlocking(true), outcomes[0], bin.selected);
    assert(drive(
        built.0,
        built.1,
        after.perform(GraphOp::Build, rest[0], halted.0.selected),
        rest.drop_first(),
    ) == (built.0, built.1, after));
    assert(drive(halted.0, halted.1, after, rest) == (built.0, built.1, after));
}

} // verus!
