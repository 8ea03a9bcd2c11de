//! Putting the bin together and tearing it down: which stages are members
//! afterwards.

use crate::host::{agree, HostModel};
use crate::model::BinModel;
use crate::protocol::{GraphOp, OpOutcome, Phase, Stage, Step};
use crate::sink::NodeModel;
use vstd::prelude::*;

verus! {

/// Whether none of the operations given attaches a stage.
spec fn attaches_nothing(ops: Seq<GraphOp>) -> bool {
    forall|i: int| 0 <= i < ops.len() ==> !((#[trigger] ops[i]) is Attach)
}

/// Whether none of the operations given detaches a stage.
spec fn detaches_nothing(ops: Seq<GraphOp>) -> bool {
    forall|i: int| 0 <= i < ops.len() ==> !((#[trigger] ops[i]) is Detach)
}

/// At most one terminal stage is a member, and where none is, none is
/// recorded as the one that was attached last.
spec fn tidy(host: HostModel) -> bool {
    0 <= host.attached <= 1 && (host.attached == 0 ==> host.member is None)
}

/// Where no stage is attached, no stage becomes a member, whatever fails.
proof fn lemma_nothing_joins(
    host: HostModel,
    ops: Seq<GraphOp>,
    outcomes: Seq<OpOutcome>,
    selected: NodeModel,
)
    requires
        ops.len() == outcomes.len(),
        attaches_nothing(ops),
        host.plausible_all(ops, outcomes, selected),
        tidy(host),
    ensures
        tidy(host.perform_all(ops, outcomes, selected)),
        host.perform_all(ops, outcomes, selected).attached <= host.attached,
        host.perform_all(ops, outcomes, selected).gate_in ==> host.gate_in,
        host.perform_all(ops, outcomes, selected).converter_in ==> host.converter_in,
    decreases ops.len(),
{
    if ops.len() > 0 {
        let prefix = ops.drop_last();
        assert forall|i: int| 0 <= i < prefix.len() implies !((#[trigger] prefix[i]) is Attach) by {
            assert(prefix[i] == ops[i]);
        }
        lemma_nothing_joins(host, prefix, outcomes.drop_last(), selected);
        assert(!(ops[ops.len() - 1] is Attach));
    }
}

/// Where no stage is attached, a stage that is detached is no member
/// afterwards, whatever fails; and the host has let go of a terminal stage
/// that is detached, where none is built anew.
proof fn lemma_detached_stays_out(
    host: HostModel,
    ops: Seq<GraphOp>,
    outcomes: Seq<OpOutcome>,
    selected: NodeModel,
    stage: Stage,
    at: int,
)
    requires
        ops.len() == outcomes.len(),
        attaches_nothing(ops),
        host.plausible_all(ops, outcomes, selected),
        tidy(host),
        0 <= at < ops.len(),
        ops[at] == GraphOp::Detach(stage),
        forall|i: int| 0 <= i < ops.len() ==> (#[trigger] ops[i]) != GraphOp::Build,
    ensures
        !host.perform_all(ops, outcomes, selected).is_member(stage),
        stage == Stage::Terminal ==> host.perform_all(ops, outcomes, selected).held is None,
    decreases ops.len(),
{
    let prefix = ops.drop_last();
    assert forall|i: int| 0 <= i < prefix.len() implies !((#[trigger] prefix[i]) is Attach)
        && prefix[i] != GraphOp::Build by {
        assert(prefix[i] == ops[i]);
    }
    assert(!(ops[ops.len() - 1] is Attach));
    assert(ops[ops.len() - 1] != GraphOp::Build);
    lemma_nothing_joins(host, prefix, outcomes.drop_last(), selected);
    if at < prefix.len() {
        assert(prefix[at] == GraphOp::Detach(stage));
        lemma_detached_stays_out(host, prefix, outcomes.drop_last(), selected, stage, at);
    }
}

/// Where no stage is detached, no stage leaves the bin.
proof fn lemma_nothing_leaves(
    host: HostModel,
    ops: Seq<GraphOp>,
    outcomes: Seq<OpOutcome>,
    selected: NodeModel,
)
    requires
        ops.len() == outcomes.len(),
        detaches_nothing(ops),
    ensures
        host.attached <= host.perform_all(ops, outcomes, selected).attached,
        host.gate_in ==> host.perform_all(ops, outcomes, selected).gate_in,
        host.converter_in ==> host.perform_all(ops, outcomes, selected).converter_in,
    decreases ops.len(),
{
    if ops.len() > 0 {
        let prefix = ops.drop_last();
        assert forall|i: int| 0 <= i < prefix.len() implies !((#[trigger] prefix[i]) is Detach) by {
            assert(prefix[i] == ops[i]);
        }
        lemma_nothing_leaves(host, prefix, outcomes.drop_last(), selected);
        assert(!(ops[ops.len() - 1] is Detach));
    }
}

/// Where no stage is detached, a stage that is attached with success is a
/// member afterwards.
proof fn lemma_attached_stays_in(
    host: HostModel,
    ops: Seq<GraphOp>,
    outcomes: Seq<OpOutcome>,
    selected: NodeModel,
    stage: Stage,
    at: int,
)
    requires
        ops.len() == outcomes.len(),
        detaches_nothing(ops),
        0 <= host.attached,
        0 <= at < ops.len(),
        ops[at] == GraphOp::Attach(stage),
        outcomes[at] == OpOutcome::Succeeded,
    ensures
        host.perform_all(ops, outcomes, selected).is_member(stage),
    decreases ops.len(),
{
    let prefix = ops.drop_last();
    assert forall|i: int| 0 <= i < prefix.len() implies !((#[trigger] prefix[i]) is Detach) by {
        assert(prefix[i] == ops[i]);
    }
    assert(!(ops[ops.len() - 1] is Detach));
    lemma_nothing_leaves(host, prefix, outcomes.drop_last(), selected);
    if at < prefix.len() {
        assert(prefix[at] == GraphOp::Attach(stage));
        assert(outcomes.drop_last()[at] == outcomes[at]);
        lemma_attached_stays_in(host, prefix, outcomes.drop_last(), selected, stage, at);
    }
}

/// Operations that neither halt nor resume the flow and leave the terminal
/// stage alone change nothing but the membership of the valve and the
/// converter.
proof fn lemma_terminal_and_flow_kept(
    host: HostModel,
    ops: Seq<GraphOp>,
    outcomes: Seq<OpOutcome>,
    selected: NodeModel,
)
    requires
        ops.len() == outcomes.len(),
        forall|i: int|
            0 <= i < ops.len() ==> !((#[trigger] ops[i]) is SetBlocking) && ops[i]
                != GraphOp::Build && ops[i] != GraphOp::Attach(Stage::Terminal) && ops[i]
                != GraphOp::Detach(Stage::Terminal),
    ensures
        ({
            let end = host.perform_all(ops, outcomes, selected);
            end == (HostModel { gate_in: end.gate_in, converter_in: end.converter_in, ..host })
        }),
    decreases ops.len(),
{
    if ops.len() > 0 {
        let prefix = ops.drop_last();
        assert forall|i: int| 0 <= i < prefix.len() implies !((#[trigger] prefix[i])
            is SetBlocking) && prefix[i] != GraphOp::Build && prefix[i] != GraphOp::Attach(
            Stage::Terminal,
        ) && prefix[i] != GraphOp::Detach(Stage::Terminal) by {
            assert(prefix[i] == ops[i]);
        }
        lemma_terminal_and_flow_kept(host, prefix, outcomes.drop_last(), selected);
        assert(!(ops[ops.len() - 1] is SetBlocking));
    }
}

/// Putting the bin together for a new controller, where every operation
/// succeeds, makes the valve and the converter members of the bin and
/// changes nothing else: the graph is then the one that a new controller
/// agrees with.
pub proof fn lemma_construction_assembles(bin: BinModel, outcomes: Seq<OpOutcome>)
    requires
        !bin.bound,
        outcomes.len() == bin.constructed().len(),
        forall|i: int| 0 <= i < outcomes.len() ==> outcomes[i] == OpOutcome::Succeeded,
    ensures
        HostModel::fresh().perform_all(bin.constructed(), outcomes, bin.selected)
            == HostModel::assembled(),
{
    let ops = bin.constructed();
    assert(ops[0] == GraphOp::Attach(Stage::Gate));
    assert(ops[1] == GraphOp::Attach(Stage::Converter));
    lemma_attached_stays_in(HostModel::fresh(), ops, outcomes, bin.selected, Stage::Gate, 0);
    lemma_attached_stays_in(HostModel::fresh(), ops, outcomes, bin.selected, Stage::Converter, 1);
    lemma_terminal_and_flow_kept(HostModel::fresh(), ops, outcomes, bin.selected);
}

/// Where no terminal stage is built or detached, the host holds what it
/// held.
proof fn lemma_held_kept(
    host: HostModel,
    ops: Seq<GraphOp>,
    outcomes: Seq<OpOutcome>,
    selected: NodeModel,
)
    requires
        ops.len() == outcomes.len(),
        forall|i: int|
            0 <= i < ops.len() ==> (#[trigger] ops[i]) != GraphOp::Build && ops[i]
                != GraphOp::Detach(Stage::Terminal),
    ensures
        host.perform_all(ops, outcomes, selected).held == host.held,
    decreases ops.len(),
{
    if ops.len() > 0 {
        let prefix = ops.drop_last();
        assert forall|i: int| 0 <= i < prefix.len() implies (#[trigger] prefix[i])
            != GraphOp::Build && prefix[i] != GraphOp::Detach(Stage::Terminal) by {
            assert(prefix[i] == ops[i]);
        }
        lemma_held_kept(host, prefix, outcomes.drop_last(), selected);
    }
}

/// Tearing the bin down leaves no stage a member of it and no terminal
/// stage with the host, in whatever state the controller is and whatever
/// fails on the way, and the controller ends with nothing bound and nothing
/// under way.
pub proof fn lemma_teardown_leaves_no_member(
    bin: BinModel,
    step: Step,
    host: HostModel,
    outcomes: Seq<OpOutcome>,
)
    requires
        agree(bin, step, host),
        outcomes.len() == bin.teardown().len(),
        host.plausible_all(bin.teardown(), outcomes, bin.selected),
    ensures
        ({
            let end = host.perform_all(bin.teardown(), outcomes, bin.selected);
            &&& !end.is_member(Stage::Gate)
            &&& !end.is_member(Stage::Converter)
            &&& !end.is_member(Stage::Terminal)
            &&& end.holds_none()
        }),
        bin.disposed().video_sink() is None,
        bin.disposed().phase == Phase::Idle,
{
    let ops = bin.teardown();
    assert(ops[3] == GraphOp::Detach(Stage::Gate));
    assert(ops[5] == GraphOp::Detach(Stage::Converter));
    lemma_detached_stays_out(host, ops, outcomes, bin.selected, Stage::Gate, 3);
    lemma_detached_stays_out(host, ops, outcomes, bin.selected, Stage::Converter, 5);
    lemma_nothing_joins(host, ops, outcomes, bin.selected);
    if bin.holds_node() {
        assert(ops[7] == GraphOp::Detach(Stage::Terminal));
        lemma_detached_stays_out(host, ops, outcomes, bin.selected, Stage::Terminal, 7);
    } else {
        lemma_held_kept(host, ops, outcomes, bin.selected);
    }
}

} // verus!
