//! The graph as the controller needs the host framework to keep it: what
//! each operation does to the flow and to the membership of the stages, and
//! what it means that the controller and the graph agree.

use crate::model::BinModel;
use crate::protocol::{GraphOp, OpOutcome, Phase, Stage, Step};
use crate::sink::NodeModel;
use vstd::prelude::*;

verus! {

/// What the controller's operations have made of the graph.
pub struct HostModel {
    /// Whether the flow into the bin is halted.
    pub blocking: bool,
    /// The terminal stage that the host has built and not let go of.
    pub held: Option<NodeModel>,
    /// The terminal stage that was attached last, unless one was detached
    /// since.
    pub member: Option<NodeModel>,
    /// How many terminal stages are members of the bin.
    pub attached: int,
    /// Whether the valve is a member of the bin.
    pub gate_in: bool,
    /// Whether the converter is a member of the bin.
    pub converter_in: bool,
    /// How many times a terminal stage has been attached.
    pub attaches: nat,
    /// How many times a terminal stage has been detached.
    pub detaches: nat,
}

impl HostModel {
    /// The graph of a bin that has just been created and not yet put
    /// together: the flow is open, no stage is a member, no terminal stage
    /// is built.
    pub open spec fn fresh() -> HostModel {
        HostModel {
            blocking: false,
            held: None,
            member: None,
            attached: 0,
            gate_in: false,
            converter_in: false,
            attaches: 0,
            detaches: 0,
        }
    }

    /// The graph of a bin that has been put together: the valve and the
    /// converter are members, the flow is open, no terminal stage is built.
    pub open spec fn assembled() -> HostModel {
        HostModel { gate_in: true, converter_in: true, ..HostModel::fresh() }
    }

    /// Whether a stage of the kind given is a member of the bin.
    pub open spec fn is_member(self, stage: Stage) -> bool {
        match stage {
            Stage::Gate => self.gate_in,
            Stage::Converter => self.converter_in,
            Stage::Terminal => self.attached > 0,
        }
    }

    /// The graph after the host has performed `op` with the outcome given,
    /// while the controller had `selected` selected.
    ///
    /// Halting and resuming the flow always take effect. A build that
    /// succeeds leaves the host with the selected stage, one that fails with
    /// none. Attaching makes a stage a member where it succeeds, the
    /// terminal stage being the one that the host holds. Detaching takes a
    /// stage out where it succeeds, and the host lets go of the terminal
    /// stage either way. Nothing else changes what is recorded here.
    pub open spec fn perform(
        self,
        op: GraphOp,
        outcome: OpOutcome,
        selected: NodeModel,
    ) -> HostModel {
        let ok = outcome == OpOutcome::Succeeded;
        match op {
            GraphOp::SetBlocking(blocking) => HostModel { blocking, ..self },
            GraphOp::Build => HostModel {
                held: if ok {
                    Some(selected)
                } else {
                    None
                },
                ..self
            },
            GraphOp::Attach(Stage::Gate) => HostModel { gate_in: self.gate_in || ok, ..self },
            GraphOp::Attach(Stage::Converter) => HostModel {
                converter_in: self.converter_in || ok,
                ..self
            },
            GraphOp::Detach(Stage::Gate) => HostModel { gate_in: self.gate_in && !ok, ..self },
            GraphOp::Detach(Stage::Converter) => HostModel {
                converter_in: self.converter_in && !ok,
                ..self
            },
            GraphOp::Attach(Stage::Terminal) => if ok {
                HostModel {
                    member: self.held,
                    attached: self.attached + 1,
                    attaches: self.attaches + 1,
                    ..self
                }
            } else {
                self
            },
            GraphOp::Detach(Stage::Terminal) => if ok {
                HostModel {
                    held: None,
                    member: None,
                    attached: self.attached - 1,
                    detaches: self.detaches + 1,
                    ..self
                }
            } else {
                HostModel { held: None, ..self }
            },
            _ => self,
        }
    }

    /// What the host framework promises of an outcome: a stage is detached
    /// with success exactly if it is a member of the bin.
    pub open spec fn plausible(self, op: GraphOp, outcome: OpOutcome) -> bool {
        op matches GraphOp::Detach(stage) ==> (outcome == OpOutcome::Succeeded
            <==> self.is_member(stage))
    }

    /// The graph after the host has performed the operations given in
    /// order, each with the outcome at the same place.
    pub open spec fn perform_all(
        self,
        ops: Seq<GraphOp>,
        outcomes: Seq<OpOutcome>,
        selected: NodeModel,
    ) -> HostModel
        recommends
            ops.len() == outcomes.len(),
        decreases ops.len(),
    {
        if ops.len() == 0 {
            self
        } else {
            self.perform_all(ops.drop_last(), outcomes.drop_last(), selected).perform(
                ops.last(),
                outcomes.last(),
                selected,
            )
        }
    }

    /// Whether each of the outcomes given is one that the host framework
    /// promises, at the point where its operation is performed.
    pub open spec fn plausible_all(
        self,
        ops: Seq<GraphOp>,
        outcomes: Seq<OpOutcome>,
        selected: NodeModel,
    ) -> bool
        recommends
            ops.len() == outcomes.len(),
        decreases ops.len(),
    {
        if ops.len() == 0 {
            true
        } else {
            self.plausible_all(ops.drop_last(), outcomes.drop_last(), selected)
                && self.perform_all(ops.drop_last(), outcomes.drop_last(), selected).plausible(
                ops.last(),
                outcomes.last(),
            )
        }
    }

    /// The graph holds no terminal stage at all.
    pub open spec fn holds_none(self) -> bool {
        self.held is None && self.member is None && self.attached == 0
    }

    /// The host holds `node`, and it is not a member of the bin.
    pub open spec fn holds_apart(self, node: NodeModel) -> bool {
        self.held == Some(node) && self.member is None && self.attached == 0
    }

    /// The host holds `node`, and it is the one terminal stage that is a
    /// member of the bin.
    pub open spec fn holds_member(self, node: NodeModel) -> bool {
        self.held == Some(node) && self.member == Some(node) && self.attached == 1
    }
}

/// The controller, the step it has asked for and the graph agree where the
/// controller is in a state that it can be in, the step is the one that its
/// phase waits for, and the graph is as the phase takes it to be: the valve
/// and the converter are members; at most one terminal stage is a member; while nothing is under way the selected
/// stage is the one member if the controller has it bound, and else there
/// is none, and the flow is as the controller records it; from the halting
/// of the flow to its resuming the flow is halted; and a swap that was given
/// up has left nothing bound and the flow halted.
pub open spec fn agree(bin: BinModel, step: Step, host: HostModel) -> bool {
    let settled = if bin.bound {
        host.holds_member(bin.selected)
    } else {
        host.holds_none()
    };
    &&& bin.inv()
    &&& host.gate_in
    &&& host.converter_in
    &&& match bin.phase.pending() {
        Some(op) => step == Step::Perform(op),
        None => !(step is Perform),
    }
    &&& (step matches Step::Failed(error) && error.ends_swap() ==> !bin.bound && bin.blocking)
    &&& match bin.phase {
        Phase::Idle => host.blocking == bin.blocking && settled,
        Phase::StartingToggler => host.blocking == bin.blocking && settled,
        Phase::JoiningToggler => host.blocking == bin.blocking && settled,
        Phase::ClosingGate => settled,
        Phase::StoppingOld => host.blocking && host.holds_member(bin.selected),
        Phase::DetachingOld => host.blocking && host.holds_member(bin.selected),
        Phase::Building => host.blocking && host.holds_none(),
        Phase::Attaching => host.blocking && host.holds_apart(bin.selected),
        Phase::Linking => host.blocking && host.holds_member(bin.selected),
        Phase::Syncing => host.blocking && host.holds_member(bin.selected),
        Phase::OpeningGate => host.blocking && host.holds_member(bin.selected),
        Phase::StoppingNew(_) => host.blocking && (host.holds_apart(bin.selected)
            || host.holds_member(bin.selected)),
        Phase::DetachingNew(_) => host.blocking && (host.holds_apart(bin.selected)
            || host.holds_member(bin.selected)),
    }
}

/// The controller and the graph after the host has performed the step
/// given and every step that followed from it, with the outcomes given in
/// order, until the request was served or given up or the outcomes ran out.
pub open spec fn drive(
    bin: BinModel,
    step: Step,
    host: HostModel,
    outcomes: Seq<OpOutcome>,
) -> (BinModel, Step, HostModel)
    decreases outcomes.len(),
{
    match step {
        Step::Perform(op) => if outcomes.len() == 0 {
            (bin, step, host)
        } else {
            let next = bin.resume(outcomes[0]);
            drive(
                next.0,
                next.1,
                host.perform(op, outcomes[0], bin.selected),
                outcomes.drop_first(),
            )
        },
        _ => (bin, step, host),
    }
}

/// Whether each of the outcomes given, as far as `drive` comes to it, is one
/// that the host framework promises.
pub open spec fn plausible_run(
    bin: BinModel,
    step: Step,
    host: HostModel,
    outcomes: Seq<OpOutcome>,
) -> bool
    decreases outcomes.len(),
{
    match step {
        Step::Perform(op) => if outcomes.len() == 0 {
            true
        } else {
            let next = bin.resume(outcomes[0]);
            host.plausible(op, outcomes[0]) && plausible_run(
                next.0,
                next.1,
                host.perform(op, outcomes[0], bin.selected),
                outcomes.drop_first(),
            )
        },
        _ => true,
    }
}

/// As many outcomes as the longest swap has operations, each a success.
pub open spec fn cooperative() -> Seq<OpOutcome> {
    Seq::new(8, |i: int| OpOutcome::Succeeded)
}

/// The controller and the graph after a request for `node` was made and
/// every operation that it asked for succeeded.
pub open spec fn serve(
    bin: BinModel,
    host: HostModel,
    node: NodeModel,
) -> (BinModel, Step, HostModel) {
    let start = bin.reconfigure(node);
    drive(start.0, start.1, host, cooperative())
}

/// The controller and the graph after the requests given were made in
/// order, each served before the next was made, and every operation
/// succeeded.
pub open spec fn serve_all(
    bin: BinModel,
    host: HostModel,
    nodes: Seq<NodeModel>,
) -> (BinModel, HostModel)
    decreases nodes.len(),
{
    if nodes.len() == 0 {
        (bin, host)
    } else {
        let before = serve_all(bin, host, nodes.drop_last());
        let after = serve(before.0, before.1, nodes.last());
        (after.0, after.2)
    }
}

} // verus!
