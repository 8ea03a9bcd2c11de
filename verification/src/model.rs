//! The controller as a state machine over values of the model: what each
//! request, each outcome and each message does to the state, and which
//! operation the host is asked for next.

use crate::protocol::{
    BusMessage, GraphOp, OpOutcome, Phase, RelayAction, Stage, StateChange, Step, SwitchError,
};
use crate::render::{
    GstUnifiedSinkRenderType, UnifiedSinkBinOutput, DEFAULT_OUTPUT_TYPE, DEFAULT_RENDER_TYPE,
};
use crate::sink::{FileSinkModel, NodeModel};
use vstd::prelude::*;

verus! {

/// The state of the controller.
pub struct BinModel {
    /// The terminal stage that is selected: the one that is bound, or the
    /// one that the next build is to produce.
    pub selected: NodeModel,
    /// The terminal stage that a request under way will select once the
    /// outgoing stage is gone.
    pub staged: Option<NodeModel>,
    /// Whether the selected terminal stage is built, attached, linked and
    /// running with the bin.
    pub bound: bool,
    /// Whether the flow into the bin is halted.
    pub blocking: bool,
    /// How far the operation under way has come.
    pub phase: Phase,
    /// Which reporter receives the progress reports.
    pub output_type: UnifiedSinkBinOutput,
    /// Whether the toggling worker is to run while the pipeline plays.
    pub test_switch_sink: bool,
    /// Whether messages other than the end of the stream are kept from the
    /// parent of the bin.
    pub test_switch_sink_enable: bool,
    /// Whether the toggling worker is running.
    pub test_thread_start: bool,
    /// Whether the end of the stream has been seen.
    pub test_thread_eos: bool,
}

impl BinModel {
    /// The state of a new controller: the default kind is selected and not
    /// yet built, the flow is open, nothing is under way.
    pub open spec fn initial() -> BinModel {
        BinModel {
            selected: NodeModel::build(DEFAULT_RENDER_TYPE, FileSinkModel::default_capture()),
            staged: None,
            bound: false,
            blocking: false,
            phase: Phase::Idle,
            output_type: DEFAULT_OUTPUT_TYPE,
            test_switch_sink: false,
            test_switch_sink_enable: false,
            test_thread_start: false,
            test_thread_eos: false,
        }
    }

    /// The kind of terminal stage that is current.
    pub open spec fn render_type(self) -> GstUnifiedSinkRenderType {
        self.selected.kind
    }

    /// The terminal stage that is bound, if one is.
    pub open spec fn video_sink(self) -> Option<NodeModel> {
        if self.bound {
            Some(self.selected)
        } else {
            None
        }
    }

    /// Whether the toggling worker has to end: the stream has ended, or the
    /// controller is waiting for the worker.
    pub open spec fn toggler_halted(self) -> bool {
        self.test_thread_eos || self.phase == Phase::JoiningToggler
    }

    /// Whether the host holds a terminal stage that the controller has not
    /// let go of.
    pub open spec fn holds_node(self) -> bool {
        self.bound || match self.phase {
            Phase::Attaching => true,
            Phase::Linking => true,
            Phase::Syncing => true,
            Phase::OpeningGate => true,
            Phase::StoppingNew(_) => true,
            Phase::DetachingNew(_) => true,
            _ => false,
        }
    }

    /// The state in the phase given.
    pub open spec fn at(self, phase: Phase) -> BinModel {
        BinModel { phase, ..self }
    }

    /// The outgoing stage is gone: the staged selection, if there is one,
    /// becomes the selected one, and nothing is bound.
    pub open spec fn adopt(self) -> BinModel {
        BinModel {
            selected: match self.staged {
                Some(node) => node,
                None => self.selected,
            },
            staged: None,
            bound: false,
            ..self
        }
    }

    /// Starts the swap protocol: the flow is halted first.
    pub open spec fn begin_swap(self, staged: Option<NodeModel>) -> (BinModel, Step) {
        (
            BinModel { staged, phase: Phase::ClosingGate, ..self },
            Step::Perform(GraphOp::SetBlocking(true)),
        )
    }

    /// A request for the terminal stage `node`. While another operation is
    /// under way it is refused; for the kind that is current it changes
    /// nothing and asks for nothing; else it starts the swap protocol.
    pub open spec fn reconfigure(self, node: NodeModel) -> (BinModel, Step) {
        if self.phase != Phase::Idle {
            (self, Step::Failed(SwitchError::ConcurrentAccess))
        } else if node.kind == self.selected.kind {
            (self, Step::Done)
        } else {
            self.begin_swap(Some(node))
        }
    }

    /// A request by the number of a kind. A number that stands for no kind
    /// is refused and changes nothing.
    pub open spec fn reconfigure_value(self, raw: u32, config: FileSinkModel) -> (BinModel, Step) {
        match NodeModel::build_from_value(raw, config) {
            Ok(node) => self.reconfigure(node),
            Err(error) => (self, Step::Failed(error)),
        }
    }

    /// A transition of the pipeline. Entering `Paused` builds the selected
    /// terminal stage where none is bound; entering `Playing` starts the
    /// toggling worker where it is enabled and not running; leaving
    /// `Playing` waits for the worker where it is running. The other
    /// transitions ask for nothing.
    pub open spec fn change_state(self, transition: StateChange) -> (BinModel, Step) {
        if self.phase != Phase::Idle {
            (self, Step::Failed(SwitchError::ConcurrentAccess))
        } else {
            match transition {
                StateChange::ReadyToPaused => if self.bound {
                    (self, Step::Done)
                } else {
                    self.begin_swap(None)
                },
                StateChange::PausedToPlaying => if self.test_switch_sink
                    && !self.test_thread_start {
                    (
                        BinModel {
                            test_thread_start: true,
                            phase: Phase::StartingToggler,
                            ..self
                        },
                        Step::Perform(GraphOp::StartToggler),
                    )
                } else {
                    (self, Step::Done)
                },
                StateChange::PlayingToPaused => if self.test_thread_start {
                    (self.at(Phase::JoiningToggler), Step::Perform(GraphOp::JoinToggler))
                } else {
                    (self, Step::Done)
                },
                _ => (self, Step::Done),
            }
        }
    }

    /// The next phase of the swap protocol and the operation it waits for.
    pub open spec fn proceed(self, phase: Phase, op: GraphOp) -> (BinModel, Step) {
        (self.at(phase), Step::Perform(op))
    }

    /// The swap is given up: nothing is under way any more, and the caller
    /// learns why.
    pub open spec fn give_up(self, error: SwitchError) -> (BinModel, Step) {
        (self.at(Phase::Idle), Step::Failed(error))
    }

    /// The outcome of the operation that the controller was waiting for.
    ///
    /// The swap protocol halts the flow, stops and detaches the bound stage
    /// if there is one, has the selected stage built, attaches it, links it
    /// to the converter, brings it to the run state of the bin, and resumes
    /// the flow. A failure ends it with nothing bound and the flow halted;
    /// one after the build first stops and detaches the new stage again.
    pub open spec fn resume(self, outcome: OpOutcome) -> (BinModel, Step) {
        let ok = outcome == OpOutcome::Succeeded;
        match self.phase {
            Phase::Idle => (self, Step::Done),
            Phase::ClosingGate => {
                let closed = BinModel { blocking: true, ..self };
                if closed.bound {
                    closed.proceed(Phase::StoppingOld, GraphOp::Stop(Stage::Terminal))
                } else {
                    closed.adopt().proceed(Phase::Building, GraphOp::Build)
                }
            },
            Phase::StoppingOld => self.proceed(
                Phase::DetachingOld,
                GraphOp::Detach(Stage::Terminal),
            ),
            Phase::DetachingOld => if ok {
                self.adopt().proceed(Phase::Building, GraphOp::Build)
            } else {
                self.adopt().give_up(SwitchError::LinkFailed)
            },
            Phase::Building => if ok {
                self.proceed(Phase::Attaching, GraphOp::Attach(Stage::Terminal))
            } else {
                self.give_up(SwitchError::ConstructionFailed)
            },
            Phase::Attaching => if ok {
                self.proceed(Phase::Linking, GraphOp::Link(Stage::Converter, Stage::Terminal))
            } else {
                self.proceed(
                    Phase::StoppingNew(SwitchError::LinkFailed),
                    GraphOp::Stop(Stage::Terminal),
                )
            },
            Phase::Linking => if ok {
                self.proceed(Phase::Syncing, GraphOp::SyncState(Stage::Terminal))
            } else {
                self.proceed(
                    Phase::StoppingNew(SwitchError::LinkFailed),
                    GraphOp::Stop(Stage::Terminal),
                )
            },
            Phase::Syncing => if ok {
                self.proceed(Phase::OpeningGate, GraphOp::SetBlocking(false))
            } else {
                self.proceed(
                    Phase::StoppingNew(SwitchError::StateTransitionFailed),
                    GraphOp::Stop(Stage::Terminal),
                )
            },
            Phase::OpeningGate => (
                BinModel { bound: true, blocking: false, phase: Phase::Idle, ..self },
                Step::Done,
            ),
            Phase::StoppingNew(error) => self.proceed(
                Phase::DetachingNew(error),
                GraphOp::Detach(Stage::Terminal),
            ),
            Phase::DetachingNew(error) => self.give_up(error),
            Phase::StartingToggler => (
                BinModel { test_thread_start: ok, phase: Phase::Idle, ..self },
                Step::Done,
            ),
            Phase::JoiningToggler => (
                BinModel { test_thread_start: false, phase: Phase::Idle, ..self },
                Step::Done,
            ),
        }
    }

    /// A message from one of the stages. The end of the stream is recorded
    /// and always handed on; a progress report goes to the reporter that is
    /// configured; any other message is handed on unless the toggling test
    /// keeps it back.
    pub open spec fn handle_message(self, message: BusMessage) -> (BinModel, RelayAction) {
        match message {
            BusMessage::StreamEnd => (
                BinModel { test_thread_eos: true, ..self },
                RelayAction::Forward,
            ),
            BusMessage::GateProgress => (self, RelayAction::Report(self.output_type)),
            BusMessage::Other => (
                self,
                if self.test_switch_sink_enable {
                    RelayAction::Suppress
                } else {
                    RelayAction::Forward
                },
            ),
        }
    }

    /// Switching the toggling test on or off: it enables the worker and
    /// keeps back messages together.
    pub open spec fn set_test_switch_sink(self, enabled: bool) -> BinModel {
        BinModel { test_switch_sink: enabled, test_switch_sink_enable: enabled, ..self }
    }

    /// Choosing the reporter.
    pub open spec fn set_output_type(self, output: UnifiedSinkBinOutput) -> BinModel {
        BinModel { output_type: output, ..self }
    }

    /// Choosing the reporter by its number. A number that stands for no
    /// reporter changes nothing.
    pub open spec fn set_output_value(self, raw: u32) -> BinModel {
        match UnifiedSinkBinOutput::spec_from_value(raw) {
            Some(output) => self.set_output_type(output),
            None => self,
        }
    }

    /// What the host does once, when the bin has been created: the valve and
    /// the converter join the bin and are linked, a terminal stage that is
    /// bound joins behind them, and the input pad of the bin is set up.
    pub open spec fn constructed(self) -> Seq<GraphOp> {
        seq![
            GraphOp::Attach(Stage::Gate),
            GraphOp::Attach(Stage::Converter),
            GraphOp::Link(Stage::Gate, Stage::Converter),
        ] + (if self.bound {
            seq![GraphOp::Attach(Stage::Terminal), GraphOp::Link(Stage::Converter, Stage::Terminal)]
        } else {
            Seq::empty()
        }) + seq![GraphOp::TargetPad, GraphOp::ActivatePad, GraphOp::AddPad]
    }

    /// What the host does when the bin is torn down, in this order and
    /// whatever fails: the input pad goes, then the valve, the converter and
    /// the terminal stage that the host holds are stopped and detached.
    pub open spec fn teardown(self) -> Seq<GraphOp> {
        seq![
            GraphOp::DeactivatePad,
            GraphOp::RemovePad,
            GraphOp::Stop(Stage::Gate),
            GraphOp::Detach(Stage::Gate),
            GraphOp::Stop(Stage::Converter),
            GraphOp::Detach(Stage::Converter),
        ] + (if self.holds_node() {
            seq![GraphOp::Stop(Stage::Terminal), GraphOp::Detach(Stage::Terminal)]
        } else {
            Seq::empty()
        })
    }

    /// The state after the bin was torn down: nothing is bound, nothing is
    /// under way.
    pub open spec fn disposed(self) -> BinModel {
        BinModel { staged: None, bound: false, phase: Phase::Idle, ..self }
    }

    /// The states that a controller can be in. While nothing is under way no
    /// selection is staged; a bound stage is there only while the flow is
    /// open or while the swap is taking it out; the new stage is handled
    /// only while the flow is halted.
    pub open spec fn inv(self) -> bool {
        &&& self.selected.wf()
        &&& (self.staged matches Some(node) ==> node.wf())
        &&& match self.phase {
            Phase::Idle => self.staged is None && (self.bound ==> !self.blocking),
            Phase::ClosingGate => self.bound ==> !self.blocking,
            Phase::StoppingOld => self.bound && self.blocking,
            Phase::DetachingOld => self.bound && self.blocking,
            Phase::StartingToggler => self.staged is None && (self.bound ==> !self.blocking)
                && self.test_thread_start,
            Phase::JoiningToggler => self.staged is None && (self.bound ==> !self.blocking)
                && self.test_thread_start,
            _ => self.staged is None && !self.bound && self.blocking,
        }
    }
}

} // verus!
