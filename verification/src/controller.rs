//! The controller of the bin: the executable state machine, held to the
//! model step by step.

use crate::model::BinModel;
use crate::protocol::{
    BusMessage, GraphOp, OpOutcome, Phase, RelayAction, Stage, StateChange, Step, SwitchError,
};
use crate::render::{
    GstUnifiedSinkRenderType, UnifiedSinkBinOutput, DEFAULT_OUTPUT_TYPE, DEFAULT_RENDER_TYPE,
};
use crate::sink::{FileSinkConfig, FileSinkModel, NodeModel, TerminalNode};
use vstd::prelude::*;

verus! {

/// The controller of the bin. It owns the whole state that a swap of the
/// terminal stage reads and writes, so that exclusive access to it is
/// exclusive access to the swap.
#[derive(Debug, PartialEq, Eq)]
pub struct UnifiedSinkBin {
    selected: TerminalNode,
    staged: Option<TerminalNode>,
    bound: bool,
    blocking: bool,
    phase: Phase,
    output_type: UnifiedSinkBinOutput,
    test_switch_sink: bool,
    test_switch_sink_enable: bool,
    test_thread_start: bool,
    test_thread_eos: bool,
}

impl View for UnifiedSinkBin {
    type V = BinModel;

    closed spec fn view(&self) -> BinModel {
        BinModel {
            selected: self.selected@,
            staged: match self.staged {
                Some(node) => Some(node@),
                None => None,
            },
            bound: self.bound,
            blocking: self.blocking,
            phase: self.phase,
            output_type: self.output_type,
            test_switch_sink: self.test_switch_sink,
            test_switch_sink_enable: self.test_switch_sink_enable,
            test_thread_start: self.test_thread_start,
            test_thread_eos: self.test_thread_eos,
        }
    }
}

impl Clone for UnifiedSinkBin {
    /// A copy in the same state.
    fn clone(&self) -> (copy: UnifiedSinkBin)
        ensures
            copy@ == self@,
    {
        let staged = match &self.staged {
            Some(node) => Some(node.clone()),
            None => None,
        };
        UnifiedSinkBin {
            selected: self.selected.clone(),
            staged,
            bound: self.bound,
            blocking: self.blocking,
            phase: self.phase,
            output_type: self.output_type,
            test_switch_sink: self.test_switch_sink,
            test_switch_sink_enable: self.test_switch_sink_enable,
            test_thread_start: self.test_thread_start,
            test_thread_eos: self.test_thread_eos,
        }
    }
}

impl UnifiedSinkBin {
    /// A new controller: the default kind is selected and not yet built, the
    /// flow is open, nothing is under way.
    pub fn new() -> (bin: UnifiedSinkBin)
        ensures
            bin@ == BinModel::initial(),
            bin@.inv(),
    {
        UnifiedSinkBin {
            selected: TerminalNode::build(DEFAULT_RENDER_TYPE, FileSinkConfig::default_capture()),
            staged: None,
            bound: false,
            blocking: false,
            phase: Phase::Idle,
            output_type: DEFAULT_OUTPUT_TYPE,
            test_switch_sink: false,
            test_switch_sink_enable: false,
            test_thread_start: false,
            test_thread_eos: false,
        }
    }

    fn adopt(&mut self)
        ensures
            final(self)@ == old(self)@.adopt(),
    {
        match self.staged.take() {
            Some(node) => {
                self.selected = node;
            },
            None => {},
        }
        self.bound = false;
    }

    fn begin_swap(&mut self, staged: Option<TerminalNode>) -> (step: Step)
        ensures
            (final(self)@, step) == old(self)@.begin_swap(
                match staged {
                    Some(node) => Some(node@),
                    None => None,
                },
            ),
    {
        self.staged = staged;
        self.phase = Phase::ClosingGate;
        Step::Perform(GraphOp::SetBlocking(true))
    }

    fn proceed(&mut self, phase: Phase, op: GraphOp) -> (step: Step)
        ensures
            (final(self)@, step) == old(self)@.proceed(phase, op),
    {
        self.phase = phase;
        Step::Perform(op)
    }

    fn give_up(&mut self, error: SwitchError) -> (step: Step)
        ensures
            (final(self)@, step) == old(self)@.give_up(error),
    {
        self.phase = Phase::Idle;
        Step::Failed(error)
    }

    /// The reconfiguration entry point: a request for the terminal stage of
    /// the given kind, a file capture with the settings given.
    ///
    /// While another operation is under way the request is refused with
    /// `ConcurrentAccess`. A request for the kind that is current changes
    /// nothing and asks for nothing. Any other request starts the swap
    /// protocol, whose first operation is returned.
    pub fn reconfigure(
        &mut self,
        kind: GstUnifiedSinkRenderType,
        config: FileSinkConfig,
    ) -> (step: Step)
        ensures
            (final(self)@, step) == old(self)@.reconfigure(NodeModel::build(kind, config@)),
            old(self)@.inv() ==> final(self)@.inv(),
    {
        if self.phase != Phase::Idle {
            Step::Failed(SwitchError::ConcurrentAccess)
        } else if kind == self.selected.kind {
            Step::Done
        } else {
            self.begin_swap(Some(TerminalNode::build(kind, config)))
        }
    }

    /// A request for the terminal stage of the given kind, a file capture
    /// with the default settings.
    pub fn set_render_type(&mut self, kind: GstUnifiedSinkRenderType) -> (step: Step)
        ensures
            (final(self)@, step) == old(self)@.reconfigure(
                NodeModel::build(kind, FileSinkModel::default_capture()),
            ),
            old(self)@.inv() ==> final(self)@.inv(),
    {
        self.reconfigure(kind, FileSinkConfig::default_capture())
    }

    /// A request by the number of a kind, as the host framework hands it in.
    /// A number that stands for no kind is refused with `UnsupportedKind`
    /// and changes nothing.
    pub fn set_render_type_value(&mut self, raw: u32) -> (step: Step)
        ensures
            (final(self)@, step) == old(self)@.reconfigure_value(
                raw,
                FileSinkModel::default_capture(),
            ),
            old(self)@.inv() ==> final(self)@.inv(),
    {
        match GstUnifiedSinkRenderType::from_value(raw) {
            Some(kind) => self.set_render_type(kind),
            None => Step::Failed(SwitchError::UnsupportedKind),
        }
    }

    /// A transition of the pipeline, before the host hands it on to the
    /// stages.
    ///
    /// Entering `Paused` starts the swap protocol for the selected terminal
    /// stage where none is bound, and a failure of it fails the transition.
    /// Entering `Playing` asks for the toggling worker where it is enabled
    /// and not running. Leaving `Playing` asks the host to wait for the
    /// worker where it is running, and tells the worker to end. The other
    /// transitions ask for nothing. While another operation is under way the
    /// transition is refused with `ConcurrentAccess`.
    pub fn change_state(&mut self, transition: StateChange) -> (step: Step)
        ensures
            (final(self)@, step) == old(self)@.change_state(transition),
            old(self)@.inv() ==> final(self)@.inv(),
    {
        if self.phase != Phase::Idle {
            return Step::Failed(SwitchError::ConcurrentAccess);
        }
        match transition {
            StateChange::ReadyToPaused => {
                if self.bound {
                    Step::Done
                } else {
                    self.begin_swap(None)
                }
            },
            StateChange::PausedToPlaying => {
                if self.test_switch_sink && !self.test_thread_start {
                    self.test_thread_start = true;
                    self.proceed(Phase::StartingToggler, GraphOp::StartToggler)
                } else {
                    Step::Done
                }
            },
            StateChange::PlayingToPaused => {
                if self.test_thread_start {
                    self.proceed(Phase::JoiningToggler, GraphOp::JoinToggler)
                } else {
                    Step::Done
                }
            },
            _ => Step::Done,
        }
    }

    /// The outcome of the operation that the last step asked for: the
    /// controller takes the next step of what is under way.
    ///
    /// The swap protocol halts the flow, stops and detaches the bound stage
    /// if there is one, has the selected stage built, attaches it, links it
    /// to the converter, brings it to the run state of the bin, records it
    /// as bound and resumes the flow. A failure ends the swap with nothing
    /// bound and the flow halted, and the error is returned; after the build
    /// the new stage is first stopped and detached again. The outcomes of
    /// halting and resuming the flow and of stopping a stage are not looked
    /// at. While nothing is under way, nothing changes.
    pub fn resume(&mut self, outcome: OpOutcome) -> (step: Step)
        ensures
            (final(self)@, step) == old(self)@.resume(outcome),
            old(self)@.inv() ==> final(self)@.inv(),
    {
        let ok = outcome == OpOutcome::Succeeded;
        match self.phase {
            Phase::Idle => Step::Done,
            Phase::ClosingGate => {
                self.blocking = true;
                if self.bound {
                    self.proceed(Phase::StoppingOld, GraphOp::Stop(Stage::Terminal))
                } else {
                    self.adopt();
                    self.proceed(Phase::Building, GraphOp::Build)
                }
            },
            Phase::StoppingOld => self.proceed(
                Phase::DetachingOld,
                GraphOp::Detach(Stage::Terminal),
            ),
            Phase::DetachingOld => {
                self.adopt();
                if ok {
                    self.proceed(Phase::Building, GraphOp::Build)
                } else {
                    self.give_up(SwitchError::LinkFailed)
                }
            },
            Phase::Building => {
                if ok {
                    self.proceed(Phase::Attaching, GraphOp::Attach(Stage::Terminal))
                } else {
                    self.give_up(SwitchError::ConstructionFailed)
                }
            },
            Phase::Attaching => {
                if ok {
                    self.proceed(Phase::Linking, GraphOp::Link(Stage::Converter, Stage::Terminal))
                } else {
                    self.proceed(
                        Phase::StoppingNew(SwitchError::LinkFailed),
                        GraphOp::Stop(Stage::Terminal),
                    )
                }
            },
            Phase::Linking => {
                if ok {
                    self.proceed(Phase::Syncing, GraphOp::SyncState(Stage::Terminal))
                } else {
                    self.proceed(
                        Phase::StoppingNew(SwitchError::LinkFailed),
                        GraphOp::Stop(Stage::Terminal),
                    )
                }
            },
            Phase::Syncing => {
                if ok {
                    self.proceed(Phase::OpeningGate, GraphOp::SetBlocking(false))
                } else {
                    self.proceed(
                        Phase::StoppingNew(SwitchError::StateTransitionFailed),
                        GraphOp::Stop(Stage::Terminal),
                    )
                }
            },
            Phase::OpeningGate => {
                self.bound = true;
                self.blocking = false;
                self.phase = Phase::Idle;
                Step::Done
            },
            Phase::StoppingNew(error) => self.proceed(
                Phase::DetachingNew(error),
                GraphOp::Detach(Stage::Terminal),
            ),
            Phase::DetachingNew(error) => self.give_up(error),
            Phase::StartingToggler => {
                self.test_thread_start = ok;
                self.phase = Phase::Idle;
                Step::Done
            },
            Phase::JoiningToggler => {
                self.test_thread_start = false;
                self.phase = Phase::Idle;
                Step::Done
            },
        }
    }

    /// A message from one of the stages.
    ///
    /// The end of the stream is recorded for the toggling worker and is
    /// always handed on. A progress report of the valve goes to the reporter
    /// that is configured, whatever kind of terminal stage is current. Any
    /// other message is handed on, unless the toggling test is switched on:
    /// then it is dropped.
    pub fn handle_message(&mut self, message: BusMessage) -> (action: RelayAction)
        ensures
            (final(self)@, action) == old(self)@.handle_message(message),
            old(self)@.inv() ==> final(self)@.inv(),
    {
        match message {
            BusMessage::StreamEnd => {
                self.test_thread_eos = true;
                RelayAction::Forward
            },
            BusMessage::GateProgress => RelayAction::Report(self.output_type),
            BusMessage::Other => {
                if self.test_switch_sink_enable {
                    RelayAction::Suppress
                } else {
                    RelayAction::Forward
                }
            },
        }
    }

    /// Switches the toggling test on or off: the worker is enabled, and
    /// messages other than the end of the stream are kept back, together.
    pub fn set_test_switch_sink(&mut self, enabled: bool)
        ensures
            final(self)@ == old(self)@.set_test_switch_sink(enabled),
            old(self)@.inv() ==> final(self)@.inv(),
    {
        self.test_switch_sink = enabled;
        self.test_switch_sink_enable = enabled;
    }

    /// Chooses the reporter of progress reports.
    pub fn set_output_type(&mut self, output: UnifiedSinkBinOutput)
        ensures
            final(self)@ == old(self)@.set_output_type(output),
            old(self)@.inv() ==> final(self)@.inv(),
    {
        self.output_type = output;
    }

    /// Chooses the reporter by its number, as the host framework hands it
    /// in. A number that stands for no reporter is refused and changes
    /// nothing.
    pub fn set_output_type_value(&mut self, raw: u32) -> (accepted: bool)
        ensures
            final(self)@ == old(self)@.set_output_value(raw),
            accepted == (UnifiedSinkBinOutput::spec_from_value(raw) is Some),
            old(self)@.inv() ==> final(self)@.inv(),
    {
        match UnifiedSinkBinOutput::from_value(raw) {
            Some(output) => {
                self.output_type = output;
                true
            },
            None => false,
        }
    }

    /// What the host does once, when the bin has been created: the valve and
    /// the converter join the bin and are linked, a terminal stage that is
    /// bound joins behind them, and the input pad of the bin is set up.
    pub fn constructed(&self) -> (ops: Vec<GraphOp>)
        ensures
            ops@ == self@.constructed(),
    {
        let mut ops: Vec<GraphOp> = Vec::new();
        ops.push(GraphOp::Attach(Stage::Gate));
        ops.push(GraphOp::Attach(Stage::Converter));
        ops.push(GraphOp::Link(Stage::Gate, Stage::Converter));
        if self.bound {
            ops.push(GraphOp::Attach(Stage::Terminal));
            ops.push(GraphOp::Link(Stage::Converter, Stage::Terminal));
        }
        ops.push(GraphOp::TargetPad);
        ops.push(GraphOp::ActivatePad);
        ops.push(GraphOp::AddPad);
        assert(ops@ =~= self@.constructed());
        ops
    }

    /// Tears the bin down. The operations are returned in the order in which
    /// the host performs them, going on whatever fails: the input pad goes,
    /// then the valve, the converter and the terminal stage that the host
    /// holds are stopped and detached, so that no stage stays a member of
    /// the bin. After it nothing is bound and nothing is under way.
    pub fn dispose(&mut self) -> (ops: Vec<GraphOp>)
        ensures
            ops@ == old(self)@.teardown(),
            final(self)@ == old(self)@.disposed(),
            old(self)@.inv() ==> final(self)@.inv(),
    {
        let mut ops: Vec<GraphOp> = Vec::new();
        ops.push(GraphOp::DeactivatePad);
        ops.push(GraphOp::RemovePad);
        ops.push(GraphOp::Stop(Stage::Gate));
        ops.push(GraphOp::Detach(Stage::Gate));
        ops.push(GraphOp::Stop(Stage::Converter));
        ops.push(GraphOp::Detach(Stage::Converter));
        if self.holds_node() {
            ops.push(GraphOp::Stop(Stage::Terminal));
            ops.push(GraphOp::Detach(Stage::Terminal));
        }
        assert(ops@ =~= self@.teardown());
        self.staged = None;
        self.bound = false;
        self.phase = Phase::Idle;
        ops
    }

    /// The kind of terminal stage that is current.
    pub fn render_type(&self) -> (kind: GstUnifiedSinkRenderType)
        ensures
            kind == self@.render_type(),
    {
        self.selected.kind
    }

    /// The terminal stage that is selected: the one that is bound, or the
    /// one that the host builds when it is asked to.
    pub fn selected(&self) -> (node: &TerminalNode)
        ensures
            node@ == self@.selected,
    {
        &self.selected
    }

    /// The terminal stage that is bound, if one is.
    pub fn video_sink(&self) -> (node: Option<&TerminalNode>)
        ensures
            node is Some <==> self@.video_sink() is Some,
            node matches Some(bound) ==> self@.video_sink() == Some(bound@),
    {
        if self.bound {
            Some(&self.selected)
        } else {
            None
        }
    }

    /// Whether the host holds a terminal stage that the controller has not
    /// let go of.
    pub fn holds_node(&self) -> (held: bool)
        ensures
            held == self@.holds_node(),
    {
        self.bound || match self.phase {
            Phase::Attaching => true,
            Phase::Linking => true,
            Phase::Syncing => true,
            Phase::OpeningGate => true,
            Phase::StoppingNew(_) => true,
            Phase::DetachingNew(_) => true,
            _ => false,
        }
    }

    /// Whether the flow into the bin is halted.
    pub fn is_blocking(&self) -> (blocking: bool)
        ensures
            blocking == self@.blocking,
    {
        self.blocking
    }

    /// How far the operation under way has come.
    pub fn phase(&self) -> (phase: Phase)
        ensures
            phase == self@.phase,
    {
        self.phase
    }

    /// Which reporter receives the progress reports.
    pub fn output_type(&self) -> (output: UnifiedSinkBinOutput)
        ensures
            output == self@.output_type,
    {
        self.output_type
    }

    /// Whether the toggling test is switched on.
    pub fn test_switch_sink(&self) -> (enabled: bool)
        ensures
            enabled == self@.test_switch_sink,
    {
        self.test_switch_sink
    }

    /// Whether the toggling worker is running.
    pub fn toggler_running(&self) -> (running: bool)
        ensures
            running == self@.test_thread_start,
    {
        self.test_thread_start
    }

    /// Whether the end of the stream has been seen.
    pub fn stream_ended(&self) -> (ended: bool)
        ensures
            ended == self@.test_thread_eos,
    {
        self.test_thread_eos
    }

    /// Whether the toggling worker has to end: the stream has ended, or the
    /// controller is waiting for the worker.
    pub fn toggler_halted(&self) -> (halted: bool)
        ensures
            halted == self@.toggler_halted(),
    {
        self.test_thread_eos || self.phase == Phase::JoiningToggler
    }
}

} // verus!
