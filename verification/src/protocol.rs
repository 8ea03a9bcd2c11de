//! The vocabulary between the controller and the host: the operations that
//! the controller asks for, what the host reports of each, and the states of
//! the pipeline around them.

use vstd::prelude::*;

verus! {

/// One of the three stages of the bin, in the order of the flow.
#[derive(Debug, Eq, PartialEq, Hash, Clone, Copy, Structural)]
pub enum Stage {
    /// The valve that halts and resumes the flow.
    Gate,
    /// The converter between the valve and the terminal stage.
    Converter,
    /// The swappable stage that consumes the stream.
    Terminal,
}

/// An operation on the graph that the host performs for the controller.
#[derive(Debug, Eq, PartialEq, Hash, Clone, Copy, Structural)]
pub enum GraphOp {
    /// Halt (`true`) or resume (`false`) the flow into the bin.
    SetBlocking(bool),
    /// Build the terminal stage that the controller has selected, with its
    /// settings, from its factory.
    Build,
    /// Make a stage a member of the bin.
    Attach(Stage),
    /// Link the output of the first stage to the input of the second.
    Link(Stage, Stage),
    /// Bring a stage to the run state of the bin.
    SyncState(Stage),
    /// Bring a stage to its stopped state.
    Stop(Stage),
    /// Take a stage out of the bin, which unlinks it, and let go of it.
    Detach(Stage),
    /// Point the bin's input pad at the input of the valve.
    TargetPad,
    /// Activate the bin's input pad.
    ActivatePad,
    /// Make the input pad a pad of the bin.
    AddPad,
    /// Deactivate the bin's input pad.
    DeactivatePad,
    /// Take the input pad from the bin.
    RemovePad,
    /// Start the worker that toggles the terminal stage.
    StartToggler,
    /// Wait until the worker that toggles the terminal stage has ended.
    JoinToggler,
}

/// What the host reports of an operation that it was asked to perform.
#[derive(Debug, Eq, PartialEq, Hash, Clone, Copy, Structural)]
pub enum OpOutcome {
    /// The operation took effect.
    Succeeded,
    /// The operation was refused and changed nothing.
    Failed,
}

/// Why a reconfiguration or a transition did not take place.
#[derive(Debug, Eq, PartialEq, Hash, Clone, Copy, Structural)]
pub enum SwitchError {
    /// The requested number stands for no kind of terminal stage.
    UnsupportedKind,
    /// The factory could not build the requested terminal stage.
    ConstructionFailed,
    /// A stage could not be attached, linked or detached.
    LinkFailed,
    /// The new terminal stage refused the run state of the bin.
    StateTransitionFailed,
    /// Another operation of the controller is still under way.
    ConcurrentAccess,
}

/// What the controller wants next.
#[derive(Debug, Eq, PartialEq, Hash, Clone, Copy, Structural)]
pub enum Step {
    /// The host performs the operation and hands its outcome to `resume`.
    Perform(GraphOp),
    /// Nothing is left to do: the request is served.
    Done,
    /// The request was given up for the reason given.
    Failed(SwitchError),
}

/// How far the operation under way has come. Each phase but `Idle` waits for
/// the outcome of one operation.
#[derive(Debug, Eq, PartialEq, Hash, Clone, Copy, Structural)]
pub enum Phase {
    /// No operation is under way.
    Idle,
    /// The flow is being halted.
    ClosingGate,
    /// The outgoing terminal stage is being stopped.
    StoppingOld,
    /// The outgoing terminal stage is being detached.
    DetachingOld,
    /// The factory is building the selected terminal stage.
    Building,
    /// The new terminal stage is being attached.
    Attaching,
    /// The new terminal stage is being linked to the converter.
    Linking,
    /// The new terminal stage is being brought to the run state of the bin.
    Syncing,
    /// The flow is being resumed.
    OpeningGate,
    /// After the failure given, the new terminal stage is being stopped.
    StoppingNew(SwitchError),
    /// After the failure given, the new terminal stage is being detached.
    DetachingNew(SwitchError),
    /// The toggling worker is being started.
    StartingToggler,
    /// The toggling worker has been told to end and is being waited for.
    JoiningToggler,
}

/// The run state of the pipeline.
#[derive(Debug, Eq, PartialEq, Hash, Clone, Copy, Structural)]
pub enum PipelineState {
    Stopped,
    Ready,
    Paused,
    Playing,
}

/// A transition of the pipeline between two neighbouring run states.
#[derive(Debug, Eq, PartialEq, Hash, Clone, Copy, Structural)]
pub enum StateChange {
    StoppedToReady,
    ReadyToPaused,
    PausedToPlaying,
    PlayingToPaused,
    PausedToReady,
    ReadyToStopped,
}

/// A message that reaches the bin from one of its stages.
#[derive(Debug, Eq, PartialEq, Hash, Clone, Copy, Structural)]
pub enum BusMessage {
    /// The stream has ended.
    StreamEnd,
    /// The valve reports how much of the flow it has blocked.
    GateProgress,
    /// Any other message.
    Other,
}

/// What the bin does with a message.
#[derive(Debug, Eq, PartialEq, Hash, Clone, Copy, Structural)]
pub enum RelayAction {
    /// Hand the message on to the parent of the bin.
    Forward,
    /// Drop the message.
    Suppress,
    /// Hand the progress report to the reporter given.
    Report(crate::render::UnifiedSinkBinOutput),
}

/// A query that reaches the bin.
#[derive(Debug, Eq, PartialEq, Hash, Clone, Copy, Structural)]
pub enum QueryKind {
    /// A query for the position in the stream.
    Position,
    /// Any other query.
    Other,
}

/// What the bin does with a query.
#[derive(Debug, Eq, PartialEq, Hash, Clone, Copy, Structural)]
pub enum QueryAction {
    /// Answer that the query cannot be served.
    Refuse,
    /// Let the stages of the bin answer.
    Delegate,
}

impl QueryKind {
    /// The bin does not answer a query for the position; every other query
    /// goes to the stages.
    pub open spec fn spec_route(self) -> QueryAction {
        match self {
            QueryKind::Position => QueryAction::Refuse,
            QueryKind::Other => QueryAction::Delegate,
        }
    }

    /// What the bin does with a query of this kind: a query for the
    /// position is refused, every other query is left to the stages.
    pub fn route(self) -> (action: QueryAction)
        ensures
            action == self.spec_route(),
    {
        match self {
            QueryKind::Position => QueryAction::Refuse,
            QueryKind::Other => QueryAction::Delegate,
        }
    }
}

impl SwitchError {
    /// Whether the error is one that ends a swap under way, as against one
    /// that refuses a request before anything is done.
    pub open spec fn ends_swap(self) -> bool {
        self == SwitchError::ConstructionFailed || self == SwitchError::LinkFailed || self
            == SwitchError::StateTransitionFailed
    }
}

impl Phase {
    /// The most operations that can still follow, the pending one counted,
    /// before what is under way has ended.
    pub open spec fn steps_left(self) -> nat {
        match self {
            Phase::Idle => 0,
            Phase::ClosingGate => 9,
            Phase::StoppingOld => 8,
            Phase::DetachingOld => 7,
            Phase::Building => 6,
            Phase::Attaching => 5,
            Phase::Linking => 4,
            Phase::Syncing => 3,
            Phase::OpeningGate => 1,
            Phase::StoppingNew(_) => 2,
            Phase::DetachingNew(_) => 1,
            Phase::StartingToggler => 1,
            Phase::JoiningToggler => 1,
        }
    }

    /// The operation whose outcome the phase waits for.
    pub open spec fn pending(self) -> Option<GraphOp> {
        match self {
            Phase::Idle => None,
            Phase::ClosingGate => Some(GraphOp::SetBlocking(true)),
            Phase::StoppingOld => Some(GraphOp::Stop(Stage::Terminal)),
            Phase::DetachingOld => Some(GraphOp::Detach(Stage::Terminal)),
            Phase::Building => Some(GraphOp::Build),
            Phase::Attaching => Some(GraphOp::Attach(Stage::Terminal)),
            Phase::Linking => Some(GraphOp::Link(Stage::Converter, Stage::Terminal)),
            Phase::Syncing => Some(GraphOp::SyncState(Stage::Terminal)),
            Phase::OpeningGate => Some(GraphOp::SetBlocking(false)),
            Phase::StoppingNew(_) => Some(GraphOp::Stop(Stage::Terminal)),
            Phase::DetachingNew(_) => Some(GraphOp::Detach(Stage::Terminal)),
            Phase::StartingToggler => Some(GraphOp::StartToggler),
            Phase::JoiningToggler => Some(GraphOp::JoinToggler),
        }
    }
}

impl GraphOp {
    /// Whether the operation changes the terminal stage's place in the graph
    /// or its run state.
    pub open spec fn touches_terminal(self) -> bool {
        match self {
            GraphOp::Attach(stage) => stage == Stage::Terminal,
            GraphOp::Detach(stage) => stage == Stage::Terminal,
            GraphOp::Stop(stage) => stage == Stage::Terminal,
            GraphOp::SyncState(stage) => stage == Stage::Terminal,
            GraphOp::Link(from, to) => from == Stage::Terminal || to == Stage::Terminal,
            _ => false,
        }
    }
}

impl PipelineState {
    /// The place of the state in the linear order from `Stopped` to `Playing`.
    pub open spec fn spec_rank(self) -> int {
        match self {
            PipelineState::Stopped => 0,
            PipelineState::Ready => 1,
            PipelineState::Paused => 2,
            PipelineState::Playing => 3,
        }
    }
}

impl StateChange {
    /// The state that the transition leaves.
    pub open spec fn spec_origin(self) -> PipelineState {
        match self {
            StateChange::StoppedToReady => PipelineState::Stopped,
            StateChange::ReadyToPaused => PipelineState::Ready,
            StateChange::PausedToPlaying => PipelineState::Paused,
            StateChange::PlayingToPaused => PipelineState::Playing,
            StateChange::PausedToReady => PipelineState::Paused,
            StateChange::ReadyToStopped => PipelineState::Ready,
        }
    }

    /// The state that the transition enters.
    pub open spec fn spec_target(self) -> PipelineState {
        match self {
            StateChange::StoppedToReady => PipelineState::Ready,
            StateChange::ReadyToPaused => PipelineState::Paused,
            StateChange::PausedToPlaying => PipelineState::Playing,
            StateChange::PlayingToPaused => PipelineState::Paused,
            StateChange::PausedToReady => PipelineState::Ready,
            StateChange::ReadyToStopped => PipelineState::Stopped,
        }
    }

    /// The transition from one state to another: there is one exactly where
    /// the two are neighbours in the linear order.
    pub open spec fn spec_between(
        origin: PipelineState,
        target: PipelineState,
    ) -> Option<StateChange> {
        match (origin, target) {
            (PipelineState::Stopped, PipelineState::Ready) => Some(StateChange::StoppedToReady),
            (PipelineState::Ready, PipelineState::Paused) => Some(StateChange::ReadyToPaused),
            (PipelineState::Paused, PipelineState::Playing) => Some(StateChange::PausedToPlaying),
            (PipelineState::Playing, PipelineState::Paused) => Some(StateChange::PlayingToPaused),
            (PipelineState::Paused, PipelineState::Ready) => Some(StateChange::PausedToReady),
            (PipelineState::Ready, PipelineState::Stopped) => Some(StateChange::ReadyToStopped),
            _ => None,
        }
    }

    /// The state that the transition leaves.
    pub fn origin(self) -> (state: PipelineState)
        ensures
            state == self.spec_origin(),
    {
        match self {
            StateChange::StoppedToReady => PipelineState::Stopped,
            StateChange::ReadyToPaused => PipelineState::Ready,
            StateChange::PausedToPlaying => PipelineState::Paused,
            StateChange::PlayingToPaused => PipelineState::Playing,
            StateChange::PausedToReady => PipelineState::Paused,
            StateChange::ReadyToStopped => PipelineState::Ready,
        }
    }

    /// The state that the transition enters.
    pub fn target(self) -> (state: PipelineState)
        ensures
            state == self.spec_target(),
    {
        match self {
            StateChange::StoppedToReady => PipelineState::Ready,
            StateChange::ReadyToPaused => PipelineState::Paused,
            StateChange::PausedToPlaying => PipelineState::Playing,
            StateChange::PlayingToPaused => PipelineState::Paused,
            StateChange::PausedToReady => PipelineState::Ready,
            StateChange::ReadyToStopped => PipelineState::Stopped,
        }
    }

    /// The transition from `origin` to `target`, or `None` where the two are
    /// not neighbours: the pipeline moves one state at a time.
    pub fn between(origin: PipelineState, target: PipelineState) -> (change: Option<StateChange>)
        ensures
            change == Self::spec_between(origin, target),
    {
        match (origin, target) {
            (PipelineState::Stopped, PipelineState::Ready) => Some(StateChange::StoppedToReady),
            (PipelineState::Ready, PipelineState::Paused) => Some(StateChange::ReadyToPaused),
            (PipelineState::Paused, PipelineState::Playing) => Some(StateChange::PausedToPlaying),
            (PipelineState::Playing, PipelineState::Paused) => Some(StateChange::PlayingToPaused),
            (PipelineState::Paused, PipelineState::Ready) => Some(StateChange::PausedToReady),
            (PipelineState::Ready, PipelineState::Stopped) => Some(StateChange::ReadyToStopped),
            _ => None,
        }
    }
}

/// The pipeline moves between neighbours only: two states have a transition
/// between them exactly where their places in the linear order differ by
/// one, and that transition leaves the first and enters the second.
pub proof fn lemma_transitions_join_neighbours(origin: PipelineState, target: PipelineState)
    ensures
        StateChange::spec_between(origin, target) is Some <==> (origin.spec_rank()
            - target.spec_rank() == 1 || target.spec_rank() - origin.spec_rank() == 1),
        StateChange::spec_between(origin, target) matches Some(change) ==> change.spec_origin()
            == origin && change.spec_target() == target,
{
}

/// Every transition is the one between the state it leaves and the state it
/// enters.
pub proof fn lemma_transition_is_between_its_ends(change: StateChange)
    ensures
        StateChange::spec_between(change.spec_origin(), change.spec_target()) == Some(change),
{
}

} // verus!
