//! The reconfiguration core of a sink bin whose terminal stage can be swapped
//! while the pipeline runs.
//!
//! The bin holds a valve, a converter and a terminal stage. The terminal
//! stage is one of four kinds, and it can be replaced at any time: the flow
//! is halted at the valve, the bound stage is stopped and detached, the new
//! one is built, attached, linked and brought to the run state of the bin,
//! and the flow is resumed.
//!
//! The library decides; the host acts. [`UnifiedSinkBin`] is the controller.
//! A request or a transition of the pipeline returns a [`Step`]: either an
//! operation on the graph that the host performs, handing its outcome to
//! [`UnifiedSinkBin::resume`] for the next step, or the end of the request.
//! The host holds the controller behind one lock for as long as a request is
//! under way, so that a swap is never interleaved with another.
//!
//! [`Toggler`] is the decision part of a worker that requests the file
//! capture and the default kind in turn, for testing the swap.
//!
//! Every executable function is held to a state machine over plain values
//! ([`BinModel`]); the modules under `laws` prove what holds of that machine
//! against a model of the graph ([`HostModel`]).

pub mod controller;
pub mod host;
pub mod laws;
pub mod model;
pub mod protocol;
pub mod render;
pub mod sink;
pub mod toggler;

pub use controller::UnifiedSinkBin;
pub use host::HostModel;
pub use model::BinModel;
pub use protocol::{
    BusMessage, GraphOp, OpOutcome, Phase, PipelineState, QueryAction, QueryKind, RelayAction,
    Stage, StateChange, Step, SwitchError,
};
pub use render::{
    GstUnifiedSinkRenderType, UnifiedSinkBinOutput, DEFAULT_OUTPUT_TYPE, DEFAULT_RENDER_TYPE,
};
pub use sink::{
    FileSinkConfig, FileSinkModel, NodeModel, PropertySetting, PropertyValue, SettingModel,
    TerminalNode, ValueModel,
};
pub use toggler::{Toggler, TogglerPhase, TogglerStep, SINK_SWITCH_INTERVAL};
