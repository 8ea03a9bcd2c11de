//! The worker that toggles the terminal stage at a fixed interval, for
//! testing: what it does each time it is asked.

use crate::controller::UnifiedSinkBin;
use crate::render::{GstUnifiedSinkRenderType, DEFAULT_RENDER_TYPE};
use vstd::prelude::*;

verus! {

/// The seconds that the worker sleeps between two requests.
pub const SINK_SWITCH_INTERVAL: u64 = 5;

/// Where the worker stands in its loop.
#[derive(Debug, Eq, PartialEq, Hash, Clone, Copy, Structural)]
pub enum TogglerPhase {
    /// The worker is about to sleep.
    Awake,
    /// The worker has slept and is about to request a kind.
    Rested,
    /// The worker has ended.
    Ended,
}

/// What the worker does next.
#[derive(Debug, Eq, PartialEq, Hash, Clone, Copy, Structural)]
pub enum TogglerStep {
    /// Sleep for the seconds given, then ask again.
    Sleep(u64),
    /// Request the kind given through the reconfiguration entry point,
    /// whatever comes of it, then ask again.
    Reconfigure(GstUnifiedSinkRenderType),
    /// Leave the loop.
    Exit,
}

/// The state of the worker.
#[derive(Debug, Eq, PartialEq, Hash, Clone, Copy, Structural)]
pub struct Toggler {
    /// Whether the next request goes back to the default kind.
    pub switch_sink: bool,
    /// Where the worker stands in its loop.
    pub phase: TogglerPhase,
}

/// Whether the controller, as far as the worker can still reach it, has the
/// worker end: a controller that is gone does, and so does one that has seen
/// the end of the stream or is waiting for the worker.
pub open spec fn controller_halts(bin: Option<&UnifiedSinkBin>) -> bool {
    match bin {
        Some(bin) => bin@.toggler_halted(),
        None => true,
    }
}

impl Toggler {
    /// The state in which the worker starts: awake, with the file capture
    /// as its first request.
    pub open spec fn spec_new() -> Toggler {
        Toggler { switch_sink: false, phase: TogglerPhase::Awake }
    }

    /// The kind that the next request asks for: the file capture and the
    /// default kind in turn.
    pub open spec fn spec_next_kind(self) -> GstUnifiedSinkRenderType {
        if self.switch_sink {
            DEFAULT_RENDER_TYPE
        } else {
            GstUnifiedSinkRenderType::GstUnifiedsinkRenderTypeFile
        }
    }

    /// One turn of the loop. A worker that has ended, or that is told to
    /// halt, ends. Else it sleeps if it is awake, and requests the next kind
    /// if it has slept.
    pub open spec fn spec_poll(self, halted: bool) -> (Toggler, TogglerStep) {
        if halted || self.phase == TogglerPhase::Ended {
            (Toggler { phase: TogglerPhase::Ended, ..self }, TogglerStep::Exit)
        } else if self.phase == TogglerPhase::Awake {
            (
                Toggler { phase: TogglerPhase::Rested, ..self },
                TogglerStep::Sleep(SINK_SWITCH_INTERVAL),
            )
        } else {
            (
                Toggler { switch_sink: !self.switch_sink, phase: TogglerPhase::Awake },
                TogglerStep::Reconfigure(self.spec_next_kind()),
            )
        }
    }

    /// The state after one turn for each entry of `halts`, in order.
    pub open spec fn spec_poll_all(self, halts: Seq<bool>) -> Toggler
        decreases halts.len(),
    {
        if halts.len() == 0 {
            self
        } else {
            self.spec_poll(halts[0]).0.spec_poll_all(halts.drop_first())
        }
    }

    /// The state after `rounds` undisturbed rounds, each a sleep and a
    /// request.
    pub open spec fn spec_after_rounds(self, rounds: nat) -> Toggler
        decreases rounds,
    {
        if rounds == 0 {
            self
        } else {
            self.spec_poll(false).0.spec_poll(false).0.spec_after_rounds((rounds - 1) as nat)
        }
    }

    /// The worker as it starts: awake, with the file capture as its first
    /// request.
    pub fn new() -> (toggler: Toggler)
        ensures
            toggler == Toggler::spec_new(),
    {
        Toggler { switch_sink: false, phase: TogglerPhase::Awake }
    }

    /// Whether the worker has ended.
    pub fn has_ended(&self) -> (ended: bool)
        ensures
            ended == (self.phase == TogglerPhase::Ended),
    {
        self.phase == TogglerPhase::Ended
    }

    /// One turn of the loop; the worker asks before and after each sleep.
    ///
    /// `bin` is the controller if the worker can still reach it. The worker
    /// ends, and stays ended, once the controller is gone, has seen the end
    /// of the stream, or waits for the worker. Else the worker sleeps for
    /// the fixed interval if it is awake, and if it has slept it requests
    /// the file capture and the default kind in turn.
    pub fn poll(&mut self, bin: Option<&UnifiedSinkBin>) -> (step: TogglerStep)
        ensures
            (*final(self), step) == old(self).spec_poll(controller_halts(bin)),
    {
        let halted = match bin {
            Some(bin) => bin.toggler_halted(),
            None => true,
        };
        if halted || self.phase == TogglerPhase::Ended {
            self.phase = TogglerPhase::Ended;
            TogglerStep::Exit
        } else if self.phase == TogglerPhase::Awake {
            self.phase = TogglerPhase::Rested;
            TogglerStep::Sleep(SINK_SWITCH_INTERVAL)
        } else {
            let kind = if self.switch_sink {
                DEFAULT_RENDER_TYPE
            } else {
                GstUnifiedSinkRenderType::GstUnifiedsinkRenderTypeFile
            };
            self.switch_sink = !self.switch_sink;
            self.phase = TogglerPhase::Awake;
            TogglerStep::Reconfigure(kind)
        }
    }
}

} // verus!
