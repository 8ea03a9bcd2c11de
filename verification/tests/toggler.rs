use unifiedsinkbin::{
    BusMessage, GraphOp, GstUnifiedSinkRenderType, OpOutcome, StateChange, Step, Toggler,
    TogglerPhase, TogglerStep, UnifiedSinkBin, DEFAULT_RENDER_TYPE, SINK_SWITCH_INTERVAL,
};

const FILE: GstUnifiedSinkRenderType = GstUnifiedSinkRenderType::GstUnifiedsinkRenderTypeFile;

fn settle(bin: &mut UnifiedSinkBin, first: Step) -> Step {
    let mut step = first;
    while let Step::Perform(_) = step {
        step = bin.resume(OpOutcome::Succeeded);
    }
    step
}

fn playing_bin() -> UnifiedSinkBin {
    let mut bin = UnifiedSinkBin::new();
    bin.set_test_switch_sink(true);
    let first = bin.change_state(StateChange::ReadyToPaused);
    assert_eq!(settle(&mut bin, first), Step::Done);
    let first = bin.change_state(StateChange::PausedToPlaying);
    assert_eq!(first, Step::Perform(GraphOp::StartToggler));
    assert_eq!(settle(&mut bin, first), Step::Done);
    bin
}

#[test]
fn interval_is_five_seconds() {
    assert_eq!(SINK_SWITCH_INTERVAL, 5);
}

#[test]
fn new_worker_is_awake_and_starts_with_the_capture() {
    let toggler = Toggler::new();
    assert_eq!(toggler, Toggler { switch_sink: false, phase: TogglerPhase::Awake });
    assert!(!toggler.has_ended());
}

#[test]
fn worker_alternates_kinds_on_the_fixed_interval() {
    let mut bin = playing_bin();
    let mut toggler = Toggler::new();
    let mut requested = Vec::new();
    for _ in 0..6 {
        assert_eq!(toggler.poll(Some(&bin)), TogglerStep::Sleep(5));
        match toggler.poll(Some(&bin)) {
            TogglerStep::Reconfigure(kind) => {
                let first = bin.set_render_type(kind);
                assert_eq!(settle(&mut bin, first), Step::Done);
                assert_eq!(bin.video_sink().map(|node| node.kind), Some(kind));
                requested.push(kind);
            }
            other => panic!("the worker did not request a kind: {:?}", other),
        }
    }
    assert_eq!(
        requested,
        vec![FILE, DEFAULT_RENDER_TYPE, FILE, DEFAULT_RENDER_TYPE, FILE, DEFAULT_RENDER_TYPE]
    );
    assert_eq!(DEFAULT_RENDER_TYPE, GstUnifiedSinkRenderType::GstUnifiedsinkRenderTypeGraphic);
}

#[test]
fn worker_goes_on_when_a_request_fails() {
    let mut bin = playing_bin();
    let mut toggler = Toggler::new();
    assert_eq!(toggler.poll(Some(&bin)), TogglerStep::Sleep(5));
    assert_eq!(toggler.poll(Some(&bin)), TogglerStep::Reconfigure(FILE));
    let mut step = bin.set_render_type(FILE);
    while step != Step::Perform(GraphOp::Build) {
        step = bin.resume(OpOutcome::Succeeded);
    }
    assert!(matches!(bin.resume(OpOutcome::Failed), Step::Failed(_)));
    assert_eq!(toggler.poll(Some(&bin)), TogglerStep::Sleep(5));
    assert_eq!(toggler.poll(Some(&bin)), TogglerStep::Reconfigure(DEFAULT_RENDER_TYPE));
}

#[test]
fn worker_stops_at_the_first_turn_after_cancellation() {
    let mut bin = playing_bin();
    let mut toggler = Toggler::new();
    assert_eq!(toggler.poll(Some(&bin)), TogglerStep::Sleep(5));
    assert_eq!(
        bin.change_state(StateChange::PlayingToPaused),
        Step::Perform(GraphOp::JoinToggler)
    );
    assert_eq!(toggler.poll(Some(&bin)), TogglerStep::Exit);
    assert!(toggler.has_ended());
    assert_eq!(bin.resume(OpOutcome::Succeeded), Step::Done);
    assert!(!bin.toggler_running());
}

#[test]
fn worker_checks_before_it_sleeps() {
    let mut bin = playing_bin();
    let mut toggler = Toggler::new();
    let _ = bin.change_state(StateChange::PlayingToPaused);
    assert_eq!(toggler.poll(Some(&bin)), TogglerStep::Exit);
}

#[test]
fn ended_worker_never_requests_again() {
    let mut bin = playing_bin();
    let mut toggler = Toggler::new();
    let _ = bin.change_state(StateChange::PlayingToPaused);
    assert_eq!(toggler.poll(Some(&bin)), TogglerStep::Exit);
    assert_eq!(bin.resume(OpOutcome::Succeeded), Step::Done);
    assert!(!bin.toggler_halted());
    let ended = toggler;
    for _ in 0..5 {
        assert_eq!(toggler.poll(Some(&bin)), TogglerStep::Exit);
        assert_eq!(toggler, ended);
    }
}

#[test]
fn stream_end_halts_the_worker() {
    let mut bin = playing_bin();
    let mut toggler = Toggler::new();
    assert_eq!(toggler.poll(Some(&bin)), TogglerStep::Sleep(5));
    let _ = bin.handle_message(BusMessage::StreamEnd);
    assert_eq!(toggler.poll(Some(&bin)), TogglerStep::Exit);
    assert!(toggler.has_ended());
}

#[test]
fn stream_end_is_not_forgotten_by_later_swaps() {
    let mut bin = playing_bin();
    let _ = bin.handle_message(BusMessage::StreamEnd);
    let first = bin.set_render_type(FILE);
    assert_eq!(settle(&mut bin, first), Step::Done);
    assert!(bin.stream_ended());
    let mut toggler = Toggler::new();
    assert_eq!(toggler.poll(Some(&bin)), TogglerStep::Exit);
}

#[test]
fn worker_exits_when_the_controller_is_gone() {
    let mut toggler = Toggler::new();
    assert_eq!(toggler.poll(None), TogglerStep::Exit);
    assert!(toggler.has_ended());
    let bin = UnifiedSinkBin::new();
    assert_eq!(toggler.poll(Some(&bin)), TogglerStep::Exit);
}
