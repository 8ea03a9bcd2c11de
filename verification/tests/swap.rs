use unifiedsinkbin::{
    FileSinkConfig, GraphOp, GstUnifiedSinkRenderType, OpOutcome, Phase, Stage, StateChange, Step,
    SwitchError, TerminalNode, UnifiedSinkBin,
};

const FAKE: GstUnifiedSinkRenderType = GstUnifiedSinkRenderType::GstUnifiedsinkRenderTypeFake;
const VIDEO: GstUnifiedSinkRenderType = GstUnifiedSinkRenderType::GstUnifiedsinkRenderTypeVideo;
const GRAPHIC: GstUnifiedSinkRenderType = GstUnifiedSinkRenderType::GstUnifiedsinkRenderTypeGraphic;
const FILE: GstUnifiedSinkRenderType = GstUnifiedSinkRenderType::GstUnifiedsinkRenderTypeFile;

/// A graph that does what it is asked and counts it.
struct Graph {
    blocking: bool,
    held: Option<TerminalNode>,
    members: Vec<TerminalNode>,
    attaches: u32,
    detaches: u32,
    unblocked_touches: u32,
    refuse: Option<GraphOp>,
    log: Vec<GraphOp>,
}

fn graph() -> Graph {
    Graph {
        blocking: false,
        held: None,
        members: Vec::new(),
        attaches: 0,
        detaches: 0,
        unblocked_touches: 0,
        refuse: None,
        log: Vec::new(),
    }
}

fn perform(graph: &mut Graph, bin: &UnifiedSinkBin, op: GraphOp) -> OpOutcome {
    graph.log.push(op);
    let refused = graph.refuse == Some(op);
    match op {
        GraphOp::SetBlocking(blocking) => {
            graph.blocking = blocking;
            OpOutcome::Succeeded
        }
        GraphOp::Build => {
            if refused {
                graph.held = None;
                OpOutcome::Failed
            } else {
                graph.held = Some(bin.selected().clone());
                OpOutcome::Succeeded
            }
        }
        GraphOp::Attach(Stage::Terminal) => {
            if !graph.blocking {
                graph.unblocked_touches += 1;
            }
            if refused {
                OpOutcome::Failed
            } else {
                graph.members.push(graph.held.clone().unwrap());
                graph.attaches += 1;
                OpOutcome::Succeeded
            }
        }
        GraphOp::Detach(Stage::Terminal) => {
            if !graph.blocking {
                graph.unblocked_touches += 1;
            }
            graph.held = None;
            if graph.members.is_empty() {
                OpOutcome::Failed
            } else {
                graph.members.clear();
                graph.detaches += 1;
                OpOutcome::Succeeded
            }
        }
        GraphOp::Link(_, Stage::Terminal)
        | GraphOp::SyncState(Stage::Terminal)
        | GraphOp::Stop(Stage::Terminal) => {
            if !graph.blocking {
                graph.unblocked_touches += 1;
            }
            if refused {
                OpOutcome::Failed
            } else {
                OpOutcome::Succeeded
            }
        }
        _ => OpOutcome::Succeeded,
    }
}

fn drive(bin: &mut UnifiedSinkBin, graph: &mut Graph, first: Step) -> Step {
    let mut step = first;
    let mut turns = 0;
    loop {
        match step {
            Step::Perform(op) => {
                let outcome = perform(graph, bin, op);
                step = bin.resume(outcome);
            }
            other => return other,
        }
        turns += 1;
        assert!(turns <= 9);
    }
}

fn request(bin: &mut UnifiedSinkBin, graph: &mut Graph, kind: GstUnifiedSinkRenderType) -> Step {
    let first = bin.set_render_type(kind);
    drive(bin, graph, first)
}

fn bound_kind(bin: &UnifiedSinkBin) -> Option<GstUnifiedSinkRenderType> {
    bin.video_sink().map(|node| node.kind)
}

#[test]
fn new_controller_selects_default_and_binds_nothing() {
    let bin = UnifiedSinkBin::new();
    assert_eq!(bin.render_type(), GRAPHIC);
    assert_eq!(bin.video_sink(), None);
    assert!(!bin.is_blocking());
    assert_eq!(bin.phase(), Phase::Idle);
    assert!(!bin.holds_node());
    assert_eq!(bin.selected(), &TerminalNode { kind: GRAPHIC, file: None });
}

#[test]
fn scenario_default_then_file_capture() {
    let mut bin = UnifiedSinkBin::new();
    let mut g = graph();
    let first = bin.change_state(StateChange::StoppedToReady);
    assert_eq!(first, Step::Done);
    let first = bin.change_state(StateChange::ReadyToPaused);
    assert_eq!(drive(&mut bin, &mut g, first), Step::Done);
    assert_eq!(bound_kind(&bin), Some(GRAPHIC));
    assert_eq!((g.attaches, g.detaches), (1, 0));

    let config = FileSinkConfig::new(String::from("/tmp/testoutput.yuv"));
    let first = bin.reconfigure(FILE, config);
    assert_eq!(drive(&mut bin, &mut g, first), Step::Done);
    assert_eq!((g.attaches, g.detaches), (2, 1));
    let node = bin.video_sink().unwrap();
    assert_eq!(node.kind, FILE);
    let file = node.file.as_ref().unwrap();
    assert_eq!(file.location, "/tmp/testoutput.yuv");
    assert!(file.append);
    assert!(file.sync);
    assert_eq!(g.members, vec![node.clone()]);

    let before = bin.clone();
    let log = g.log.len();
    let config = FileSinkConfig::new(String::from("/tmp/testoutput.yuv"));
    let first = bin.reconfigure(FILE, config);
    assert_eq!(first, Step::Done);
    assert_eq!(drive(&mut bin, &mut g, first), Step::Done);
    assert_eq!((g.attaches, g.detaches), (2, 1));
    assert_eq!(g.log.len(), log);
    assert_eq!(bin, before);
}

#[test]
fn swap_asks_for_the_operations_in_order() {
    let mut bin = UnifiedSinkBin::new();
    let mut g = graph();
    assert_eq!(request(&mut bin, &mut g, FAKE), Step::Done);
    assert_eq!(
        g.log,
        vec![
            GraphOp::SetBlocking(true),
            GraphOp::Build,
            GraphOp::Attach(Stage::Terminal),
            GraphOp::Link(Stage::Converter, Stage::Terminal),
            GraphOp::SyncState(Stage::Terminal),
            GraphOp::SetBlocking(false),
        ]
    );
    g.log.clear();
    assert_eq!(request(&mut bin, &mut g, VIDEO), Step::Done);
    assert_eq!(
        g.log,
        vec![
            GraphOp::SetBlocking(true),
            GraphOp::Stop(Stage::Terminal),
            GraphOp::Detach(Stage::Terminal),
            GraphOp::Build,
            GraphOp::Attach(Stage::Terminal),
            GraphOp::Link(Stage::Converter, Stage::Terminal),
            GraphOp::SyncState(Stage::Terminal),
            GraphOp::SetBlocking(false),
        ]
    );
    assert!(!g.blocking);
    assert!(!bin.is_blocking());
}

#[test]
fn phases_follow_the_swap() {
    let mut bin = UnifiedSinkBin::new();
    assert_eq!(bin.set_render_type(FAKE), Step::Perform(GraphOp::SetBlocking(true)));
    assert_eq!(bin.phase(), Phase::ClosingGate);
    assert_eq!(bin.render_type(), GRAPHIC);
    assert_eq!(bin.resume(OpOutcome::Succeeded), Step::Perform(GraphOp::Build));
    assert_eq!(bin.phase(), Phase::Building);
    assert_eq!(bin.render_type(), FAKE);
    assert!(bin.is_blocking());
    assert!(!bin.holds_node());
    assert_eq!(bin.resume(OpOutcome::Succeeded), Step::Perform(GraphOp::Attach(Stage::Terminal)));
    assert_eq!(bin.phase(), Phase::Attaching);
    assert!(bin.holds_node());
    assert_eq!(bin.video_sink(), None);
    assert_eq!(
        bin.resume(OpOutcome::Succeeded),
        Step::Perform(GraphOp::Link(Stage::Converter, Stage::Terminal))
    );
    assert_eq!(bin.phase(), Phase::Linking);
    assert_eq!(bin.resume(OpOutcome::Succeeded), Step::Perform(GraphOp::SyncState(Stage::Terminal)));
    assert_eq!(bin.phase(), Phase::Syncing);
    assert_eq!(bin.resume(OpOutcome::Succeeded), Step::Perform(GraphOp::SetBlocking(false)));
    assert_eq!(bin.phase(), Phase::OpeningGate);
    assert_eq!(bin.video_sink(), None);
    assert_eq!(bin.resume(OpOutcome::Succeeded), Step::Done);
    assert_eq!(bin.phase(), Phase::Idle);
    assert_eq!(bound_kind(&bin), Some(FAKE));
    assert_eq!(bin.resume(OpOutcome::Failed), Step::Done);
    assert_eq!(bound_kind(&bin), Some(FAKE));
}

#[test]
fn last_request_wins_and_one_stage_is_attached() {
    let mut bin = UnifiedSinkBin::new();
    let mut g = graph();
    let kinds = [FAKE, VIDEO, VIDEO, FILE, GRAPHIC, GRAPHIC, FAKE, FILE, FILE, VIDEO];
    for kind in kinds {
        assert_eq!(request(&mut bin, &mut g, kind), Step::Done);
        assert_eq!(bin.render_type(), kind);
        assert_eq!(bound_kind(&bin), Some(kind));
        assert_eq!(g.members.len(), 1);
        assert_eq!(g.members[0].kind, kind);
        assert_eq!(bin.phase(), Phase::Idle);
        assert!(!g.blocking);
    }
    assert_eq!((g.attaches, g.detaches), (7, 6));
    assert_eq!(g.unblocked_touches, 0);
}

#[test]
fn requesting_the_current_kind_with_nothing_bound_binds_nothing() {
    let mut bin = UnifiedSinkBin::new();
    let mut g = graph();
    assert_eq!(request(&mut bin, &mut g, GRAPHIC), Step::Done);
    assert_eq!(bin.video_sink(), None);
    assert!(g.log.is_empty());
    assert_eq!(bin, UnifiedSinkBin::new());
}

#[test]
fn same_kind_performs_no_attach_or_detach() {
    let mut bin = UnifiedSinkBin::new();
    let mut g = graph();
    assert_eq!(request(&mut bin, &mut g, FAKE), Step::Done);
    let counters = (g.attaches, g.detaches);
    let log = g.log.len();
    let before = bin.clone();
    for _ in 0..3 {
        assert_eq!(bin.set_render_type(FAKE), Step::Done);
    }
    assert_eq!((g.attaches, g.detaches), counters);
    assert_eq!(g.log.len(), log);
    assert_eq!(bin, before);
    assert!(!bin.is_blocking());
}

#[test]
fn same_kind_with_other_settings_is_still_a_noop() {
    let mut bin = UnifiedSinkBin::new();
    let mut g = graph();
    assert_eq!(request(&mut bin, &mut g, FILE), Step::Done);
    let before = bin.clone();
    let other = FileSinkConfig { location: String::from("/tmp/other.yuv"), append: false, sync: false };
    assert_eq!(bin.reconfigure(FILE, other), Step::Done);
    assert_eq!(bin, before);
    assert_eq!(bin.video_sink().unwrap().file, Some(FileSinkConfig::default_capture()));
}

#[test]
fn settings_are_dropped_for_kinds_that_carry_none() {
    let mut bin = UnifiedSinkBin::new();
    let mut g = graph();
    let first = bin.reconfigure(FAKE, FileSinkConfig::new(String::from("/tmp/ignored")));
    assert_eq!(drive(&mut bin, &mut g, first), Step::Done);
    assert_eq!(bin.video_sink(), Some(&TerminalNode { kind: FAKE, file: None }));
}

#[test]
fn entering_paused_builds_the_default_kind() {
    let mut bin = UnifiedSinkBin::new();
    let mut g = graph();
    let first = bin.change_state(StateChange::ReadyToPaused);
    assert_eq!(first, Step::Perform(GraphOp::SetBlocking(true)));
    assert_eq!(drive(&mut bin, &mut g, first), Step::Done);
    assert_eq!(bin.video_sink(), Some(&TerminalNode { kind: GRAPHIC, file: None }));
    assert_eq!(g.members.len(), 1);
    assert_eq!((g.attaches, g.detaches), (1, 0));
}

#[test]
fn entering_paused_with_a_bound_stage_asks_for_nothing() {
    let mut bin = UnifiedSinkBin::new();
    let mut g = graph();
    assert_eq!(request(&mut bin, &mut g, VIDEO), Step::Done);
    let before = bin.clone();
    assert_eq!(bin.change_state(StateChange::ReadyToPaused), Step::Done);
    assert_eq!(bin, before);
}

#[test]
fn entering_paused_fails_when_the_factory_fails() {
    let mut bin = UnifiedSinkBin::new();
    let mut g = graph();
    g.refuse = Some(GraphOp::Build);
    let first = bin.change_state(StateChange::ReadyToPaused);
    assert_eq!(drive(&mut bin, &mut g, first), Step::Failed(SwitchError::ConstructionFailed));
    assert_eq!(bin.video_sink(), None);
    assert!(bin.is_blocking());
    assert!(g.blocking);
    assert!(g.members.is_empty());
    assert_eq!(bin.phase(), Phase::Idle);
    assert_eq!(g.log, vec![GraphOp::SetBlocking(true), GraphOp::Build]);

    g.refuse = None;
    let first = bin.change_state(StateChange::ReadyToPaused);
    assert_eq!(drive(&mut bin, &mut g, first), Step::Done);
    assert_eq!(bound_kind(&bin), Some(GRAPHIC));
    assert!(!g.blocking);
}

#[test]
fn failed_build_leaves_nothing_bound_and_flow_halted() {
    let mut bin = UnifiedSinkBin::new();
    let mut g = graph();
    assert_eq!(request(&mut bin, &mut g, FAKE), Step::Done);
    g.refuse = Some(GraphOp::Build);
    assert_eq!(request(&mut bin, &mut g, FILE), Step::Failed(SwitchError::ConstructionFailed));
    assert_eq!(bin.video_sink(), None);
    assert_eq!(bin.render_type(), FILE);
    assert!(bin.is_blocking());
    assert!(g.blocking);
    assert!(g.members.is_empty());
    assert_eq!((g.attaches, g.detaches), (1, 1));
    assert!(!bin.holds_node());
}

#[test]
fn failed_attach_unwinds_the_new_stage() {
    let mut bin = UnifiedSinkBin::new();
    let mut g = graph();
    g.refuse = Some(GraphOp::Attach(Stage::Terminal));
    assert_eq!(request(&mut bin, &mut g, FAKE), Step::Failed(SwitchError::LinkFailed));
    assert_eq!(
        g.log,
        vec![
            GraphOp::SetBlocking(true),
            GraphOp::Build,
            GraphOp::Attach(Stage::Terminal),
            GraphOp::Stop(Stage::Terminal),
            GraphOp::Detach(Stage::Terminal),
        ]
    );
    assert_eq!(bin.video_sink(), None);
    assert!(g.members.is_empty());
    assert!(g.held.is_none());
    assert!(bin.is_blocking());
}

#[test]
fn failed_link_unwinds_the_new_stage() {
    let mut bin = UnifiedSinkBin::new();
    let mut g = graph();
    g.refuse = Some(GraphOp::Link(Stage::Converter, Stage::Terminal));
    assert_eq!(request(&mut bin, &mut g, VIDEO), Step::Failed(SwitchError::LinkFailed));
    assert_eq!(bin.video_sink(), None);
    assert!(g.members.is_empty());
    assert_eq!((g.attaches, g.detaches), (1, 1));
    assert!(bin.is_blocking());
    assert_eq!(bin.phase(), Phase::Idle);
}

#[test]
fn refused_run_state_unwinds_the_new_stage() {
    let mut bin = UnifiedSinkBin::new();
    let mut g = graph();
    g.refuse = Some(GraphOp::SyncState(Stage::Terminal));
    assert_eq!(request(&mut bin, &mut g, FILE), Step::Failed(SwitchError::StateTransitionFailed));
    assert_eq!(
        g.log,
        vec![
            GraphOp::SetBlocking(true),
            GraphOp::Build,
            GraphOp::Attach(Stage::Terminal),
            GraphOp::Link(Stage::Converter, Stage::Terminal),
            GraphOp::SyncState(Stage::Terminal),
            GraphOp::Stop(Stage::Terminal),
            GraphOp::Detach(Stage::Terminal),
        ]
    );
    assert_eq!(bin.video_sink(), None);
    assert!(g.members.is_empty());
    assert!(bin.is_blocking());
}

#[test]
fn failed_detach_gives_the_swap_up() {
    let mut bin = UnifiedSinkBin::new();
    let mut g = graph();
    assert_eq!(request(&mut bin, &mut g, FAKE), Step::Done);
    assert_eq!(bin.set_render_type(VIDEO), Step::Perform(GraphOp::SetBlocking(true)));
    assert_eq!(bin.resume(OpOutcome::Succeeded), Step::Perform(GraphOp::Stop(Stage::Terminal)));
    assert_eq!(bin.resume(OpOutcome::Failed), Step::Perform(GraphOp::Detach(Stage::Terminal)));
    assert_eq!(bin.resume(OpOutcome::Failed), Step::Failed(SwitchError::LinkFailed));
    assert_eq!(bin.video_sink(), None);
    assert_eq!(bin.render_type(), VIDEO);
    assert!(bin.is_blocking());
    assert_eq!(bin.phase(), Phase::Idle);
}

#[test]
fn recovery_after_a_failed_swap() {
    let mut bin = UnifiedSinkBin::new();
    let mut g = graph();
    g.refuse = Some(GraphOp::Build);
    assert_eq!(request(&mut bin, &mut g, FILE), Step::Failed(SwitchError::ConstructionFailed));
    g.refuse = None;
    assert_eq!(request(&mut bin, &mut g, FILE), Step::Done);
    assert_eq!(bin.video_sink(), None);
    assert_eq!(request(&mut bin, &mut g, FAKE), Step::Done);
    assert_eq!(bound_kind(&bin), Some(FAKE));
    assert!(!bin.is_blocking());
    assert_eq!(g.members.len(), 1);
}

#[test]
fn unsupported_kind_is_rejected_without_mutation() {
    let mut bin = UnifiedSinkBin::new();
    let mut g = graph();
    assert_eq!(request(&mut bin, &mut g, VIDEO), Step::Done);
    let before = bin.clone();
    for raw in [4u32, 5, 100, u32::MAX] {
        assert_eq!(bin.set_render_type_value(raw), Step::Failed(SwitchError::UnsupportedKind));
        assert_eq!(bin, before);
    }
}

#[test]
fn kind_by_number_starts_the_same_swap() {
    let mut by_number = UnifiedSinkBin::new();
    let mut by_kind = UnifiedSinkBin::new();
    assert_eq!(by_number.set_render_type_value(3), by_kind.set_render_type(FILE));
    assert_eq!(by_number, by_kind);
    assert_eq!(by_number.resume(OpOutcome::Succeeded), Step::Perform(GraphOp::Build));
    assert_eq!(by_number.selected(), &TerminalNode { kind: FILE, file: Some(FileSinkConfig::default_capture()) });
    let mut same = UnifiedSinkBin::new();
    assert_eq!(same.set_render_type_value(2), Step::Done);
    assert_eq!(same, UnifiedSinkBin::new());
}

#[test]
fn request_during_a_swap_is_refused_without_mutation() {
    let mut bin = UnifiedSinkBin::new();
    assert_eq!(bin.set_render_type(FAKE), Step::Perform(GraphOp::SetBlocking(true)));
    let before = bin.clone();
    assert_eq!(bin.set_render_type(VIDEO), Step::Failed(SwitchError::ConcurrentAccess));
    assert_eq!(bin.set_render_type(GRAPHIC), Step::Failed(SwitchError::ConcurrentAccess));
    assert_eq!(
        bin.change_state(StateChange::ReadyToPaused),
        Step::Failed(SwitchError::ConcurrentAccess)
    );
    assert_eq!(bin, before);
    let mut g = graph();
    g.blocking = true;
    let step = bin.resume(OpOutcome::Succeeded);
    assert_eq!(drive(&mut bin, &mut g, step), Step::Done);
    assert_eq!(bound_kind(&bin), Some(FAKE));
}

#[test]
fn two_requests_in_either_order_end_consistent() {
    for (first, second) in [(FAKE, FILE), (FILE, FAKE)] {
        let mut bin = UnifiedSinkBin::new();
        let mut g = graph();
        assert_eq!(request(&mut bin, &mut g, first), Step::Done);
        assert_eq!(request(&mut bin, &mut g, second), Step::Done);
        assert_eq!(bin.render_type(), second);
        assert_eq!(bound_kind(&bin), Some(second));
        assert_eq!(g.members.len(), 1);
        assert_eq!(g.members[0].kind, second);
        assert_eq!(request(&mut bin, &mut g, second), Step::Done);
        assert_eq!((g.attaches, g.detaches), (2, 1));
    }
}

#[test]
fn terminal_stage_is_touched_only_while_the_flow_is_halted() {
    let mut bin = UnifiedSinkBin::new();
    let mut g = graph();
    for refuse in [
        None,
        Some(GraphOp::Build),
        Some(GraphOp::Attach(Stage::Terminal)),
        Some(GraphOp::Link(Stage::Converter, Stage::Terminal)),
        Some(GraphOp::SyncState(Stage::Terminal)),
        None,
    ] {
        for kind in [FAKE, VIDEO, FILE, GRAPHIC] {
            g.refuse = refuse;
            let _ = request(&mut bin, &mut g, kind);
            assert!(g.members.len() <= 1);
            assert_eq!(g.members.len() == 1, bin.video_sink().is_some());
            assert_eq!(g.blocking, bin.is_blocking());
            assert_eq!(bin.phase(), Phase::Idle);
        }
    }
    assert_eq!(g.unblocked_touches, 0);
    assert_eq!(bound_kind(&bin), Some(GRAPHIC));
}
