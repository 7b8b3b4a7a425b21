use vaultquad::scene::{ActionKind, FrameCall, Hook, SceneFlow, Step, UpdateStage};

fn pop<S>(f: &mut SceneFlow<S>, i: usize, count: usize) -> Option<S> {
    f.pop_for_chain(i, count).map(|p| p.child)
}

#[test]
fn new_flow_holds_the_start_scene() {
    let f = SceneFlow::new("main");
    assert_eq!(f.len(), 1);
    assert!(!f.is_paused());
    assert!(!f.should_exit());
    assert!(f.background().is_empty());
}

#[test]
fn push_then_pop_returns_the_pushed_scene() {
    let mut f = SceneFlow::new("main");
    assert_eq!(f.begin_action(ActionKind::Push), Step::Ready { hook: Some(Hook::OnPush) });
    f.push_scene("child");
    assert_eq!(f.len(), 2);
    assert_eq!(f.begin_action(ActionKind::Pop), Step::PopChain { count: 1, clear_back: false });
    assert_eq!(pop(&mut f, 0, 1), Some("child"));
    f.finish_pop_chain(false);
    assert_eq!(f.len(), 1);
    assert!(!f.should_exit());
}

#[test]
fn popping_the_last_scene_asks_to_exit() {
    let mut f = SceneFlow::new("main");
    assert_eq!(pop(&mut f, 0, 1), None);
    assert_eq!(f.len(), 1);
    assert!(f.should_exit());
}

#[test]
fn exit_and_nothing_actions() {
    let mut f = SceneFlow::new(1u8);
    assert_eq!(f.begin_action(ActionKind::Nothing), Step::Done);
    assert!(!f.should_exit());
    assert_eq!(f.begin_action(ActionKind::PopMany(0)), Step::Done);
    assert_eq!(f.begin_action(ActionKind::PopMany(3)), Step::PopChain { count: 3, clear_back: false });
    assert_eq!(f.begin_action(ActionKind::Exit), Step::Done);
    assert!(f.should_exit());
}

#[test]
fn replace_takes_off_the_top_first() {
    let mut f = SceneFlow::new("a");
    f.push_scene("b");
    assert_eq!(f.begin_action(ActionKind::Replace), Step::Ready { hook: None });
    assert_eq!(f.len(), 1);
    f.push_scene("c");
    assert_eq!(pop(&mut f, 0, 1), Some("c"));
}

#[test]
fn overlay_keeps_the_scene_below_in_the_background() {
    let mut f = SceneFlow::new("a");
    assert_eq!(f.begin_action(ActionKind::Overlay), Step::Ready { hook: Some(Hook::OnOverlay) });
    f.push_scene("b");
    assert_eq!(f.background(), vec![0]);
    assert_eq!(f.begin_action(ActionKind::Overlay), Step::Ready { hook: Some(Hook::OnOverlay) });
    f.push_scene("c");
    assert_eq!(f.background(), vec![0, 1]);
    assert_eq!(pop(&mut f, 0, 2), Some("c"));
    assert_eq!(pop(&mut f, 1, 2), Some("b"));
    f.finish_pop_chain(false);
    assert_eq!(f.background(), vec![0]);
}

#[test]
fn bottom_pops_all_but_one_and_clears_background() {
    let mut f = SceneFlow::new(0);
    for i in 1..4 {
        f.begin_action(ActionKind::Overlay);
        f.push_scene(i);
    }
    let step = f.begin_action(ActionKind::Bottom);
    assert_eq!(step, Step::PopChain { count: 3, clear_back: true });
    for i in 0..3 {
        assert!(pop(&mut f, i, 3).is_some());
    }
    f.finish_pop_chain(true);
    assert_eq!(f.len(), 1);
    assert!(f.background().is_empty());
}

#[test]
fn pause_resume_and_scene_access() {
    let mut f = SceneFlow::new(10);
    assert!(f.pause());
    assert!(f.is_paused());
    assert!(f.resume());
    assert!(!f.is_paused());
    assert_eq!(f.top_or_exit(), Some(0));
    if let Some(s) = f.scene_mut(0) {
        *s += 5;
    }
    assert!(f.scene_mut(1).is_none());
    assert_eq!(pop(&mut f, 0, 1), None);
    f.push_scene(1);
    assert_eq!(pop(&mut f, 0, 1), Some(1));
    f.begin_action(ActionKind::Replace);
    assert_eq!(f.len(), 0);
    assert_eq!(f.top_or_exit(), None);
    assert!(f.should_exit());
    assert!(!f.pause());
}

#[test]
fn pop_hooks_hand_the_result_to_the_last_parent_only() {
    let mut f = SceneFlow::new("a");
    f.push_scene("b");
    f.push_scene("c");
    let first = f.pop_for_chain(0, 2).unwrap();
    assert_eq!(first.child, "c");
    assert_eq!(
        first.hooks,
        vec![Hook::OnDeath, Hook::OnResult { with_result: false }, Hook::OnPop, Hook::Resume]
    );
    let second = f.pop_for_chain(1, 2).unwrap();
    assert_eq!(second.child, "b");
    assert_eq!(
        second.hooks,
        vec![Hook::OnDeath, Hook::OnResult { with_result: true }, Hook::OnPop, Hook::Resume]
    );
    assert_eq!(f.len(), 1);
}

#[test]
fn single_pop_hands_on_the_result() {
    let mut f = SceneFlow::new(1);
    f.push_scene(2);
    let p = f.pop_for_chain(0, 1).unwrap();
    assert_eq!(p.hooks[1], Hook::OnResult { with_result: true });
    assert_eq!(p.hooks[2], Hook::OnPop);
}

#[test]
fn paused_flow_update_runs_nothing() {
    let mut f = SceneFlow::new("a");
    f.pause();
    assert!(f.update_next(UpdateStage::Start).is_none());
    assert!(!f.should_exit());
}

fn calls(f: &mut SceneFlow<&str>) -> Vec<FrameCall> {
    let mut out = Vec::new();
    let mut stage = UpdateStage::Start;
    while let Some((call, next)) = f.update_next(stage) {
        out.push(call);
        stage = next;
    }
    out
}

#[test]
fn update_runs_commands_background_then_top() {
    let mut f = SceneFlow::new("a");
    f.begin_action(ActionKind::Overlay);
    f.push_scene("b");
    assert_eq!(
        calls(&mut f),
        vec![
            FrameCall::NextScene(1),
            FrameCall::Back(0),
            FrameCall::Process(0),
            FrameCall::Back(1),
            FrameCall::Process(1),
            FrameCall::Ui(1),
        ]
    );
}

#[test]
fn update_stops_background_at_a_missing_scene() {
    let mut f = SceneFlow::new("a");
    let next = f.update_next(UpdateStage::Background { list: vec![5, 0], at: 0, process: false });
    assert!(matches!(next, Some((FrameCall::Back(0), UpdateStage::TopProcess))));
}

#[test]
fn update_with_no_scene_asks_to_exit() {
    let mut f = SceneFlow::new("a");
    f.begin_action(ActionKind::Replace);
    assert!(f.update_next(UpdateStage::Start).is_none());
    assert!(f.should_exit());
}
