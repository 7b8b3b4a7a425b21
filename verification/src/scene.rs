//! The scene stack: which scenes live, which of them run in the background,
//! and how each scene action changes them. Running the scenes' own callbacks
//! is left to the caller, who reports what each callback asks for.
use vstd::prelude::*;

verus! {

/// A scene that can put itself in a box, to be handed to the stack.
pub trait BoxScene {
    fn boxed(self) -> Box<Self>;
}

/// What a scene asks of the stack, without the scenes and data it carries.
#[derive(Debug, Clone, Copy, PartialEq, Eq)]
pub enum ActionKind {
    /// Nothing.
    Nothing,
    /// Open a child scene; the current one stops running.
    Push,
    /// Leave the current scene.
    Pop,
    /// Leave this many scenes.
    PopMany(usize),
    /// Go back to the bottom scene.
    Bottom,
    /// Quit.
    Exit,
    /// Open a child scene; the current one keeps running in the background.
    Overlay,
    /// Replace the current scene.
    Replace,
}

/// A scene callback that the caller runs, on the scene named, and whose
/// returned action it handles before going on.
#[derive(Debug, Clone, Copy, PartialEq, Eq)]
pub enum Hook {
    /// `on_death` of the scene just popped.
    OnDeath,
    /// `on_result` of the scene now on top, given the popped scene and, when
    /// `with_result` holds, the result that the pop chain carries (else none).
    OnResult { with_result: bool },
    /// `on_pop` of the scene now on top: a direct child of it was popped.
    OnPop,
    /// `resume` of the scene now on top.
    Resume,
    /// `on_push` of the scene just pushed.
    OnPush,
    /// `on_overlay` of the scene just pushed.
    OnOverlay,
}

/// What the caller does next for an action.
#[derive(Debug, Clone, Copy, PartialEq, Eq)]
pub enum Step {
    /// The action is handled.
    Done,
    /// For each `i` below `count`, call `pop_for_chain(i, count)` and run the
    /// hooks it returns, stopping at the first `None`; then call
    /// `finish_pop_chain(clear_back)`.
    PopChain { count: usize, clear_back: bool },
    /// Make the new scene ready, `push_scene` it, run `hook` (if any) on it
    /// and handle the action that the hook returned, then handle the action
    /// that the scene returned when it was made ready.
    Ready { hook: Option<Hook> },
}

/// A scene taken off the stack in a pop chain, with the hooks to run for it,
/// in order.
pub struct Popped<S> {
    pub child: S,
    pub hooks: Vec<Hook>,
}

/// A scene callback of a frame's update, on the scene at the index given.
#[derive(Debug, Clone, Copy, PartialEq, Eq)]
pub enum FrameCall {
    NextScene(usize),
    Back(usize),
    Process(usize),
    Ui(usize),
}

/// Where a frame's update stands, between two callbacks.
#[derive(Debug)]
pub enum UpdateStage {
    /// Nothing has run yet.
    Start,
    /// The top scene's `next_scene` has run.
    Commands,
    /// Running the background scenes listed in `list`: next comes `back` of
    /// `list[at]`, or `process` of it when `process` holds.
    Background { list: Vec<usize>, at: usize, process: bool },
    /// Next comes the top scene's `back`.
    TopBack,
    /// Next comes the top scene's `process`.
    TopProcess,
    /// Next comes the top scene's `ui`.
    TopUi,
    /// The frame's update is over.
    Finished,
}

/// An update stage as plain values.
pub enum StageView {
    Start,
    Commands,
    Background { list: Seq<usize>, at: usize, process: bool },
    TopBack,
    TopProcess,
    TopUi,
    Finished,
}

pub open spec fn stage_view(s: UpdateStage) -> StageView {
    match s {
        UpdateStage::Start => StageView::Start,
        UpdateStage::Commands => StageView::Commands,
        UpdateStage::Background { list, at, process } => StageView::Background { list: list@, at, process },
        UpdateStage::TopBack => StageView::TopBack,
        UpdateStage::TopProcess => StageView::TopProcess,
        UpdateStage::TopUi => StageView::TopUi,
        UpdateStage::Finished => StageView::Finished,
    }
}

pub open spec fn next_view(r: Option<(FrameCall, UpdateStage)>) -> Option<(FrameCall, StageView)> {
    match r {
        Some((c, s)) => Some((c, stage_view(s))),
        None => None,
    }
}

/// One of the top scene's callbacks (0: `back`, 1: `process`, 2: `ui`): it
/// runs on the top scene, or with no scene left the flow is marked to exit
/// and the update ends.
pub open spec fn top_step<S>(v: SceneFlowView<S>, which: int) -> (SceneFlowView<S>, Option<(FrameCall, StageView)>) {
    if v.stack.len() == 0 {
        (SceneFlowView { should_exit: true, ..v }, None)
    } else {
        let t = (v.stack.len() - 1) as usize;
        if which == 0 {
            (v, Some((FrameCall::Back(t), StageView::TopProcess)))
        } else if which == 1 {
            (v, Some((FrameCall::Process(t), StageView::TopUi)))
        } else {
            (v, Some((FrameCall::Ui(t), StageView::Finished)))
        }
    }
}

/// The background scenes listed in `list`, from `list[at]` on: `back` and
/// then `process` of each; once the list is done, or names a scene that is
/// gone, the top scene's callbacks follow.
pub open spec fn background_step<S>(v: SceneFlowView<S>, list: Seq<usize>, at: usize, process: bool)
    -> (SceneFlowView<S>, Option<(FrameCall, StageView)>)
{
    if at >= list.len() || list[at as int] >= v.stack.len() {
        top_step(v, 0)
    } else if process {
        (v, Some((FrameCall::Process(list[at as int]), StageView::Background { list, at: (at + 1) as usize, process: false })))
    } else {
        (v, Some((FrameCall::Back(list[at as int]), StageView::Background { list, at, process: true })))
    }
}

/// The next callback of a frame's update from `stage`, and the stage after
/// it; `None` when the update is over. A paused flow runs nothing. Otherwise
/// the top scene's `next_scene` comes first, then the background scenes, in
/// the order of the background list as it stands after it, then the top
/// scene's `back`, `process` and `ui`.
pub open spec fn update_next_spec<S>(v: SceneFlowView<S>, stage: StageView) -> (SceneFlowView<S>, Option<(FrameCall, StageView)>) {
    match stage {
        StageView::Start => if v.paused {
            (v, None)
        } else if v.stack.len() > 0 {
            (v, Some((FrameCall::NextScene((v.stack.len() - 1) as usize), StageView::Commands)))
        } else {
            background_step(v, v.back, 0, false)
        },
        StageView::Commands => background_step(v, v.back, 0, false),
        StageView::Background { list, at, process } => background_step(v, list, at, process),
        StageView::TopBack => top_step(v, 0),
        StageView::TopProcess => top_step(v, 1),
        StageView::TopUi => top_step(v, 2),
        StageView::Finished => (v, None),
    }
}

/// The stack of scenes as plain values.
pub struct SceneFlowView<S> {
    pub stack: Seq<S>,
    /// Indices of the scenes that run in the background.
    pub back: Seq<usize>,
    pub paused: bool,
    pub should_exit: bool,
}

/// A stack of scenes; the top one runs, and those listed in `back` run in
/// the background.
pub struct SceneFlow<S> {
    stack: Vec<S>,
    back: Vec<usize>,
    paused: bool,
    should_exit: bool,
}

impl<S> View for SceneFlow<S> {
    type V = SceneFlowView<S>;

    closed spec fn view(&self) -> SceneFlowView<S> {
        SceneFlowView { stack: self.stack@, back: self.back@, paused: self.paused, should_exit: self.should_exit }
    }
}

/// How beginning an action changes the stack (`v` to `v2`) and which step follows.
pub open spec fn began<S>(v: SceneFlowView<S>, kind: ActionKind, v2: SceneFlowView<S>, step: Step) -> bool {
    match kind {
        ActionKind::Nothing => v2 == v && step == Step::Done,
        ActionKind::Exit => v2 == (SceneFlowView { should_exit: true, ..v }) && step == Step::Done,
        ActionKind::Pop => v2 == v && step == (Step::PopChain { count: 1, clear_back: false }),
        ActionKind::PopMany(n) => v2 == v && step == (if n == 0 {
            Step::Done
        } else {
            Step::PopChain { count: n, clear_back: false }
        }),
        ActionKind::Bottom => v2 == v && step == (Step::PopChain {
            count: if v.stack.len() >= 1 { (v.stack.len() - 1) as usize } else { 0 },
            clear_back: true,
        }),
        ActionKind::Replace => v2 == (SceneFlowView {
            stack: if v.stack.len() > 0 { v.stack.drop_last() } else { v.stack },
            ..v
        }) && step == (Step::Ready { hook: None }),
        ActionKind::Push => v2 == v && step == (Step::Ready { hook: Some(Hook::OnPush) }),
        ActionKind::Overlay => v2 == (SceneFlowView {
            back: if v.stack.len() > 0 { v.back.push((v.stack.len() - 1) as usize) } else { v.back },
            ..v
        }) && step == (Step::Ready { hook: Some(Hook::OnOverlay) }),
    }
}

/// The stack with a ready scene put on top.
pub open spec fn pushed<S>(v: SceneFlowView<S>, scene: S) -> SceneFlowView<S> {
    SceneFlowView { stack: v.stack.push(scene), ..v }
}

/// One pop of a pop chain: the top scene comes off, unless it is the last
/// one; then nothing is popped and the flow is marked to exit.
pub open spec fn popped_for_chain<S>(v: SceneFlowView<S>) -> (SceneFlowView<S>, Option<S>) {
    if v.stack.len() <= 1 {
        (SceneFlowView { should_exit: true, ..v }, None)
    } else {
        (SceneFlowView { stack: v.stack.drop_last(), ..v }, Some(v.stack.last()))
    }
}

/// The hooks after the `i`-th pop of a chain of `count` pops: the popped
/// scene dies; the scene below gets it back, with the chain's result only
/// on the last pop; then that scene learns that its child was popped, and
/// resumes.
pub open spec fn pop_hooks(i: usize, count: usize) -> Seq<Hook> {
    seq![Hook::OnDeath, Hook::OnResult { with_result: i + 1 == count }, Hook::OnPop, Hook::Resume]
}

/// The number of leading entries of `back` that are below `n`.
pub open spec fn count_below(back: Seq<usize>, n: usize) -> nat
    decreases back.len(),
{
    if back.len() == 0 {
        0
    } else if back[0] < n {
        1 + count_below(back.drop_first(), n)
    } else {
        0
    }
}

/// `back` keeps the indices below `n` in front of those that are not.
pub open spec fn partitioned_below(back: Seq<usize>, n: usize) -> bool {
    forall|i: int, j: int| #![trigger back[i], back[j]] 0 <= i < j < back.len() && back[j] < n ==> back[i] < n
}

/// Whether `x` is below `n`.
fn is_below(x: usize, n: usize) -> (b: bool)
    ensures
        b == (x < n),
{
    x < n
}

/// Calls `<[usize]>::partition_point` with the predicate "below `n`". Its
/// documentation promises the number of leading entries below `n` when the
/// entries below `n` all come first; otherwise the result is unspecified,
/// and nothing is stated of it here.
#[verifier::external_body]
fn partition_point_below(back: &Vec<usize>, n: usize) -> (r: usize)
    ensures
        partitioned_below(back@, n) ==> r == count_below(back@, n),
{
    back.partition_point(|x| is_below(*x, n))
}

impl<S> SceneFlow<S> {
    /// A stack holding only `start`, running.
    pub fn new(start: S) -> (f: SceneFlow<S>)
        ensures
            f@ == (SceneFlowView { stack: seq![start], back: Seq::<usize>::empty(), paused: false, should_exit: false }),
    {
        let mut stack = Vec::new();
        stack.push(start);
        SceneFlow { stack, back: Vec::new(), paused: false, should_exit: false }
    }

    /// Starts handling an action: the stack changes that come before any
    /// callback are made here, and the step that follows is returned.
    pub fn begin_action(&mut self, kind: ActionKind) -> (step: Step)
        ensures
            began(old(self)@, kind, final(self)@, step),
    {
        match kind {
            ActionKind::Nothing => Step::Done,
            ActionKind::Exit => {
                self.should_exit = true;
                Step::Done
            },
            ActionKind::Pop => Step::PopChain { count: 1, clear_back: false },
            ActionKind::PopMany(n) => {
                if n == 0 {
                    Step::Done
                } else {
                    Step::PopChain { count: n, clear_back: false }
                }
            },
            ActionKind::Bottom => Step::PopChain { count: self.stack.len().saturating_sub(1), clear_back: true },
            ActionKind::Replace => {
                self.stack.pop();
                Step::Ready { hook: None }
            },
            ActionKind::Push => Step::Ready { hook: Some(Hook::OnPush) },
            ActionKind::Overlay => {
                if self.stack.len() > 0 {
                    self.back.push(self.stack.len() - 1);
                }
                Step::Ready { hook: Some(Hook::OnOverlay) }
            },
        }
    }

    /// Puts a ready scene on top.
    pub fn push_scene(&mut self, scene: S)
        ensures
            final(self)@ == pushed(old(self)@, scene),
    {
        self.stack.push(scene);
    }

    /// The `i`-th pop of a chain of `count` pops: takes the top scene off and
    /// returns it with the hooks to run, unless it is the last scene, in which
    /// case the flow is marked to exit, nothing is popped and the chain ends.
    pub fn pop_for_chain(&mut self, i: usize, count: usize) -> (r: Option<Popped<S>>)
        requires
            i < count,
        ensures
            final(self)@ == popped_for_chain(old(self)@).0,
            popped_for_chain(old(self)@).1 is None ==> r is None,
            popped_for_chain(old(self)@).1 matches Some(child) ==>
                r matches Some(p) && p.child == child && p.hooks@ == pop_hooks(i, count),
    {
        if self.stack.len() <= 1 {
            self.should_exit = true;
            None
        } else {
            match self.stack.pop() {
                Some(child) => {
                    let mut hooks: Vec<Hook> = Vec::new();
                    hooks.push(Hook::OnDeath);
                    hooks.push(Hook::OnResult { with_result: i + 1 == count });
                    hooks.push(Hook::OnPop);
                    hooks.push(Hook::Resume);
                    proof {
                        assert(hooks@ =~= pop_hooks(i, count));
                    }
                    Some(Popped { child, hooks })
                },
                None => None,
            }
        }
    }

    /// After a pop chain: with `clear_back` no scene runs in the background
    /// any more; otherwise the background list is cut at its first index that
    /// no longer names a scene (when the list keeps its live indices first,
    /// as a binary search needs; otherwise it is cut somewhere).
    pub fn finish_pop_chain(&mut self, clear_back: bool)
        ensures
            clear_back ==> final(self)@ == (SceneFlowView { back: Seq::<usize>::empty(), ..old(self)@ }),
            !clear_back ==> final(self)@ == (SceneFlowView { back: final(self)@.back, ..old(self)@ })
                && final(self)@.back.len() <= old(self)@.back.len()
                && final(self)@.back == old(self)@.back.take(final(self)@.back.len() as int),
            !clear_back && partitioned_below(old(self)@.back, old(self)@.stack.len() as usize) ==>
                final(self)@.back == old(self)@.back.take(count_below(old(self)@.back, old(self)@.stack.len() as usize) as int),
    {
        if clear_back {
            self.back.clear();
        } else {
            self.cleanup_back();
        }
    }

    /// The next scene callback of a frame's update from `stage`, with the
    /// stage after it; `None` when the update is over.
    pub fn update_next(&mut self, stage: UpdateStage) -> (r: Option<(FrameCall, UpdateStage)>)
        ensures
            (final(self)@, next_view(r)) == update_next_spec(old(self)@, stage_view(stage)),
    {
        match stage {
            UpdateStage::Start => {
                if self.paused {
                    None
                } else if self.stack.len() > 0 {
                    Some((FrameCall::NextScene(self.stack.len() - 1), UpdateStage::Commands))
                } else {
                    let list = self.back.clone();
                    self.background_from(list, 0, false)
                }
            },
            UpdateStage::Commands => {
                let list = self.back.clone();
                self.background_from(list, 0, false)
            },
            UpdateStage::Background { list, at, process } => self.background_from(list, at, process),
            UpdateStage::TopBack => self.top_call(0),
            UpdateStage::TopProcess => self.top_call(1),
            UpdateStage::TopUi => self.top_call(2),
            UpdateStage::Finished => None,
        }
    }

    fn background_from(&mut self, list: Vec<usize>, at: usize, process: bool) -> (r: Option<(FrameCall, UpdateStage)>)
        ensures
            (final(self)@, next_view(r)) == background_step(old(self)@, list@, at, process),
    {
        if at >= list.len() || list[at] >= self.stack.len() {
            self.top_call(0)
        } else {
            let b = list[at];
            if process {
                Some((FrameCall::Process(b), UpdateStage::Background { list, at: at + 1, process: false }))
            } else {
                Some((FrameCall::Back(b), UpdateStage::Background { list, at, process: true }))
            }
        }
    }

    fn top_call(&mut self, which: u8) -> (r: Option<(FrameCall, UpdateStage)>)
        requires
            which <= 2,
        ensures
            (final(self)@, next_view(r)) == top_step(old(self)@, which as int),
    {
        if self.stack.len() == 0 {
            self.should_exit = true;
            None
        } else {
            let t = self.stack.len() - 1;
            if which == 0 {
                Some((FrameCall::Back(t), UpdateStage::TopProcess))
            } else if which == 1 {
                Some((FrameCall::Process(t), UpdateStage::TopUi))
            } else {
                Some((FrameCall::Ui(t), UpdateStage::Finished))
            }
        }
    }

    /// Pauses the flow; returns whether there is a top scene to tell.
    pub fn pause(&mut self) -> (has_top: bool)
        ensures
            final(self)@ == (SceneFlowView { paused: true, ..old(self)@ }),
            has_top == (old(self)@.stack.len() > 0),
    {
        self.paused = true;
        self.stack.len() > 0
    }

    /// Resumes the flow; returns whether there is a top scene to tell.
    pub fn resume(&mut self) -> (has_top: bool)
        ensures
            final(self)@ == (SceneFlowView { paused: false, ..old(self)@ }),
            has_top == (old(self)@.stack.len() > 0),
    {
        self.paused = false;
        self.stack.len() > 0
    }

    pub fn is_paused(&self) -> (r: bool)
        ensures
            r == self@.paused,
    {
        self.paused
    }

    /// Whether the flow has been asked to end.
    pub fn should_exit(&self) -> (r: bool)
        ensures
            r == self@.should_exit,
    {
        self.should_exit
    }

    /// The number of scenes on the stack.
    pub fn len(&self) -> (r: usize)
        ensures
            r == self@.stack.len(),
    {
        self.stack.len()
    }

    /// The indices of the background scenes, in the order they run.
    pub fn background(&self) -> (r: Vec<usize>)
        ensures
            r@ == self@.back,
    {
        self.back.clone()
    }

    /// The index of the top scene, if there is one.
    pub fn top_index(&self) -> (r: Option<usize>)
        ensures
            self@.stack.len() == 0 ==> r is None,
            self@.stack.len() > 0 ==> r == Some((self@.stack.len() - 1) as usize),
    {
        if self.stack.len() == 0 {
            None
        } else {
            Some(self.stack.len() - 1)
        }
    }

    /// The index of the top scene; with no scene left the flow is marked to exit.
    pub fn top_or_exit(&mut self) -> (r: Option<usize>)
        ensures
            old(self)@.stack.len() == 0 ==> r is None && final(self)@ == (SceneFlowView { should_exit: true, ..old(self)@ }),
            old(self)@.stack.len() > 0 ==> r == Some((old(self)@.stack.len() - 1) as usize) && final(self)@ == old(self)@,
    {
        if self.stack.len() == 0 {
            self.should_exit = true;
            None
        } else {
            Some(self.stack.len() - 1)
        }
    }

    /// The scene at index `i`, to run one of its callbacks.
    pub fn scene_mut(&mut self, i: usize) -> (r: Option<&mut S>)
        ensures
            (i as int) < old(self)@.stack.len() ==> r is Some && *r->0 == old(self)@.stack[i as int]
                && final(self)@ == (SceneFlowView { stack: old(self)@.stack.update(i as int, *final(r->0)), ..old(self)@ }),
            (i as int) >= old(self)@.stack.len() ==> r is None && final(self)@ == old(self)@,
    {
        if i < self.stack.len() {
            Some(&mut self.stack[i])
        } else {
            None
        }
    }

    fn cleanup_back(&mut self)
        ensures
            final(self)@ == (SceneFlowView { back: final(self)@.back, ..old(self)@ }),
            final(self)@.back.len() <= old(self)@.back.len(),
            final(self)@.back == old(self)@.back.take(final(self)@.back.len() as int),
            partitioned_below(old(self)@.back, old(self)@.stack.len() as usize) ==>
                final(self)@.back == old(self)@.back.take(count_below(old(self)@.back, old(self)@.stack.len() as usize) as int),
    {
        let new_len = self.stack.len();
        let pos = partition_point_below(&self.back, new_len);
        proof {
            lemma_count_below_bound(self.back@, new_len);
        }
        self.back.truncate(pos);
    }
}

proof fn lemma_count_below_bound(back: Seq<usize>, n: usize)
    ensures
        count_below(back, n) <= back.len(),
    decreases back.len(),
{
    if back.len() > 0 {
        lemma_count_below_bound(back.drop_first(), n);
    }
}

/// A scene pushed on the stack is the one the next pop takes off, and the
/// stack is then as before.
pub proof fn law_push_then_pop<S>(v: SceneFlowView<S>, scene: S)
    requires
        v.stack.len() >= 1,
    ensures
        popped_for_chain(pushed(v, scene)) == (v, Some(scene)),
{
    assert(v.stack.push(scene).drop_last() =~= v.stack);
}

/// The bottom scene is never popped: a pop on a stack of one scene leaves it
/// and marks the flow to exit.
pub proof fn law_bottom_scene_stays<S>(v: SceneFlowView<S>)
    requires
        v.stack.len() == 1,
    ensures
        popped_for_chain(v).0.stack == v.stack,
        popped_for_chain(v).1 is None,
        popped_for_chain(v).0.should_exit,
{
}

/// An overlay keeps the scene below running in the background: its index
/// joins the background list, and the stack itself is not changed before the
/// new scene is pushed.
pub proof fn law_overlay_backgrounds_top<S>(v: SceneFlowView<S>, v2: SceneFlowView<S>, step: Step)
    requires
        v.stack.len() >= 1,
        began(v, ActionKind::Overlay, v2, step),
    ensures
        v2.stack == v.stack,
        v2.back == v.back.push((v.stack.len() - 1) as usize),
        step == (Step::Ready { hook: Some(Hook::OnOverlay) }),
{
}

/// Going back to the bottom pops exactly the scenes above the bottom one, and
/// no scene runs in the background afterwards.
pub proof fn law_bottom_pops_all_but_one<S>(v: SceneFlowView<S>, v2: SceneFlowView<S>, step: Step)
    requires
        v.stack.len() >= 1,
        began(v, ActionKind::Bottom, v2, step),
    ensures
        step == (Step::PopChain { count: (v.stack.len() - 1) as usize, clear_back: true }),
        v2 == v,
{
}

/// When the background list keeps its live indices first, cutting it after a
/// pop keeps exactly the indices that still name a scene.
pub proof fn law_cut_back_keeps_live(back: Seq<usize>, n: usize)
    requires
        partitioned_below(back, n),
    ensures
        forall|i: int| 0 <= i < count_below(back, n) ==> #[trigger] back[i] < n,
        count_below(back, n) < back.len() ==> back[count_below(back, n) as int] >= n,
    decreases back.len(),
{
    if back.len() > 0 && back[0] < n {
        let rest = back.drop_first();
        assert forall|i: int, j: int| #![trigger rest[i], rest[j]] 0 <= i < j < rest.len() && rest[j] < n implies rest[i] < n by {
            assert(back[i + 1] == rest[i] && back[j + 1] == rest[j]);
        }
        law_cut_back_keeps_live(rest, n);
        lemma_count_below_bound(rest, n);
        assert forall|i: int| 0 <= i < count_below(back, n) implies #[trigger] back[i] < n by {
            if i > 0 {
                assert(back[i] == rest[i - 1]);
            }
        }
    }
}

/// In a pop chain the result reaches only the scene below the last popped
/// one; the scenes below earlier pops get none. After every pop, the scene
/// below hears `on_result` before `on_pop`, and `on_pop` before `resume`,
/// all after the popped scene's `on_death`.
pub proof fn law_result_goes_to_last_parent(i: usize, count: usize)
    requires
        i < count,
    ensures
        pop_hooks(i, count)[1] == (Hook::OnResult { with_result: i == count - 1 }),
        pop_hooks(i, count) == seq![Hook::OnDeath, pop_hooks(i, count)[1], Hook::OnPop, Hook::Resume],
{
}

/// A pushed scene hears `on_push` right after it is put on the stack, an
/// overlaid one `on_overlay`; a replacing scene hears neither.
pub proof fn law_push_hooks<S>(v: SceneFlowView<S>, kind: ActionKind, v2: SceneFlowView<S>, step: Step)
    requires
        began(v, kind, v2, step),
    ensures
        kind == ActionKind::Push ==> step == (Step::Ready { hook: Some(Hook::OnPush) }),
        kind == ActionKind::Overlay ==> step == (Step::Ready { hook: Some(Hook::OnOverlay) }),
        kind == ActionKind::Replace ==> step == (Step::Ready { hook: None }),
        step is Ready <==> (kind == ActionKind::Push || kind == ActionKind::Overlay || kind == ActionKind::Replace),
{
}

/// A paused flow's update runs no scene callback and changes nothing.
pub proof fn law_paused_update_runs_nothing<S>(v: SceneFlowView<S>)
    requires
        v.paused,
    ensures
        update_next_spec(v, StageView::Start) == (v, None::<(FrameCall, StageView)>),
{
}

/// A frame's update that finds no scene left runs nothing more and marks the
/// flow to exit.
pub proof fn law_update_without_scenes_exits<S>(v: SceneFlowView<S>, stage: StageView)
    requires
        v.stack.len() == 0,
        !(stage is Finished),
        !(stage is Start && v.paused),
    ensures
        update_next_spec(v, stage) == (SceneFlowView { should_exit: true, ..v }, None::<(FrameCall, StageView)>),
{
}

/// Before the new scene is pushed, a push changes nothing: the scene below
/// stops running and does not join the background. Only an overlay adds to
/// the background list, and no action but an overlay or `Bottom` (which
/// empties it after its pops) changes it when it begins.
pub proof fn law_only_overlay_backgrounds<S>(v: SceneFlowView<S>, kind: ActionKind, v2: SceneFlowView<S>, step: Step)
    requires
        began(v, kind, v2, step),
    ensures
        kind == ActionKind::Push ==> v2 == v,
        kind != ActionKind::Overlay ==> v2.back == v.back,
        v2.back.len() > v.back.len() ==> kind == ActionKind::Overlay,
{
}

/// The calls that a frame's update makes for background scenes name scenes
/// of the list it runs, that are still on the stack; and each background
/// scene's `back` is followed by `process` of that same scene.
pub proof fn law_background_calls_follow_the_list<S>(v: SceneFlowView<S>, list: Seq<usize>, at: usize, process: bool)
    ensures
        background_step(v, list, at, process).1 matches Some((FrameCall::Back(i), StageView::Background { .. }))
            ==> list.contains(i) && i < v.stack.len(),
        background_step(v, list, at, process).1 matches Some((FrameCall::Process(i), StageView::Background { .. }))
            ==> list.contains(i) && i < v.stack.len(),
        background_step(v, list, at, false).1 matches Some((FrameCall::Back(i), s)) ==> (s is Background
            ==> (update_next_spec(background_step(v, list, at, false).0, s).1 matches Some((FrameCall::Process(j), _)) && j == i)),
{
    if at < list.len() {
        assert(list[at as int] == list[at as int]);
        assert(list.contains(list[at as int]));
    }
}

/// Beginning an action: a replace takes the top scene off (the new one goes
/// in its place); exit only marks the flow; nothing, pop and pop many leave
/// the stack as it is and ask for as many pops as they name.
pub proof fn law_actions_begin<S>(v: SceneFlowView<S>, kind: ActionKind, v2: SceneFlowView<S>, step: Step)
    requires
        began(v, kind, v2, step),
    ensures
        kind == ActionKind::Replace && v.stack.len() > 0 ==> v2.stack == v.stack.drop_last() && v2.back == v.back,
        kind == ActionKind::Exit ==> v2.should_exit && v2.stack == v.stack && v2.back == v.back,
        kind == ActionKind::Nothing ==> v2 == v && step == Step::Done,
        kind == ActionKind::Pop ==> v2 == v && step == (Step::PopChain { count: 1, clear_back: false }),
        kind is PopMany && kind->PopMany_0 > 0 ==> v2 == v
            && step == (Step::PopChain { count: kind->PopMany_0, clear_back: false }),
        kind != ActionKind::Exit ==> v2.should_exit == v.should_exit,
        v2.paused == v.paused,
{
}

/// The stack after `k` pops of a pop chain, with no callback in between.
pub open spec fn popped_times<S>(v: SceneFlowView<S>, k: nat) -> SceneFlowView<S>
    decreases k,
{
    if k == 0 {
        v
    } else {
        popped_for_chain(popped_times(v, (k - 1) as nat)).0
    }
}

/// Popping as many scenes as lie above the bottom one leaves exactly the
/// bottom scene, and popping more never removes it.
pub proof fn law_bottom_remains<S>(v: SceneFlowView<S>, extra: nat)
    requires
        v.stack.len() >= 1,
    ensures
        popped_times(v, (v.stack.len() - 1 + extra) as nat).stack == seq![v.stack[0]],
    decreases extra,
{
    if extra == 0 {
        lemma_popped_times_prefix(v, (v.stack.len() - 1) as nat);
        assert(v.stack.take(1) =~= seq![v.stack[0]]);
    } else {
        law_bottom_remains(v, (extra - 1) as nat);
    }
}

proof fn lemma_popped_times_prefix<S>(v: SceneFlowView<S>, k: nat)
    requires
        k < v.stack.len(),
    ensures
        popped_times(v, k).stack == v.stack.take(v.stack.len() - k),
    decreases k,
{
    if k == 0 {
        assert(v.stack.take(v.stack.len() as int) =~= v.stack);
    } else {
        lemma_popped_times_prefix(v, (k - 1) as nat);
        let w = popped_times(v, (k - 1) as nat);
        assert(w.stack.drop_last() =~= v.stack.take(v.stack.len() - k));
    }
}

} // verus!
