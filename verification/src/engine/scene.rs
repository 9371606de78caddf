//! The scene stack: which scene receives events and frames, and which scene
//! lifecycle calls a transition asks of the host. Scenes are identified by
//! the host's handles.

use vstd::prelude::*;

verus! {

/// What a scene asks for after handling an event or an update.
#[derive(Debug, Clone, Copy, PartialEq, Eq, Structural)]
pub enum Transition {
    /// Pause the current scene and start the given one on top of it.
    Push(u64),
    /// Replace the current scene (not acted upon).
    Switch(u64),
    /// Leave the current scene (not acted upon).
    Pop,
    /// Carry on.
    Stay,
    /// Stop every scene.
    Quit,
}

/// A lifecycle call the host makes on one of its scenes.
#[derive(Debug, Clone, Copy, PartialEq, Eq, Structural)]
pub enum SceneCall {
    Start(u64),
    Stop(u64),
    Pause(u64),
    Resume(u64),
}

/// The abstract state of the scene stack.
pub struct SceneManagerView {
    pub scenes: Seq<u64>,
    pub is_running: bool,
}

/// The stop calls for a stack: every scene once, from the top down.
pub open spec fn stop_calls(scenes: Seq<u64>) -> Seq<SceneCall> {
    Seq::new(scenes.len(), |i: int| SceneCall::Stop(scenes[scenes.len() - 1 - i]))
}

/// Pushing a scene: the current top (if any) is paused, the new scene is
/// pushed and started.
pub open spec fn spec_push(v: SceneManagerView, scene: u64) -> (SceneManagerView, Seq<SceneCall>) {
    (
        SceneManagerView { scenes: v.scenes.push(scene), is_running: v.is_running },
        if v.scenes.len() > 0 {
            seq![SceneCall::Pause(v.scenes.last()), SceneCall::Start(scene)]
        } else {
            seq![SceneCall::Start(scene)]
        },
    )
}

/// Stopping: a running manager stops and drops every scene, top first, and
/// is no longer running; a stopped one does nothing.
pub open spec fn spec_stop(v: SceneManagerView) -> (SceneManagerView, Seq<SceneCall>) {
    if v.is_running {
        (SceneManagerView { scenes: seq![], is_running: false }, stop_calls(v.scenes))
    } else {
        (v, seq![])
    }
}

/// The effect of a transition: `Push` pushes, `Quit` stops, the others
/// change nothing.
pub open spec fn spec_transition(v: SceneManagerView, t: Transition) -> (SceneManagerView, Seq<SceneCall>) {
    match t {
        Transition::Push(s) => spec_push(v, s),
        Transition::Quit => spec_stop(v),
        _ => (v, seq![]),
    }
}

/// The scene that receives events, updates and draws: the top of the stack,
/// while the manager runs.
pub open spec fn spec_active_scene(v: SceneManagerView) -> Option<u64> {
    if v.is_running && v.scenes.len() > 0 {
        Some(v.scenes.last())
    } else {
        None
    }
}

/// A stack of scenes of which the top one is active.
pub struct SceneManager {
    scenes: Vec<u64>,
    is_running: bool,
}

impl View for SceneManager {
    type V = SceneManagerView;

    closed spec fn view(&self) -> SceneManagerView {
        SceneManagerView { scenes: self.scenes@, is_running: self.is_running }
    }
}

impl SceneManager {
    /// A manager holding only the initial scene, not yet running.
    pub fn new(initial_scene: u64) -> (r: SceneManager)
        ensures
            r@.scenes == seq![initial_scene],
            !r@.is_running,
    {
        let mut scenes: Vec<u64> = Vec::new();
        scenes.push(initial_scene);
        SceneManager { scenes, is_running: false }
    }

    /// Starts the top scene and sets the manager running.
    pub fn initialize(&mut self) -> (r: SceneCall)
        requires
            old(self)@.scenes.len() > 0,
        ensures
            r == SceneCall::Start(old(self)@.scenes.last()),
            final(self)@.scenes == old(self)@.scenes,
            final(self)@.is_running,
    {
        self.is_running = true;
        SceneCall::Start(self.scenes[self.scenes.len() - 1])
    }

    pub fn is_running(&self) -> (r: bool)
        ensures
            r == self@.is_running,
    {
        self.is_running
    }

    /// The scene that handles events, updates and draws, if any.
    pub fn active_scene(&self) -> (r: Option<u64>)
        ensures
            r == spec_active_scene(self@),
    {
        if self.is_running && self.scenes.len() > 0 {
            Some(self.scenes[self.scenes.len() - 1])
        } else {
            None
        }
    }

    /// Pauses the current scene (running or not); `None` on an empty stack.
    pub fn pause(&self) -> (r: Option<SceneCall>)
        ensures
            self@.scenes.len() > 0 ==> r == Some(SceneCall::Pause(self@.scenes.last())),
            self@.scenes.len() == 0 ==> r is None,
    {
        if self.scenes.len() > 0 {
            Some(SceneCall::Pause(self.scenes[self.scenes.len() - 1]))
        } else {
            None
        }
    }

    /// Resumes the current scene (running or not); `None` on an empty stack.
    pub fn resume(&self) -> (r: Option<SceneCall>)
        ensures
            self@.scenes.len() > 0 ==> r == Some(SceneCall::Resume(self@.scenes.last())),
            self@.scenes.len() == 0 ==> r is None,
    {
        if self.scenes.len() > 0 {
            Some(SceneCall::Resume(self.scenes[self.scenes.len() - 1]))
        } else {
            None
        }
    }

    /// Pauses the current scene and starts `scene` on top of it.
    pub fn push(&mut self, scene: u64) -> (calls: Vec<SceneCall>)
        ensures
            (final(self)@, calls@) == spec_push(old(self)@, scene),
            final(self)@.scenes == old(self)@.scenes.push(scene),
            final(self)@.is_running == old(self)@.is_running,
            calls@.len() == (if old(self)@.scenes.len() > 0 { 2int } else { 1int }),
            calls@.last() == SceneCall::Start(scene),
            forall|i: int| 0 <= i < calls@.len() - 1 ==> #[trigger] calls@[i] == SceneCall::Pause(old(self)@.scenes.last()),
    {
        let mut calls: Vec<SceneCall> = Vec::new();
        if self.scenes.len() > 0 {
            calls.push(SceneCall::Pause(self.scenes[self.scenes.len() - 1]));
        }
        self.scenes.push(scene);
        calls.push(SceneCall::Start(scene));
        proof {
            if old(self)@.scenes.len() > 0 {
                assert(calls@ =~= seq![SceneCall::Pause(old(self)@.scenes.last()), SceneCall::Start(scene)]);
            } else {
                assert(calls@ =~= seq![SceneCall::Start(scene)]);
            }
        }
        calls
    }

    /// Stops every scene, top first, if the manager runs.
    pub fn stop(&mut self) -> (calls: Vec<SceneCall>)
        ensures
            (final(self)@, calls@) == spec_stop(old(self)@),
    {
        let mut calls: Vec<SceneCall> = Vec::new();
        if self.is_running {
            let ghost s = self.scenes@;
            while self.scenes.len() > 0
                invariant
                    s == old(self)@.scenes,
                    self.scenes@ == s.take(self.scenes@.len() as int),
                    self.scenes@.len() <= s.len(),
                    calls@ == stop_calls(s).take(s.len() - self.scenes@.len()),
                decreases self.scenes@.len(),
            {
                let ghost n = self.scenes@.len();
                let top = self.scenes.pop().unwrap();
                assert(top == s[n - 1]);
                calls.push(SceneCall::Stop(top));
                assert(self.scenes@ =~= s.take(self.scenes@.len() as int));
                assert(calls@ =~= stop_calls(s).take(s.len() - self.scenes@.len()));
            }
            self.is_running = false;
            assert(self.scenes@ =~= seq![]);
            assert(calls@ =~= stop_calls(s));
        }
        calls
    }

    /// Acts on what the active scene asked for.
    pub fn handle_transition(&mut self, transition: Transition) -> (calls: Vec<SceneCall>)
        ensures
            (final(self)@, calls@) == spec_transition(old(self)@, transition),
    {
        match transition {
            Transition::Push(scene) => self.push(scene),
            Transition::Quit => self.stop(),
            _ => Vec::new(),
        }
    }
}

/// A push pauses only the scene on top, if there is one, and then starts the
/// pushed scene, which goes on top; the scenes below are left alone.
pub proof fn lemma_push_pauses_only_the_top(v: SceneManagerView, scene: u64)
    ensures
        spec_push(v, scene).0.scenes == v.scenes.push(scene),
        spec_push(v, scene).1.len() == (if v.scenes.len() > 0 { 2int } else { 1int }),
        spec_push(v, scene).1.last() == SceneCall::Start(scene),
        forall|i: int|
            0 <= i < spec_push(v, scene).1.len() - 1 ==> #[trigger] spec_push(v, scene).1[i] == SceneCall::Pause(
                v.scenes.last(),
            ),
{
}

/// Stopping is idempotent: a second stop changes nothing and calls nothing.
pub proof fn lemma_stop_idempotent(v: SceneManagerView)
    ensures
        spec_stop(spec_stop(v).0) == (spec_stop(v).0, Seq::<SceneCall>::empty()),
{
}

/// After a stop no scene is active any more.
pub proof fn lemma_no_active_scene_after_stop(v: SceneManagerView)
    requires
        v.is_running,
    ensures
        spec_active_scene(spec_stop(v).0) is None,
        spec_stop(v).0.scenes.len() == 0,
{
}

/// A pushed scene becomes the active one while the manager runs, and the
/// scene below it is the one that was paused.
pub proof fn lemma_push_activates(v: SceneManagerView, scene: u64)
    requires
        v.is_running,
    ensures
        spec_active_scene(spec_transition(v, Transition::Push(scene)).0) == Some(scene),
        v.scenes.len() > 0 ==> spec_transition(v, Transition::Push(scene)).1[0] == SceneCall::Pause(
            v.scenes.last(),
        ),
{
}

/// Quitting stops every scene of the stack exactly once, the most recently
/// pushed first.
pub proof fn lemma_quit_stops_each_scene_once(v: SceneManagerView)
    requires
        v.is_running,
    ensures
        spec_transition(v, Transition::Quit).1.len() == v.scenes.len(),
        forall|i: int|
            0 <= i < v.scenes.len() ==> #[trigger] spec_transition(v, Transition::Quit).1[i] == SceneCall::Stop(
                v.scenes[v.scenes.len() - 1 - i],
            ),
{
}

/// Switching, popping and staying leave the stack untouched.
pub proof fn lemma_inert_transitions(v: SceneManagerView, t: Transition)
    requires
        t is Switch || t is Pop || t is Stay,
    ensures
        spec_transition(v, t) == (v, Seq::<SceneCall>::empty()),
{
}

} // verus!
