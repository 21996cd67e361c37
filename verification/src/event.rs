//! The cancellable event that announces a requested transition.

use vstd::prelude::*;
use std::sync::Arc;
use crate::error::as_verdict;
use crate::error::reason_text;
use crate::error::Refusal;
use crate::error::TransitionError;
use crate::scene::Scene;

verus! {

/// What an event holds, as contracts see it.
pub struct EventState {
    /// The scene that the transition leads to.
    pub scene: Scene,
    /// Whether a listener has vetoed the transition.
    pub cancelled: bool,
    /// The reason that came with the last write of the flag.
    pub reason: Option<Seq<char>>,
}

impl EventState {
    /// The state of an event that no listener has touched.
    pub open spec fn fresh(scene: Scene) -> EventState {
        EventState { scene, cancelled: false, reason: None }
    }

    /// The state after one write of the flag and the reason. Both are replaced,
    /// whatever they were and whether or not they fit together; the scene stays.
    pub open spec fn write(self, cancel: bool, reason: Option<Seq<char>>) -> EventState {
        EventState { scene: self.scene, cancelled: cancel, reason }
    }

    /// The state after a run of writes, the first of them first.
    pub open spec fn write_all(self, writes: Seq<(bool, Option<Seq<char>>)>) -> EventState
        decreases writes.len(),
    {
        if writes.len() == 0 {
            self
        } else {
            self.write_all(writes.drop_last()).write(writes.last().0, writes.last().1)
        }
    }

    /// How a transition ends when its event is left in this state: approved
    /// unless the flag is set, and refused with the recorded reason if it is.
    pub open spec fn verdict(self) -> Result<(), Refusal> {
        if self.cancelled {
            Err(Refusal::Cancelled(self.reason))
        } else {
            Ok(())
        }
    }
}

/// A request to change to a scene, handed to every listener on the engine's
/// channel before the change is made. The event shares ownership of the scene,
/// so the scene outlives the event whatever happens to the registry meanwhile.
pub struct ChangeSceneEvent {
    scene: Arc<Scene>,
    cancelled: bool,
    reason: Option<String>,
}

impl View for ChangeSceneEvent {
    type V = EventState;

    closed spec fn view(&self) -> EventState {
        EventState {
            scene: *self.scene,
            cancelled: self.cancelled,
            reason: reason_text(self.reason),
        }
    }
}

impl ChangeSceneEvent {
    /// An event for a transition to `scene`, not cancelled and without a reason.
    pub fn new(scene: Arc<Scene>) -> (event: Self)
        ensures
            event@ == EventState::fresh(*scene),
    {
        ChangeSceneEvent { scene, cancelled: false, reason: None }
    }

    /// The scene that the transition leads to. It can be read, not changed.
    pub fn scene(&self) -> (scene: &Scene)
        ensures
            *scene == self@.scene,
    {
        &self.scene
    }

    /// An event of this kind can always be cancelled.
    pub fn cancellable(&self) -> (yes: bool)
        ensures
            yes,
    {
        true
    }

    /// Whether the transition stands cancelled.
    pub fn cancelled(&self) -> (flag: bool)
        ensures
            flag == self@.cancelled,
    {
        self.cancelled
    }

    /// The reason recorded with the last write, if there is one.
    pub fn get_cancelled_reason(&self) -> (reason: Option<String>)
        ensures
            reason_text(reason) == self@.reason,
    {
        match &self.reason {
            Some(text) => Some(text.clone()),
            None => None,
        }
    }

    /// Replaces the flag and the reason, both of them, every time. The two are
    /// not made to fit: a reason may come with `false` and stays on record, and
    /// `true` may come without one. The last write stands.
    pub fn set_cancelled(&mut self, cancel: bool, reason: Option<String>)
        ensures
            final(self)@ == old(self)@.write(cancel, reason_text(reason)),
    {
        self.cancelled = cancel;
        self.reason = reason;
    }

    /// How the transition ends once every listener has seen the event.
    pub fn outcome(&self) -> (result: Result<(), TransitionError>)
        ensures
            as_verdict(result) == self@.verdict(),
    {
        if self.cancelled {
            Err(TransitionError::Cancelled(self.get_cancelled_reason()))
        } else {
            Ok(())
        }
    }

    /// No run of writes changes the scene that an event leads to.
    pub proof fn lemma_writes_keep_scene(start: EventState, writes: Seq<(bool, Option<Seq<char>>)>)
        ensures
            start.write_all(writes).scene == start.scene,
        decreases writes.len(),
    {
        if writes.len() > 0 {
            Self::lemma_writes_keep_scene(start, writes.drop_last());
        }
    }

    /// The last write decides: after any run of writes that is not empty, the
    /// flag and the reason are those of the last one, whatever came before, and
    /// the transition ends as that one write alone would have it end.
    pub proof fn lemma_last_write_wins(start: EventState, writes: Seq<(bool, Option<Seq<char>>)>)
        requires
            writes.len() > 0,
        ensures
            start.write_all(writes) == start.write(writes.last().0, writes.last().1),
            start.write_all(writes).verdict() == if writes.last().0 {
                Err::<(), Refusal>(Refusal::Cancelled(writes.last().1))
            } else {
                Ok::<(), Refusal>(())
            },
    {
        Self::lemma_writes_keep_scene(start, writes.drop_last());
    }

    /// An event that no listener has written to ends in approval.
    pub proof fn lemma_untouched_is_approved(scene: Scene)
        ensures
            EventState::fresh(scene).verdict() is Ok,
    {
    }
}

/// The event as the dispatcher sees it. The dispatcher's own setter carries no
/// reason, so a write through it records none.
impl event_bus::Event for ChangeSceneEvent {
    fn cancellable(&self) -> (yes: bool)
        ensures
            yes,
    {
        true
    }

    fn cancelled(&self) -> (flag: bool)
        ensures
            flag == self@.cancelled,
    {
        self.cancelled
    }

    fn set_cancelled(&mut self, cancel: bool)
        ensures
            final(self)@ == old(self)@.write(cancel, None),
    {
        self.cancelled = cancel;
        self.reason = None;
    }
}

} // verus!
