//! The registry of scenes by name.

use vstd::prelude::*;
use vstd::hash_map::StringHashMap;
use std::sync::Arc;
use crate::bus::announce;
use crate::bus::share;
use crate::error::as_verdict;
use crate::error::Refusal;
use crate::error::TransitionError;
use crate::event::ChangeSceneEvent;
use crate::event::EventState;
use crate::scene::Scene;

verus! {

/// The scenes that are registered, each under its name. A name has at most one
/// scene. The registry shares ownership of a scene with the events that are in
/// flight for it, so replacing a scene never pulls it from under a listener.
pub struct SceneManager {
    scene_map: StringHashMap<Arc<Scene>>,
}

impl View for SceneManager {
    type V = Map<Seq<char>, Scene>;

    closed spec fn view(&self) -> Map<Seq<char>, Scene> {
        Map::new(
            |name: Seq<char>| self.scene_map@.contains_key(name),
            |name: Seq<char>| *self.scene_map@[name],
        )
    }
}

/// The scene that a shared handle leads to, if there is a handle.
pub open spec fn scene_of(handle: Option<Arc<Scene>>) -> Option<Scene> {
    match handle {
        Some(scene) => Some(*scene),
        None => None,
    }
}

/// The registry that a run of `add_scene` calls leaves behind, the first call
/// first. Each call is a name and the scene registered under it.
pub open spec fn after_adds(start: Map<Seq<char>, Scene>, calls: Seq<(Seq<char>, Scene)>) -> Map<
    Seq<char>,
    Scene,
>
    decreases calls.len(),
{
    if calls.len() == 0 {
        start
    } else {
        after_adds(start, calls.drop_last()).insert(calls.last().0, calls.last().1)
    }
}

/// What the call at `index` of such a run hands back: the entry that its name
/// had when the calls before it were done.
pub open spec fn handed_back(
    start: Map<Seq<char>, Scene>,
    calls: Seq<(Seq<char>, Scene)>,
    index: int,
) -> Option<Scene>
    recommends
        0 <= index < calls.len(),
{
    after_adds(start, calls.take(index)).get(calls[index].0)
}

/// Whether no call of the run from `from` up to, not including, `to` names `name`.
pub open spec fn unnamed_between(calls: Seq<(Seq<char>, Scene)>, name: Seq<char>, from: int, to: int) -> bool {
    forall|j: int| from <= j < to && 0 <= j < calls.len() ==> (#[trigger] calls[j]).0 != name
}

impl SceneManager {
    /// An empty registry.
    pub fn new() -> (manager: Self)
        ensures
            manager@ == Map::<Seq<char>, Scene>::empty(),
    {
        let manager = SceneManager { scene_map: StringHashMap::new() };
        assert(manager@ =~= Map::<Seq<char>, Scene>::empty());
        manager
    }

    /// Registers `scene` under `name`. A scene that was registered under that
    /// name before is replaced and handed back; every other entry stays.
    pub fn add_scene(&mut self, name: String, scene: Scene) -> (previous: Option<Arc<Scene>>)
        ensures
            final(self)@ == old(self)@.insert(name@, scene),
            scene_of(previous) == old(self)@.get(name@),
    {
        let previous = match self.scene_map.get(name.as_str()) {
            Some(found) => Some(share(found)),
            None => None,
        };
        self.scene_map.insert(name, Arc::new(scene));
        assert(self@ =~= old(self)@.insert(name@, scene));
        previous
    }

    /// Looks the name up and, where a scene is registered under it, makes the
    /// event that announces the transition: for that scene, not cancelled,
    /// without a reason. An unregistered name is a `ProgrammingError`.
    pub fn begin_transition(&self, name: &str) -> (started: Result<ChangeSceneEvent, TransitionError>)
        ensures
            match started {
                Ok(event) => self@.contains_key(name@) && event@ == EventState::fresh(self@[name@]),
                Err(error) => !self@.contains_key(name@) && error@ == Refusal::ProgrammingError,
            },
    {
        match self.scene_map.get(name) {
            Some(found) => Ok(ChangeSceneEvent::new(share(found))),
            None => Err(TransitionError::ProgrammingError),
        }
    }

    /// Requests the transition to the scene registered under `name`. An
    /// unregistered name fails with `ProgrammingError`, and no listener hears of
    /// it. For a registered name the event is announced on the engine's channel
    /// and the listeners decide: the request succeeds unless the event comes back
    /// cancelled. The registry itself is never changed.
    pub fn render_scene(&self, name: String) -> (result: Result<(), TransitionError>)
        ensures
            !self@.contains_key(name@) <==> as_verdict(result) == Err::<(), Refusal>(
                Refusal::ProgrammingError,
            ),
    {
        match self.begin_transition(name.as_str()) {
            Ok(event) => announce(event),
            Err(error) => Err(error),
        }
    }

    /// After any run of registrations a name is registered if and only if it was
    /// registered at the start or some call of the run named it. The registry is
    /// a map, so each such name has exactly one scene.
    pub proof fn lemma_registered_names(
        start: Map<Seq<char>, Scene>,
        calls: Seq<(Seq<char>, Scene)>,
        name: Seq<char>,
    )
        ensures
            after_adds(start, calls).contains_key(name) <==> start.contains_key(name)
                || !unnamed_between(calls, name, 0, calls.len() as int),
        decreases calls.len(),
    {
        if calls.len() > 0 {
            let earlier = calls.drop_last();
            Self::lemma_registered_names(start, earlier, name);
            if calls.last().0 == name {
                assert(calls[calls.len() - 1].0 == name);
            } else if unnamed_between(earlier, name, 0, earlier.len() as int) {
                assert forall|j: int| 0 <= j < calls.len() implies (#[trigger] calls[j]).0
                    != name by {
                    if j < earlier.len() {
                        assert(earlier[j] == calls[j]);
                    }
                }
            } else {
                let j = choose|j: int| 0 <= j < earlier.len() && (#[trigger] earlier[j]).0 == name;
                assert(calls[j] == earlier[j]);
            }
        }
    }

    /// After any run of registrations the registry holds, for each name, the
    /// scene of the last call that named it. A name that no call named is as it
    /// was at the start: registered with its old scene, or not registered.
    pub proof fn lemma_last_registration_stands(
        start: Map<Seq<char>, Scene>,
        calls: Seq<(Seq<char>, Scene)>,
        name: Seq<char>,
    )
        ensures
            unnamed_between(calls, name, 0, calls.len() as int) ==> after_adds(start, calls).get(name)
                == start.get(name),
            forall|i: int|
                0 <= i < calls.len() && (#[trigger] calls[i]).0 == name && unnamed_between(
                    calls,
                    name,
                    i + 1,
                    calls.len() as int,
                ) ==> after_adds(start, calls).get(name) == Some(calls[i].1),
        decreases calls.len(),
    {
        if calls.len() > 0 {
            let earlier = calls.drop_last();
            Self::lemma_last_registration_stands(start, earlier, name);
            if calls.last().0 != name {
                assert forall|i: int|
                    0 <= i < calls.len() && (#[trigger] calls[i]).0 == name && unnamed_between(
                        calls,
                        name,
                        i + 1,
                        calls.len() as int,
                    ) implies after_adds(start, calls).get(name) == Some(calls[i].1) by {
                    assert(earlier[i] == calls[i]);
                    assert(unnamed_between(earlier, name, i + 1, earlier.len() as int)) by {
                        assert forall|j: int|
                            i + 1 <= j < earlier.len() && 0 <= j < earlier.len() implies (
                        #[trigger] earlier[j]).0 != name by {
                            assert(earlier[j] == calls[j]);
                        }
                    }
                }
                if unnamed_between(calls, name, 0, calls.len() as int) {
                    assert forall|j: int| 0 <= j < earlier.len() implies (#[trigger] earlier[j]).0
                        != name by {
                        assert(earlier[j] == calls[j]);
                    }
                }
            } else {
                assert(calls[calls.len() - 1].0 == name);
            }
        }
    }

    /// Each call of a run hands back what the last call before it registered
    /// under the same name. Where no call before it named that name, it hands
    /// back the entry from the start, or nothing on a first registration.
    pub proof fn lemma_handed_back_is_previous(
        start: Map<Seq<char>, Scene>,
        calls: Seq<(Seq<char>, Scene)>,
        index: int,
    )
        requires
            0 <= index < calls.len(),
        ensures
            unnamed_between(calls, calls[index].0, 0, index) ==> handed_back(start, calls, index)
                == start.get(calls[index].0),
            forall|i: int|
                0 <= i < index && (#[trigger] calls[i]).0 == calls[index].0 && unnamed_between(
                    calls,
                    calls[index].0,
                    i + 1,
                    index,
                ) ==> handed_back(start, calls, index) == Some(calls[i].1),
    {
        let before = calls.take(index);
        let name = calls[index].0;
        Self::lemma_last_registration_stands(start, before, name);
        if unnamed_between(calls, name, 0, index) {
            assert forall|j: int| 0 <= j < before.len() implies (#[trigger] before[j]).0 != name by {
                assert(before[j] == calls[j]);
            }
        }
        assert forall|i: int|
            0 <= i < index && (#[trigger] calls[i]).0 == name && unnamed_between(
                calls,
                name,
                i + 1,
                index,
            ) implies handed_back(start, calls, index) == Some(calls[i].1) by {
            assert(before[i] == calls[i]);
            assert forall|j: int| i + 1 <= j < before.len() && 0 <= j < before.len() implies (
            #[trigger] before[j]).0 != name by {
                assert(before[j] == calls[j]);
            }
        }
    }
}

} // verus!
