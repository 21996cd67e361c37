//! One registry for many threads.

use vstd::prelude::*;
use std::sync::Arc;
use std::sync::Mutex;
use std::sync::MutexGuard;
use std::sync::PoisonError;
use crate::bus::announce;
use crate::bus::share;
use crate::error::TransitionError;
use crate::manager::SceneManager;
use crate::scene::Scene;

verus! {

/// `std::sync::Mutex`, which Verus takes as an opaque type.
#[verifier::external_type_specification]
#[verifier::external_body]
#[verifier::reject_recursive_types(T)]
pub struct ExMutex<T: ?Sized>(Mutex<T>);

/// `std::sync::MutexGuard`, which Verus takes as an opaque type.
#[verifier::external_type_specification]
#[verifier::external_body]
#[verifier::reject_recursive_types(T)]
pub struct ExMutexGuard<'a, T: ?Sized + 'a>(MutexGuard<'a, T>);

/// `std::sync::PoisonError`, which Verus takes as an opaque type.
#[verifier::external_type_specification]
#[verifier::external_body]
#[verifier::reject_recursive_types(T)]
pub struct ExPoisonError<T>(PoisonError<T>);

/// Calls `Mutex::new`: a lock around the registry, not held and not poisoned.
#[verifier::external_body]
fn guarded(manager: SceneManager) -> Mutex<SceneManager> {
    Mutex::new(manager)
}

/// Calls `Mutex::lock`, which waits until no other thread holds the lock. It
/// answers with the guard in either case: `Err` where a thread panicked while it
/// held the lock. What the registry holds at that moment is up to the threads
/// that had the lock before, so nothing is claimed of it. The call may panic or
/// wait for ever where the calling thread holds the lock already; this module
/// never locks while it holds a guard.
#[verifier::external_body]
fn lock<'a>(mutex: &'a Mutex<SceneManager>) -> Result<
    MutexGuard<'a, SceneManager>,
    PoisonError<MutexGuard<'a, SceneManager>>,
> {
    mutex.lock()
}

/// Calls `PoisonError::into_inner`: the guard that a poisoned lock still gave.
#[verifier::external_body]
fn recover<'a>(poisoned: PoisonError<MutexGuard<'a, SceneManager>>) -> MutexGuard<
    'a,
    SceneManager,
> {
    poisoned.into_inner()
}

/// Calls the guard's `Deref::deref`: the registry behind the lock, to read.
#[verifier::external_body]
fn held<'a, 'b>(guard: &'b MutexGuard<'a, SceneManager>) -> &'b SceneManager {
    std::ops::Deref::deref(guard)
}

/// Calls the guard's `DerefMut::deref_mut`: the registry behind the lock, to change.
#[verifier::external_body]
fn held_mut<'a, 'b>(guard: &'b mut MutexGuard<'a, SceneManager>) -> &'b mut SceneManager {
    std::ops::DerefMut::deref_mut(guard)
}

/// A handle to a registry that threads share. Every clone of a handle leads to
/// the same registry. Each operation takes the one lock for as long as it
/// touches the registry, and no longer: listeners run with the lock released,
/// so a listener may itself use the registry.
///
/// What an operation finds depends on what other threads did before it got the
/// lock. Its effect on the registry it finds is that of the operation of the
/// same name on `SceneManager`.
pub struct SharedSceneManager {
    scene_map: Arc<Mutex<SceneManager>>,
}

impl Clone for SharedSceneManager {
    /// Another handle to the same registry.
    fn clone(&self) -> Self {
        SharedSceneManager { scene_map: share(&self.scene_map) }
    }
}

impl SharedSceneManager {
    /// A handle to a new, empty registry.
    pub fn new() -> Self {
        SharedSceneManager { scene_map: Arc::new(guarded(SceneManager::new())) }
    }

    /// Takes the lock. A lock that was poisoned by a panic in another thread is
    /// taken all the same: the registry behind it is whole, since each change to
    /// it is a single insertion.
    fn acquire(&self) -> MutexGuard<'_, SceneManager> {
        match lock(&self.scene_map) {
            Ok(guard) => guard,
            Err(poisoned) => recover(poisoned),
        }
    }

    /// Registers `scene` under `name` in the shared registry, as
    /// `SceneManager::add_scene` does, and hands back the scene that the name
    /// had when this call held the lock.
    pub fn add_scene(&self, name: String, scene: Scene) -> Option<Arc<Scene>> {
        let mut guard = self.acquire();
        held_mut(&mut guard).add_scene(name, scene)
    }

    /// Requests the transition to the scene that `name` has in the shared
    /// registry. The lock is held for the lookup alone and is released before
    /// the event is announced.
    pub fn render_scene(&self, name: String) -> Result<(), TransitionError> {
        let started = {
            let guard = self.acquire();
            held(&guard).begin_transition(name.as_str())
        };
        match started {
            Ok(event) => announce(event),
            Err(error) => Err(error),
        }
    }
}

} // verus!
