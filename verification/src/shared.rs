//! What all threads share while XInput is loaded and used: the status word,
//! the two entry points, and the loaded module, and the invariant that every
//! loader step keeps on them, whatever the interleaving of threads.

use vstd::prelude::*;

use crate::loader::{
    accepts, action_of, claim_failure, load_next, phase_wf, status_after, LoadAction, LoadEvent,
    LoadPhase, XInputLoadingFailure, STATUS_ACTIVE, STATUS_LOADING, STATUS_UNINITIALIZED,
};

verus! {

/// The shared state that loading and polling read and write.
pub struct SharedState {
    /// The status word.
    pub status: usize,
    /// Whether the `XInputGetState` entry point is kept for polling.
    pub get_state_kept: bool,
    /// Whether the `XInputSetState` entry point is kept for rumbling.
    pub set_state_kept: bool,
    /// Whether a loaded module is kept as the XInput module.
    pub module_kept: bool,
}

/// The shared state when the program starts: nothing loaded.
pub open spec fn initial_shared() -> SharedState {
    SharedState {
        status: STATUS_UNINITIALIZED,
        get_state_kept: false,
        set_state_kept: false,
        module_kept: false,
    }
}

/// Whether `event` is what performing `action` can report on `shared`: a
/// claim reports the result of its compare-and-swap on the status word;
/// loading a library and looking up the entry points can report anything of
/// the right kind; publishing and releasing report that they are done.
pub open spec fn possible_event(shared: SharedState, action: LoadAction, event: LoadEvent) -> bool {
    match action {
        LoadAction::ClaimStatus => event == (LoadEvent::Claimed {
            swap: if shared.status == STATUS_UNINITIALIZED {
                Ok(shared.status)
            } else {
                Err(shared.status)
            },
        }),
        LoadAction::LoadLibrary { .. } => event is LibraryLoaded,
        LoadAction::LookUpEntryPoints => event is EntryPointsFound,
        LoadAction::Publish => event is Applied,
        LoadAction::Release { .. } => event is Applied,
        LoadAction::Report { .. } => false,
    }
}

/// The shared state after performing `action`, which reported `event`, on
/// `shared`: the entry points found are kept, publishing keeps the module,
/// releasing with `free_library` forgets the entry points, and every status
/// change is the compare-and-swap that the action names.
pub open spec fn shared_after(shared: SharedState, action: LoadAction, event: LoadEvent) -> SharedState {
    match (action, event) {
        (LoadAction::LookUpEntryPoints, LoadEvent::EntryPointsFound { get_state, set_state }) => SharedState {
            get_state_kept: shared.get_state_kept || get_state,
            set_state_kept: shared.set_state_kept || set_state,
            ..shared
        },
        (LoadAction::Publish, _) => SharedState {
            status: status_after(shared.status, action),
            module_kept: true,
            ..shared
        },
        (LoadAction::Release { free_library }, _) => SharedState {
            status: status_after(shared.status, action),
            get_state_kept: if free_library {
                false
            } else {
                shared.get_state_kept
            },
            set_state_kept: if free_library {
                false
            } else {
                shared.set_state_kept
            },
            ..shared
        },
        _ => SharedState { status: status_after(shared.status, action), ..shared },
    }
}

/// Whether a loader in `phase` owns the load: it has claimed the status word
/// and not yet given it up.
pub open spec fn owns_load(phase: LoadPhase) -> bool {
    match phase {
        LoadPhase::Probing { .. } => true,
        LoadPhase::Resolving => true,
        LoadPhase::Publishing => true,
        LoadPhase::Releasing { .. } => true,
        _ => false,
    }
}

/// What the entry points kept must be while the owner is in `phase`.
pub open spec fn owner_entry_points(shared: SharedState, phase: LoadPhase) -> bool {
    match phase {
        LoadPhase::Probing { .. } => !shared.get_state_kept && !shared.set_state_kept,
        LoadPhase::Resolving => !shared.get_state_kept && !shared.set_state_kept,
        LoadPhase::Publishing => shared.get_state_kept && shared.set_state_kept,
        LoadPhase::Releasing { failure } => failure != XInputLoadingFailure::NoPointers ==> (
        !shared.get_state_kept && !shared.set_state_kept),
        _ => true,
    }
}

/// The invariant of the shared state and of the phases of all loaders that
/// have been started.
pub open spec fn system_inv(shared: SharedState, loaders: Seq<LoadPhase>) -> bool {
    &&& shared.status == STATUS_UNINITIALIZED || shared.status == STATUS_LOADING || shared.status
        == STATUS_ACTIVE
    &&& shared.status == STATUS_ACTIVE ==> shared.get_state_kept && shared.set_state_kept
        && shared.module_kept
    &&& shared.status != STATUS_ACTIVE ==> !shared.module_kept
    &&& shared.status == STATUS_UNINITIALIZED ==> !shared.get_state_kept && !shared.set_state_kept
    &&& forall|i: int| 0 <= i < loaders.len() ==> phase_wf(#[trigger] loaders[i])
    &&& forall|i: int, j: int|
        0 <= i < loaders.len() && 0 <= j < loaders.len() && owns_load(#[trigger] loaders[i])
            && owns_load(#[trigger] loaders[j]) ==> i == j
    &&& forall|i: int|
        0 <= i < loaders.len() && owns_load(#[trigger] loaders[i]) ==> shared.status == STATUS_LOADING
            && owner_entry_points(shared, loaders[i])
    &&& shared.status == STATUS_LOADING ==> exists|i: int|
        0 <= i < loaders.len() && owns_load(#[trigger] loaders[i])
}

/// The program starts in a state that satisfies the invariant.
pub proof fn lemma_initial_inv()
    ensures
        system_inv(initial_shared(), Seq::empty()),
{
}

/// Starting one more load attempt keeps the invariant.
pub proof fn lemma_start_keeps_inv(shared: SharedState, loaders: Seq<LoadPhase>)
    requires
        system_inv(shared, loaders),
    ensures
        system_inv(shared, loaders.push(LoadPhase::Claiming)),
{
    let next = loaders.push(LoadPhase::Claiming);
    assert forall|i: int| 0 <= i < next.len() && owns_load(#[trigger] next[i]) implies i
        < loaders.len() && next[i] == loaders[i] by {}
    if shared.status == STATUS_LOADING {
        let w = choose|i: int| 0 <= i < loaders.len() && owns_load(#[trigger] loaders[i]);
        assert(next[w] == loaders[w]);
    }
}

/// One step of any loader, in any interleaving with the others, keeps the
/// invariant: loader `k` performs the action of its phase on the shared
/// state, reports what it observed, and moves to the next phase.
pub proof fn lemma_step_keeps_inv(
    shared: SharedState,
    loaders: Seq<LoadPhase>,
    k: int,
    event: LoadEvent,
)
    requires
        system_inv(shared, loaders),
        0 <= k < loaders.len(),
        accepts(loaders[k], event),
        possible_event(shared, action_of(loaders[k]), event),
    ensures
        system_inv(
            shared_after(shared, action_of(loaders[k]), event),
            loaders.update(k, load_next(loaders[k], event)),
        ),
{
    let phase = loaders[k];
    let action = action_of(phase);
    let s2 = shared_after(shared, action, event);
    let next = loaders.update(k, load_next(phase, event));
    assert(phase_wf(phase));
    assert forall|i: int| 0 <= i < next.len() && i != k implies next[i] == loaders[i] by {}
    assert forall|i: int| 0 <= i < next.len() implies phase_wf(#[trigger] next[i]) by {
        if i != k {
            assert(phase_wf(loaders[i]));
        }
    }
    if owns_load(phase) {
        // The stepping loader is the only owner, so the status is loading.
        assert(shared.status == STATUS_LOADING);
        assert forall|i: int| 0 <= i < loaders.len() && i != k implies !owns_load(
            #[trigger] loaders[i],
        ) by {}
        if owns_load(next[k]) {
            assert(s2.status == STATUS_LOADING);
            assert(owns_load(next[k]));
        } else {
            assert forall|i: int| 0 <= i < next.len() implies !owns_load(#[trigger] next[i]) by {
                if i != k {
                    assert(!owns_load(loaders[i]));
                }
            }
        }
    } else {
        // A loader that does not own the load only claims: it either becomes
        // the owner because the status was uninitialized, or it finishes.
        assert(phase is Claiming);
        if shared.status == STATUS_UNINITIALIZED {
            assert forall|i: int| 0 <= i < loaders.len() implies !owns_load(#[trigger] loaders[i]) by {}
            assert(owns_load(next[k]));
        } else {
            assert(next[k] is Finished);
            if shared.status == STATUS_LOADING {
                let w = choose|i: int| 0 <= i < loaders.len() && owns_load(#[trigger] loaders[i]);
                assert(w != k);
                assert(next[w] == loaders[w]);
            }
        }
    }
}

/// While the invariant holds, the status word is only ever uninitialized,
/// loading or active, so a claim never fails with `UnknownState`; and
/// whenever it is active, both entry points and the module are kept, so a
/// poll or a rumble request that finds the status active finds its entry
/// point.
pub proof fn lemma_active_means_loaded(shared: SharedState, loaders: Seq<LoadPhase>, event: LoadEvent)
    requires
        system_inv(shared, loaders),
        possible_event(shared, LoadAction::ClaimStatus, event),
    ensures
        shared.status == STATUS_UNINITIALIZED || shared.status == STATUS_LOADING || shared.status
            == STATUS_ACTIVE,
        shared.status == STATUS_ACTIVE ==> shared.get_state_kept && shared.set_state_kept
            && shared.module_kept,
        load_next(LoadPhase::Claiming, event) != (LoadPhase::Finished {
            outcome: Err(XInputLoadingFailure::UnknownState),
        }),
{
    if shared.status != STATUS_UNINITIALIZED {
        assert(claim_failure(shared.status) != XInputLoadingFailure::UnknownState);
    }
}

} // verus!
