//! How the XInput DLL is found and brought into use.
//!
//! Loading is a short protocol between this module, which makes every
//! decision, and the code that talks to Windows, which carries the decisions
//! out: it holds a [`LoadPhase`], performs the [`LoadAction`] that the phase
//! asks for, reports what happened as a [`LoadEvent`], and hands that to
//! [`load_step`] for the next phase, until the action is
//! [`LoadAction::Report`].
//!
//! The loader shares one status word with every other thread:
//! [`STATUS_UNINITIALIZED`], [`STATUS_LOADING`] or [`STATUS_ACTIVE`]. Every
//! change of it is a compare-and-swap that [`LoadAction::status_swap`] names.

use vstd::prelude::*;

use crate::wide::{wide_null, wide_null_of};
use vstd::string::StringSliceAdditionalSpecFns;

verus! {

/// The status word before any load, and after a failed one.
pub const STATUS_UNINITIALIZED: usize = 0;
/// The status word while one thread is loading.
pub const STATUS_LOADING: usize = 1;
/// The status word once the entry points are in place; it never changes after.
pub const STATUS_ACTIVE: usize = 2;

/// How many DLL names the loader tries.
pub const XINPUT_DLL_COUNT: usize = 3;

/// The ways that a dynamic load of XInput can fail.
#[derive(Debug, Copy, Clone, Hash, PartialEq, Eq, Structural)]
pub enum XInputLoadingFailure {
    /// The xinput system was already in the process of loading in some other
    /// thread. This attempt failed because of that, but that other attempt might
    /// still succeed.
    AlreadyLoading,
    /// The xinput system was already active. A failure of this kind leaves the
    /// system active.
    AlreadyActive,
    /// The system was not loading or active, but was in some unknown state. If
    /// you get this, it's probably a bug that you should report.
    UnknownState,
    /// No DLL for XInput could be found. This places the system back into an
    /// "uninitialized" status, and you could potentially try again later if the
    /// user fiddles with the program's DLL path or whatever.
    NoDLL,
    /// A DLL was found that matches one of the expected XInput DLL names, but it
    /// didn't contain both of the expected functions. This is probably a weird
    /// situation to find. Either way, the xinput status is set to "uninitialized"
    /// and as with the NoDLL error you could potentially try again.
    NoPointers,
}

/// The name of the DLL tried at position `i`, most recent XInput first.
pub open spec fn dll_name(i: int) -> Seq<char> {
    if i == 0 {
        "xinput1_4.dll"@
    } else if i == 1 {
        "xinput9_1_0.dll"@
    } else {
        "xinput1_3.dll"@
    }
}

/// The DLL names to try, in order, each as a wide NUL-terminated string.
pub fn xinput_dll_names() -> (names: Vec<Vec<u16>>)
    ensures
        names@.len() == XINPUT_DLL_COUNT,
        forall|i: int| 0 <= i < XINPUT_DLL_COUNT ==> #[trigger] names@[i]@ == wide_null_of(dll_name(i)),
{
    let mut names: Vec<Vec<u16>> = Vec::new();
    names.push(wide_null("xinput1_4.dll"));
    names.push(wide_null("xinput9_1_0.dll"));
    names.push(wide_null("xinput1_3.dll"));
    names
}

/// A string as C takes it: its UTF-8 bytes followed by a NUL byte.
pub open spec fn c_string_of(s: &str) -> Seq<u8> {
    s.spec_bytes().push(0u8)
}

/// The bytes of `s` followed by a NUL byte, as C takes a string.
pub fn null_terminated(s: &str) -> (out: Vec<u8>)
    ensures
        out@ == c_string_of(s),
{
    let bytes = s.as_bytes();
    let mut out: Vec<u8> = Vec::new();
    let mut i: usize = 0;
    while i < bytes.len()
        invariant
            i <= bytes@.len(),
            bytes@ == s.spec_bytes(),
            out@ == bytes@.take(i as int),
        decreases bytes@.len() - i,
    {
        out.push(bytes[i]);
        i = i + 1;
        assert(out@ == bytes@.take(i as int));
    }
    assert(bytes@.take(bytes@.len() as int) == bytes@);
    out.push(0);
    out
}

/// The names of the two entry points looked up in the loaded DLL, as C
/// strings: first `XInputGetState`, then `XInputSetState`.
pub fn xinput_entry_point_names() -> (names: (Vec<u8>, Vec<u8>))
    ensures
        names.0@ == c_string_of("XInputGetState"),
        names.1@ == c_string_of("XInputSetState"),
{
    (null_terminated("XInputGetState"), null_terminated("XInputSetState"))
}

/// Where one load attempt stands.
#[derive(Debug, Copy, Clone)]
pub enum LoadPhase {
    /// Waiting to learn whether this thread claimed the status word.
    Claiming,
    /// Waiting to learn whether DLL number `candidate` loaded.
    Probing { candidate: usize },
    /// A DLL is loaded; waiting to learn which of its two entry points exist.
    Resolving,
    /// Both entry points exist; waiting for them to be published.
    Publishing,
    /// The attempt failed with `failure`; waiting for the status to be reset.
    Releasing { failure: XInputLoadingFailure },
    /// The attempt is over.
    Finished { outcome: Result<(), XInputLoadingFailure> },
}

/// What the code that talks to Windows observed while performing an action.
#[derive(Debug, Copy, Clone)]
pub enum LoadEvent {
    /// The result of the compare-and-swap of the status word from
    /// [`STATUS_UNINITIALIZED`] to [`STATUS_LOADING`]: `Ok` with the previous
    /// value if it swapped, else `Err` with the value found.
    Claimed { swap: Result<usize, usize> },
    /// Whether loading the DLL that was asked for returned a module.
    LibraryLoaded { loaded: bool },
    /// Which of `XInputGetState` and `XInputSetState` the loaded DLL has.
    EntryPointsFound { get_state: bool, set_state: bool },
    /// The publication or release that was asked for is done.
    Applied,
}

/// What the code that talks to Windows is asked to do next.
#[derive(Debug, Copy, Clone)]
pub enum LoadAction {
    /// Compare-and-swap the status word from [`STATUS_UNINITIALIZED`] to
    /// [`STATUS_LOADING`], and report the result as [`LoadEvent::Claimed`].
    ClaimStatus,
    /// Load the DLL named by entry `candidate` of [`xinput_dll_names`], and
    /// report whether a module came back.
    LoadLibrary { candidate: usize },
    /// Look up `XInputGetState` and `XInputSetState` (the names that
    /// [`xinput_entry_point_names`] gives) in the loaded DLL, keep what is
    /// found, and report which were found.
    LookUpEntryPoints,
    /// Keep the module and the entry points for polling, then compare-and-swap
    /// the status word from [`STATUS_LOADING`] to [`STATUS_ACTIVE`].
    Publish,
    /// If `free_library`, forget the entry points and free the loaded module;
    /// then compare-and-swap the status word from [`STATUS_LOADING`] to
    /// [`STATUS_UNINITIALIZED`].
    Release { free_library: bool },
    /// The attempt is over: hand `outcome` to the caller.
    Report { outcome: Result<(), XInputLoadingFailure> },
}

/// The failure reported when the status word could not be claimed because it
/// held `found`.
pub open spec fn claim_failure(found: usize) -> XInputLoadingFailure {
    if found == STATUS_LOADING {
        XInputLoadingFailure::AlreadyLoading
    } else if found == STATUS_ACTIVE {
        XInputLoadingFailure::AlreadyActive
    } else {
        XInputLoadingFailure::UnknownState
    }
}

/// A phase that can occur: a candidate number names a DLL.
pub open spec fn phase_wf(phase: LoadPhase) -> bool {
    match phase {
        LoadPhase::Probing { candidate } => candidate < XINPUT_DLL_COUNT,
        _ => true,
    }
}

/// The action that `phase` waits on.
pub open spec fn action_of(phase: LoadPhase) -> LoadAction {
    match phase {
        LoadPhase::Claiming => LoadAction::ClaimStatus,
        LoadPhase::Probing { candidate } => LoadAction::LoadLibrary { candidate },
        LoadPhase::Resolving => LoadAction::LookUpEntryPoints,
        LoadPhase::Publishing => LoadAction::Publish,
        LoadPhase::Releasing { failure } => LoadAction::Release {
            free_library: failure == XInputLoadingFailure::NoPointers,
        },
        LoadPhase::Finished { outcome } => LoadAction::Report { outcome },
    }
}

/// Whether `event` is what performing the action of `phase` can report.
pub open spec fn accepts(phase: LoadPhase, event: LoadEvent) -> bool {
    match (phase, event) {
        (LoadPhase::Claiming, LoadEvent::Claimed { .. }) => true,
        (LoadPhase::Probing { .. }, LoadEvent::LibraryLoaded { .. }) => true,
        (LoadPhase::Resolving, LoadEvent::EntryPointsFound { .. }) => true,
        (LoadPhase::Publishing, LoadEvent::Applied) => true,
        (LoadPhase::Releasing { .. }, LoadEvent::Applied) => true,
        _ => false,
    }
}

/// The phase after `phase` once its action reported `event`.
pub open spec fn load_next(phase: LoadPhase, event: LoadEvent) -> LoadPhase {
    match (phase, event) {
        (LoadPhase::Claiming, LoadEvent::Claimed { swap }) => match swap {
            Ok(_) => LoadPhase::Probing { candidate: 0 },
            Err(found) => LoadPhase::Finished { outcome: Err(claim_failure(found)) },
        },
        (LoadPhase::Probing { candidate }, LoadEvent::LibraryLoaded { loaded }) => if loaded {
            LoadPhase::Resolving
        } else if candidate + 1 < XINPUT_DLL_COUNT {
            LoadPhase::Probing { candidate: (candidate + 1) as usize }
        } else {
            LoadPhase::Releasing { failure: XInputLoadingFailure::NoDLL }
        },
        (LoadPhase::Resolving, LoadEvent::EntryPointsFound { get_state, set_state }) => if get_state
            && set_state {
            LoadPhase::Publishing
        } else {
            LoadPhase::Releasing { failure: XInputLoadingFailure::NoPointers }
        },
        (LoadPhase::Publishing, LoadEvent::Applied) => LoadPhase::Finished { outcome: Ok(()) },
        (LoadPhase::Releasing { failure }, LoadEvent::Applied) => LoadPhase::Finished {
            outcome: Err(failure),
        },
        _ => phase,
    }
}

/// An upper bound on the steps left before the attempt is over.
pub open spec fn steps_left(phase: LoadPhase) -> nat {
    match phase {
        LoadPhase::Claiming => 6,
        LoadPhase::Probing { candidate } => (5 - candidate) as nat,
        LoadPhase::Resolving => 2,
        LoadPhase::Publishing => 1,
        LoadPhase::Releasing { .. } => 1,
        LoadPhase::Finished { .. } => 0,
    }
}

/// The change of the status word that `action` asks for: `(expected, new)`.
pub open spec fn swap_of(action: LoadAction) -> Option<(usize, usize)> {
    match action {
        LoadAction::ClaimStatus => Some((STATUS_UNINITIALIZED, STATUS_LOADING)),
        LoadAction::Publish => Some((STATUS_LOADING, STATUS_ACTIVE)),
        LoadAction::Release { .. } => Some((STATUS_LOADING, STATUS_UNINITIALIZED)),
        _ => None,
    }
}

/// The status word after performing `action` on `status`.
pub open spec fn status_after(status: usize, action: LoadAction) -> usize {
    match swap_of(action) {
        Some((expected, new)) => if status == expected {
            new
        } else {
            status
        },
        None => status,
    }
}

impl LoadAction {
    /// The compare-and-swap of the status word that this action includes, as
    /// `(expected, new)`.
    pub fn status_swap(&self) -> (r: Option<(usize, usize)>)
        ensures
            r == swap_of(*self),
    {
        match self {
            LoadAction::ClaimStatus => Some((STATUS_UNINITIALIZED, STATUS_LOADING)),
            LoadAction::Publish => Some((STATUS_LOADING, STATUS_ACTIVE)),
            LoadAction::Release { .. } => Some((STATUS_LOADING, STATUS_UNINITIALIZED)),
            _ => None,
        }
    }
}

/// The action that a phase waits on.
fn action_for(phase: LoadPhase) -> (r: LoadAction)
    ensures
        r == action_of(phase),
{
    match phase {
        LoadPhase::Claiming => LoadAction::ClaimStatus,
        LoadPhase::Probing { candidate } => LoadAction::LoadLibrary { candidate },
        LoadPhase::Resolving => LoadAction::LookUpEntryPoints,
        LoadPhase::Publishing => LoadAction::Publish,
        LoadPhase::Releasing { failure } => LoadAction::Release {
            free_library: match failure {
                XInputLoadingFailure::NoPointers => true,
                _ => false,
            },
        },
        LoadPhase::Finished { outcome } => LoadAction::Report { outcome },
    }
}

/// Starts a load attempt: the first phase and its action, which is to claim
/// the status word.
pub fn load_begin() -> (r: (LoadPhase, LoadAction))
    ensures
        r.0 == LoadPhase::Claiming,
        r.1 == action_of(r.0),
        r.1 == LoadAction::ClaimStatus,
{
    (LoadPhase::Claiming, LoadAction::ClaimStatus)
}

/// Advances a load attempt: the phase after `phase` once its action reported
/// `event`, and the action that this new phase asks for.
pub fn load_step(phase: LoadPhase, event: LoadEvent) -> (r: (LoadPhase, LoadAction))
    requires
        phase_wf(phase),
        accepts(phase, event),
    ensures
        r.0 == load_next(phase, event),
        r.1 == action_of(r.0),
        phase_wf(r.0),
        steps_left(r.0) < steps_left(phase),
{
    let next = match (phase, event) {
        (LoadPhase::Claiming, LoadEvent::Claimed { swap }) => match swap {
            Ok(_) => LoadPhase::Probing { candidate: 0 },
            Err(found) => {
                let failure = if found == STATUS_LOADING {
                    XInputLoadingFailure::AlreadyLoading
                } else if found == STATUS_ACTIVE {
                    XInputLoadingFailure::AlreadyActive
                } else {
                    XInputLoadingFailure::UnknownState
                };
                LoadPhase::Finished { outcome: Err(failure) }
            },
        },
        (LoadPhase::Probing { candidate }, LoadEvent::LibraryLoaded { loaded }) => {
            if loaded {
                LoadPhase::Resolving
            } else if candidate + 1 < XINPUT_DLL_COUNT {
                LoadPhase::Probing { candidate: candidate + 1 }
            } else {
                LoadPhase::Releasing { failure: XInputLoadingFailure::NoDLL }
            }
        },
        (LoadPhase::Resolving, LoadEvent::EntryPointsFound { get_state, set_state }) => {
            if get_state && set_state {
                LoadPhase::Publishing
            } else {
                LoadPhase::Releasing { failure: XInputLoadingFailure::NoPointers }
            }
        },
        (LoadPhase::Publishing, _) => LoadPhase::Finished { outcome: Ok(()) },
        (LoadPhase::Releasing { failure }, _) => LoadPhase::Finished { outcome: Err(failure) },
        _ => phase,
    };
    (next, action_for(next))
}

/// What performing `action` reports when no other thread touches the status
/// word: `status` is the status word before the action, `loads[i]` says
/// whether DLL number `i` loads, and `get_found` and `set_found` say which
/// entry points the loaded DLL has.
pub open spec fn solo_event(
    action: LoadAction,
    status: usize,
    loads: Seq<bool>,
    get_found: bool,
    set_found: bool,
) -> LoadEvent {
    match action {
        LoadAction::ClaimStatus => LoadEvent::Claimed {
            swap: if status == STATUS_UNINITIALIZED {
                Ok(status)
            } else {
                Err(status)
            },
        },
        LoadAction::LoadLibrary { candidate } => LoadEvent::LibraryLoaded {
            loaded: loads[candidate as int],
        },
        LoadAction::LookUpEntryPoints => LoadEvent::EntryPointsFound {
            get_state: get_found,
            set_state: set_found,
        },
        _ => LoadEvent::Applied,
    }
}

/// The DLL kept loaded after performing the action of `phase`, which
/// reported `event`, when `kept` was kept before.
pub open spec fn kept_after(phase: LoadPhase, event: LoadEvent, kept: Option<usize>) -> Option<usize> {
    match (phase, event) {
        (LoadPhase::Probing { candidate }, LoadEvent::LibraryLoaded { loaded }) => if loaded {
            Some(candidate)
        } else {
            kept
        },
        (LoadPhase::Releasing { failure }, _) => if failure == XInputLoadingFailure::NoPointers {
            None
        } else {
            kept
        },
        _ => kept,
    }
}

/// A whole load attempt from `phase` when no other thread touches the status
/// word: the outcome reported, the final status word, and the DLL (by its
/// position in [`xinput_dll_names`]) left loaded.
pub open spec fn solo_run(
    phase: LoadPhase,
    status: usize,
    kept: Option<usize>,
    loads: Seq<bool>,
    get_found: bool,
    set_found: bool,
) -> (Result<(), XInputLoadingFailure>, usize, Option<usize>)
    decreases steps_left(phase),
{
    match phase {
        LoadPhase::Finished { outcome } => (outcome, status, kept),
        _ => {
            let action = action_of(phase);
            let event = solo_event(action, status, loads, get_found, set_found);
            let next = load_next(phase, event);
            if steps_left(next) < steps_left(phase) {
                solo_run(
                    next,
                    status_after(status, action),
                    kept_after(phase, event, kept),
                    loads,
                    get_found,
                    set_found,
                )
            } else {
                (Err(XInputLoadingFailure::UnknownState), status, kept)
            }
        },
    }
}

/// The first DLL, by position, that loads.
pub open spec fn first_loading(loads: Seq<bool>) -> Option<usize> {
    if loads[0] {
        Some(0)
    } else if loads[1] {
        Some(1)
    } else if loads[2] {
        Some(2)
    } else {
        None
    }
}

/// The documented result of a load attempt that no other thread disturbs:
/// the outcome, the final status word, and the DLL left loaded.
pub open spec fn documented_load(
    status: usize,
    loads: Seq<bool>,
    get_found: bool,
    set_found: bool,
) -> (Result<(), XInputLoadingFailure>, usize, Option<usize>) {
    if status != STATUS_UNINITIALIZED {
        (Err(claim_failure(status)), status, None)
    } else {
        match first_loading(loads) {
            None => (Err(XInputLoadingFailure::NoDLL), STATUS_UNINITIALIZED, None),
            Some(i) => if get_found && set_found {
                (Ok(()), STATUS_ACTIVE, Some(i))
            } else {
                (Err(XInputLoadingFailure::NoPointers), STATUS_UNINITIALIZED, None)
            },
        }
    }
}

/// A load attempt that no other thread disturbs does what the documentation
/// of [`XInputLoadingFailure`] says: it fails with `AlreadyLoading`,
/// `AlreadyActive` or `UnknownState`, leaving the status word as it was,
/// unless the status is uninitialized; then the DLLs are tried in order and
/// the first that loads is kept; if none loads the attempt fails with `NoDLL`,
/// if the kept DLL lacks one of the two entry points it is freed and the
/// attempt fails with `NoPointers`, both leaving the status uninitialized;
/// otherwise the attempt succeeds and the status becomes active.
pub proof fn lemma_solo_load(status: usize, loads: Seq<bool>, get_found: bool, set_found: bool)
    requires
        loads.len() == XINPUT_DLL_COUNT,
    ensures
        solo_run(LoadPhase::Claiming, status, None, loads, get_found, set_found)
            == documented_load(status, loads, get_found, set_found),
{
    reveal_with_fuel(solo_run, 7);
}

/// Once active, always active: no action of a loader changes the status word
/// away from [`STATUS_ACTIVE`], so XInput is never unloaded.
pub proof fn lemma_active_is_kept(action: LoadAction)
    ensures
        status_after(STATUS_ACTIVE, action) == STATUS_ACTIVE,
{
}

/// Only publishing makes the status word active.
pub proof fn lemma_only_publish_activates(status: usize, action: LoadAction)
    requires
        status != STATUS_ACTIVE,
        status_after(status, action) == STATUS_ACTIVE,
    ensures
        action is Publish,
        status == STATUS_LOADING,
{
}

/// The entry points are published only from a DLL in which both of them were
/// found.
pub proof fn lemma_publish_needs_both_entry_points(phase: LoadPhase, event: LoadEvent)
    requires
        phase_wf(phase),
        accepts(phase, event),
        load_next(phase, event) is Publishing,
    ensures
        phase is Resolving,
        event == (LoadEvent::EntryPointsFound { get_state: true, set_state: true }),
{
}

/// A loader gets past the claim of the status word only when its
/// compare-and-swap succeeded, so at most one thread loads at a time.
pub proof fn lemma_only_the_claimant_loads(event: LoadEvent)
    requires
        accepts(LoadPhase::Claiming, event),
    ensures
        load_next(LoadPhase::Claiming, event) is Probing <==> (event matches LoadEvent::Claimed {
            swap,
        } && swap is Ok),
{
}

} // verus!
