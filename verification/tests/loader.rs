use rusty_xinput::loader::{
    load_begin, load_step, null_terminated, xinput_dll_names, xinput_entry_point_names, LoadAction, LoadEvent, LoadPhase, STATUS_ACTIVE,
    STATUS_LOADING, STATUS_UNINITIALIZED, XINPUT_DLL_COUNT,
};
use rusty_xinput::XInputLoadingFailure;

/// Runs one load attempt against a scripted environment: `status` is the
/// shared status word, `loads[i]` whether DLL `i` loads, and `entry_points`
/// which entry points the loaded DLL has. Returns the outcome, the final
/// status, the DLLs asked for in order, and the DLL left loaded.
fn run(
    status: &mut usize,
    loads: [bool; 3],
    entry_points: (bool, bool),
) -> (Result<(), XInputLoadingFailure>, Vec<usize>, Option<usize>) {
    let mut asked = Vec::new();
    let mut loaded: Option<usize> = None;
    let (mut phase, mut action) = load_begin();
    let mut steps = 0;
    loop {
        steps += 1;
        assert!(steps <= 7, "the attempt does not end");
        let event = match action {
            LoadAction::Report { outcome } => return (outcome, asked, loaded),
            LoadAction::ClaimStatus => {
                let (expected, new) = action.status_swap().unwrap();
                let swap = if *status == expected {
                    let prev = *status;
                    *status = new;
                    Ok(prev)
                } else {
                    Err(*status)
                };
                LoadEvent::Claimed { swap }
            }
            LoadAction::LoadLibrary { candidate } => {
                asked.push(candidate);
                if loads[candidate] {
                    loaded = Some(candidate);
                }
                LoadEvent::LibraryLoaded { loaded: loads[candidate] }
            }
            LoadAction::LookUpEntryPoints => LoadEvent::EntryPointsFound {
                get_state: entry_points.0,
                set_state: entry_points.1,
            },
            LoadAction::Publish | LoadAction::Release { .. } => {
                if let LoadAction::Release { free_library: true } = action {
                    loaded = None;
                }
                let (expected, new) = action.status_swap().unwrap();
                if *status == expected {
                    *status = new;
                }
                LoadEvent::Applied
            }
        };
        let next = load_step(phase, event);
        phase = next.0;
        action = next.1;
    }
}

#[test]
fn first_dll_loads_and_becomes_active() {
    let mut status = STATUS_UNINITIALIZED;
    let (outcome, asked, loaded) = run(&mut status, [true, true, true], (true, true));
    assert_eq!(outcome, Ok(()));
    assert_eq!(status, STATUS_ACTIVE);
    assert_eq!(asked, vec![0]);
    assert_eq!(loaded, Some(0));
}

#[test]
fn falls_back_to_later_dlls_in_order() {
    let mut status = STATUS_UNINITIALIZED;
    let (outcome, asked, loaded) = run(&mut status, [false, false, true], (true, true));
    assert_eq!(outcome, Ok(()));
    assert_eq!(status, STATUS_ACTIVE);
    assert_eq!(asked, vec![0, 1, 2]);
    assert_eq!(loaded, Some(2));
}

#[test]
fn no_dll_resets_to_uninitialized() {
    let mut status = STATUS_UNINITIALIZED;
    let (outcome, asked, loaded) = run(&mut status, [false, false, false], (true, true));
    assert_eq!(outcome, Err(XInputLoadingFailure::NoDLL));
    assert_eq!(status, STATUS_UNINITIALIZED);
    assert_eq!(asked, vec![0, 1, 2]);
    assert_eq!(loaded, None);
}

#[test]
fn missing_entry_point_frees_and_resets() {
    for entry_points in [(true, false), (false, true), (false, false)] {
        let mut status = STATUS_UNINITIALIZED;
        let (outcome, asked, loaded) = run(&mut status, [false, true, true], entry_points);
        assert_eq!(outcome, Err(XInputLoadingFailure::NoPointers));
        assert_eq!(status, STATUS_UNINITIALIZED);
        assert_eq!(asked, vec![0, 1]);
        assert_eq!(loaded, None);
    }
}

#[test]
fn already_loading_is_refused() {
    let mut status = STATUS_LOADING;
    let (outcome, asked, _) = run(&mut status, [true, true, true], (true, true));
    assert_eq!(outcome, Err(XInputLoadingFailure::AlreadyLoading));
    assert_eq!(status, STATUS_LOADING);
    assert!(asked.is_empty());
}

#[test]
fn already_active_stays_active() {
    let mut status = STATUS_ACTIVE;
    let (outcome, asked, _) = run(&mut status, [true, true, true], (true, true));
    assert_eq!(outcome, Err(XInputLoadingFailure::AlreadyActive));
    assert_eq!(status, STATUS_ACTIVE);
    assert!(asked.is_empty());
}

#[test]
fn unknown_status_is_reported() {
    let mut status = 9;
    let (outcome, asked, _) = run(&mut status, [true, true, true], (true, true));
    assert_eq!(outcome, Err(XInputLoadingFailure::UnknownState));
    assert_eq!(status, 9);
    assert!(asked.is_empty());
}

#[test]
fn a_second_load_after_success_is_refused() {
    let mut status = STATUS_UNINITIALIZED;
    assert_eq!(run(&mut status, [true, false, false], (true, true)).0, Ok(()));
    assert_eq!(
        run(&mut status, [true, false, false], (true, true)).0,
        Err(XInputLoadingFailure::AlreadyActive)
    );
    assert_eq!(status, STATUS_ACTIVE);
}

#[test]
fn a_failed_load_can_be_retried() {
    let mut status = STATUS_UNINITIALIZED;
    assert_eq!(
        run(&mut status, [false, false, false], (true, true)).0,
        Err(XInputLoadingFailure::NoDLL)
    );
    assert_eq!(run(&mut status, [false, true, false], (true, true)).0, Ok(()));
    assert_eq!(status, STATUS_ACTIVE);
}

#[test]
fn phases_and_actions_match() {
    let (phase, action) = load_begin();
    assert!(matches!(phase, LoadPhase::Claiming));
    assert!(matches!(action, LoadAction::ClaimStatus));
    let (phase, action) = load_step(phase, LoadEvent::Claimed { swap: Ok(STATUS_UNINITIALIZED) });
    assert!(matches!(phase, LoadPhase::Probing { candidate: 0 }));
    assert!(matches!(action, LoadAction::LoadLibrary { candidate: 0 }));
    let (phase, action) = load_step(phase, LoadEvent::LibraryLoaded { loaded: true });
    assert!(matches!(phase, LoadPhase::Resolving));
    assert!(matches!(action, LoadAction::LookUpEntryPoints));
    let (phase, action) =
        load_step(phase, LoadEvent::EntryPointsFound { get_state: true, set_state: false });
    assert!(matches!(phase, LoadPhase::Releasing { failure: XInputLoadingFailure::NoPointers }));
    assert!(matches!(action, LoadAction::Release { free_library: true }));
}

#[test]
fn status_swaps() {
    assert_eq!(
        LoadAction::ClaimStatus.status_swap(),
        Some((STATUS_UNINITIALIZED, STATUS_LOADING))
    );
    assert_eq!(LoadAction::Publish.status_swap(), Some((STATUS_LOADING, STATUS_ACTIVE)));
    assert_eq!(
        LoadAction::Release { free_library: false }.status_swap(),
        Some((STATUS_LOADING, STATUS_UNINITIALIZED))
    );
    assert_eq!(LoadAction::LookUpEntryPoints.status_swap(), None);
    assert_eq!(LoadAction::LoadLibrary { candidate: 1 }.status_swap(), None);
}

#[test]
fn dll_names_in_order() {
    let names = xinput_dll_names();
    assert_eq!(names.len(), XINPUT_DLL_COUNT);
    let expected = ["xinput1_4.dll", "xinput9_1_0.dll", "xinput1_3.dll"];
    for (name, want) in names.iter().zip(expected.iter()) {
        let mut w: Vec<u16> = want.encode_utf16().collect();
        w.push(0);
        assert_eq!(name, &w);
    }
}

#[test]
fn entry_point_names() {
    let (get, set) = xinput_entry_point_names();
    assert_eq!(get, b"XInputGetState\0".to_vec());
    assert_eq!(set, b"XInputSetState\0".to_vec());
    assert_eq!(null_terminated(""), vec![0]);
    assert_eq!(null_terminated("é"), vec![0xC3, 0xA9, 0]);
}

/// The shared state as the Windows side keeps it.
#[derive(Debug, Clone, Copy, PartialEq)]
struct Shared {
    status: usize,
    get_state: bool,
    set_state: bool,
    module: bool,
}

/// Performs the action of one loader against the shared state and steps it.
fn step_one(
    shared: &mut Shared,
    phase: LoadPhase,
    action: LoadAction,
    found: (bool, bool),
) -> (LoadPhase, LoadAction) {
    let event = match action {
        LoadAction::Report { .. } => return (phase, action),
        LoadAction::ClaimStatus => {
            let swap = if shared.status == STATUS_UNINITIALIZED {
                shared.status = STATUS_LOADING;
                Ok(STATUS_UNINITIALIZED)
            } else {
                Err(shared.status)
            };
            LoadEvent::Claimed { swap }
        }
        LoadAction::LoadLibrary { .. } => LoadEvent::LibraryLoaded { loaded: true },
        LoadAction::LookUpEntryPoints => {
            shared.get_state |= found.0;
            shared.set_state |= found.1;
            LoadEvent::EntryPointsFound { get_state: found.0, set_state: found.1 }
        }
        LoadAction::Publish => {
            shared.module = true;
            if shared.status == STATUS_LOADING {
                shared.status = STATUS_ACTIVE;
            }
            LoadEvent::Applied
        }
        LoadAction::Release { free_library } => {
            if free_library {
                shared.get_state = false;
                shared.set_state = false;
            }
            if shared.status == STATUS_LOADING {
                shared.status = STATUS_UNINITIALIZED;
            }
            LoadEvent::Applied
        }
    };
    load_step(phase, event)
}

fn check_invariant(shared: &Shared) {
    assert!(shared.status <= STATUS_ACTIVE);
    if shared.status == STATUS_ACTIVE {
        assert!(shared.get_state && shared.set_state && shared.module);
    }
}

#[test]
fn interleaved_loaders_keep_the_invariant() {
    for found in [(true, true), (true, false), (false, true)] {
        let mut shared = Shared { status: STATUS_UNINITIALIZED, get_state: false, set_state: false, module: false };
        let mut a = load_begin();
        let mut b = load_begin();
        let mut outcomes = Vec::new();
        for _ in 0..20 {
            a = step_one(&mut shared, a.0, a.1, found);
            check_invariant(&shared);
            b = step_one(&mut shared, b.0, b.1, found);
            check_invariant(&shared);
        }
        for (_, action) in [a, b] {
            match action {
                LoadAction::Report { outcome } => outcomes.push(outcome),
                _ => panic!("a loader did not finish"),
            }
        }
        if found == (true, true) {
            assert_eq!(outcomes, vec![Ok(()), Err(XInputLoadingFailure::AlreadyLoading)]);
            assert_eq!(shared.status, STATUS_ACTIVE);
        } else {
            assert_eq!(
                outcomes,
                vec![
                    Err(XInputLoadingFailure::NoPointers),
                    Err(XInputLoadingFailure::AlreadyLoading)
                ]
            );
            assert_eq!(shared, Shared { status: STATUS_UNINITIALIZED, get_state: false, set_state: false, module: false });
        }
    }
}
