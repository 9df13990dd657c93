use anvil::geometry::{Point, Rectangle, Size};
use anvil::shell::xdg::{
    handle_toplevel_commit, AnvilState, Configure, CoveredOutput, DecorationMode,
    FullscreenTarget, GrabAction, GrabPhase, GrabStatus, KeyboardFocusTarget, MappedOutput,
    PopupGrab, PopupPlace, PopupState, ShellAction, Space, ToplevelState,
};

fn rect(x: i32, y: i32, w: i32, h: i32) -> Rectangle {
    Rectangle { loc: Point { x, y }, size: Size { w, h } }
}

fn state(windows: Vec<Option<u64>>, outputs: Vec<MappedOutput>) -> AnvilState {
    AnvilState { space: Space { windows, outputs } }
}

fn untouched() -> ToplevelState {
    ToplevelState { maximized: false, fullscreen: false, size: None, fullscreen_output: None }
}

#[test]
fn new_toplevels_are_placed() {
    assert_eq!(
        AnvilState::new_toplevel(),
        vec![
            ShellAction::PlaceNewWindow { activate: true },
            ShellAction::ReapplyLayout,
            ShellAction::WatchCommits,
        ]
    );
    assert_eq!(handle_toplevel_commit(), Some(()));
}

#[test]
fn windows_are_found_by_their_surface() {
    let state = state(vec![None, Some(7), Some(3), Some(7)], vec![]);
    assert_eq!(state.find_window(7), Some(1));
    assert_eq!(state.find_window(3), Some(2));
    assert_eq!(state.find_window(4), None);
}

#[test]
fn destroyed_toplevels_are_unmapped() {
    let state = state(vec![None, Some(7), Some(3)], vec![]);
    assert_eq!(
        state.toplevel_destroyed(3),
        vec![ShellAction::UnmapWindow(2), ShellAction::ReapplyLayout]
    );
    assert_eq!(state.toplevel_destroyed(4), vec![ShellAction::ReapplyLayout]);
}

#[test]
fn popups_are_unconstrained_first() {
    assert_eq!(
        AnvilState::new_popup(),
        vec![ShellAction::UnconstrainPopup, ShellAction::TrackPopup]
    );
}

/// A positioner that puts a popup of a size at an offset.
#[derive(Clone, Copy, Debug, PartialEq)]
struct Positioner {
    offset: Point,
    size: Size,
}

impl Positioner {
    fn geometry(&self) -> Rectangle {
        Rectangle { loc: self.offset, size: self.size }
    }

    /// Slides the popup until its top left corner is in the area.
    fn slid_into(&self, area: Rectangle) -> Rectangle {
        let loc = Point {
            x: self.offset.x.max(area.loc.x),
            y: self.offset.y.max(area.loc.y),
        };
        Rectangle { loc, size: self.size }
    }
}

fn positioner(x: i32, y: i32) -> Positioner {
    Positioner { offset: Point { x, y }, size: Size { w: 7, h: 8 } }
}

#[test]
fn repositioned_popups_follow_the_new_positioner() {
    let mut pending = PopupState { geometry: rect(0, 0, 1, 1), positioner: positioner(1, 2) };
    assert_eq!(
        AnvilState::reposition_request(&mut pending, positioner(5, 6), Positioner::geometry, 42),
        vec![ShellAction::UnconstrainPopup, ShellAction::SendRepositioned(42)]
    );
    assert_eq!(pending.geometry, rect(5, 6, 7, 8));
    assert_eq!(pending.positioner, positioner(5, 6));
}

#[test]
fn popups_are_fitted_by_their_own_positioner() {
    let place = Some(PopupPlace {
        outputs: vec![rect(0, 0, 800, 600)],
        toplevel_coords: Point { x: 0, y: 0 },
        window_geometry: rect(100, 50, 300, 400),
    });
    let mut pending = PopupState { geometry: rect(0, 0, 1, 1), positioner: positioner(-130, -20) };
    AnvilState::unconstrain_popup(&place, &mut pending, |positioner: &Positioner, target| {
        assert_eq!(target, rect(-100, -50, 800, 600));
        positioner.slid_into(target)
    });
    assert_eq!(pending.geometry, rect(-100, -20, 7, 8));
    assert_eq!(pending.positioner, positioner(-130, -20));
}

#[test]
fn popups_without_a_place_stay() {
    let nowhere = Some(PopupPlace {
        outputs: vec![],
        toplevel_coords: Point { x: 0, y: 0 },
        window_geometry: rect(100, 50, 300, 400),
    });
    for place in [None, nowhere] {
        let mut pending = PopupState { geometry: rect(3, 4, 5, 6), positioner: positioner(9, 9) };
        AnvilState::unconstrain_popup(&place, &mut pending, |_: &Positioner, _| {
            panic!("there is nothing to fit the popup into")
        });
        assert_eq!(pending.geometry, rect(3, 4, 5, 6));
        assert_eq!(pending.positioner, positioner(9, 9));
    }
}

#[test]
fn acknowledged_configures_set_the_decoration() {
    let state = state(vec![Some(1), Some(2)], vec![]);
    let with_mode = |decoration_mode| Configure::Toplevel { decoration_mode };
    assert_eq!(
        state.ack_configure(2, with_mode(Some(DecorationMode::ServerSide))),
        Some(ShellAction::SetSsd { window: 1, ssd: true })
    );
    assert_eq!(
        state.ack_configure(2, with_mode(Some(DecorationMode::ClientSide))),
        Some(ShellAction::SetSsd { window: 1, ssd: false })
    );
    assert_eq!(
        state.ack_configure(1, with_mode(None)),
        Some(ShellAction::SetSsd { window: 0, ssd: false })
    );
    assert_eq!(state.ack_configure(9, with_mode(Some(DecorationMode::ServerSide))), None);
    assert_eq!(state.ack_configure(1, Configure::Popup), None);
}

#[test]
fn fullscreen_goes_to_the_named_or_the_first_output() {
    let output = |output| MappedOutput { output, geometry: None };
    let state = state(vec![], vec![output(4), output(5)]);
    assert_eq!(state.fullscreen_output(Some(5)), 5);
    assert_eq!(state.fullscreen_output(None), 4);
}

fn target(requested: Option<u64>, client_outputs: Option<Vec<u64>>) -> Option<FullscreenTarget> {
    Some(FullscreenTarget { geometry: rect(10, 0, 1920, 1080), output: 4, requested, client_outputs })
}

#[test]
fn fullscreen_covers_the_output() {
    let state = state(vec![Some(1), Some(2)], vec![]);
    let mut pending = untouched();
    let actions =
        state.fullscreen_request(2, &target(Some(90), Some(vec![91, 92])), &mut pending, true);
    assert_eq!(
        actions,
        vec![
            ShellAction::SetFullscreenWindow { output: 4, window: 1 },
            ShellAction::SendConfigure,
        ]
    );
    assert_eq!(
        pending,
        ToplevelState {
            maximized: false,
            fullscreen: true,
            size: Some(Size { w: 1920, h: 1080 }),
            fullscreen_output: Some(92),
        }
    );
    let mut pending = untouched();
    let actions = state.fullscreen_request(1, &target(Some(90), Some(vec![])), &mut pending, false);
    assert_eq!(actions, vec![ShellAction::SetFullscreenWindow { output: 4, window: 0 }]);
    assert_eq!(pending.fullscreen_output, Some(90));
}

#[test]
fn fullscreen_without_a_client_or_an_output() {
    let state = state(vec![Some(1)], vec![]);
    let mut pending = untouched();
    assert_eq!(state.fullscreen_request(1, &target(Some(90), None), &mut pending, true), vec![]);
    assert_eq!(pending, untouched());
    assert_eq!(
        state.fullscreen_request(1, &None, &mut pending, true),
        vec![ShellAction::SendConfigure]
    );
    assert_eq!(state.fullscreen_request(1, &None, &mut pending, false), vec![]);
    assert_eq!(pending, untouched());
}

#[test]
fn unfullscreen_clears_the_output() {
    let state = state(vec![Some(1)], vec![]);
    let mut pending = untouched();
    state.fullscreen_request(1, &target(None, Some(vec![91])), &mut pending, true);
    let covered = CoveredOutput { output: 4, has_fullscreen: true };
    assert_eq!(
        AnvilState::unfullscreen_request(Some(covered), &mut pending, true),
        vec![
            ShellAction::ClearFullscreenWindow(4),
            ShellAction::ResetBuffers(4),
            ShellAction::SendConfigure,
        ]
    );
    assert_eq!(pending, untouched());
}

#[test]
fn unfullscreen_of_an_output_that_nothing_covered() {
    let mut pending = ToplevelState { fullscreen_output: Some(91), ..untouched() };
    let covered = CoveredOutput { output: 4, has_fullscreen: false };
    assert_eq!(AnvilState::unfullscreen_request(Some(covered), &mut pending, false), vec![]);
    assert_eq!(pending, untouched());
    let mut pending = ToplevelState { fullscreen: true, maximized: true, ..untouched() };
    assert_eq!(
        AnvilState::unfullscreen_request(None, &mut pending, true),
        vec![ShellAction::SendConfigure]
    );
    assert_eq!(pending, ToplevelState { maximized: true, ..untouched() });
}

#[test]
fn maximize_fills_the_first_output_of_the_window() {
    let output = |output, geometry| MappedOutput { output, geometry: Some(geometry) };
    let left = output(1, rect(0, 0, 800, 600));
    let right = output(2, rect(800, 100, 1024, 768));
    let state = state(vec![Some(1)], vec![left, right]);
    let mut pending = untouched();
    assert_eq!(
        state.maximize_request(&vec![right, left], &mut pending, true),
        vec![
            ShellAction::MapWindow { location: Point { x: 800, y: 100 }, activate: true },
            ShellAction::SendConfigure,
        ]
    );
    assert_eq!(
        pending,
        ToplevelState { maximized: true, size: Some(Size { w: 1024, h: 768 }), ..untouched() }
    );
    assert_eq!(
        state.maximize_request(&vec![], &mut pending, false),
        vec![ShellAction::MapWindow { location: Point { x: 0, y: 0 }, activate: true }]
    );
    assert_eq!(pending.size, Some(Size { w: 800, h: 600 }));
}

#[test]
fn unmaximize_undoes_maximize() {
    let output = MappedOutput { output: 1, geometry: Some(rect(0, 0, 800, 600)) };
    let state = state(vec![Some(1)], vec![output]);
    let mut pending = untouched();
    state.maximize_request(&vec![output], &mut pending, true);
    assert_ne!(pending, untouched());
    assert_eq!(
        AnvilState::unmaximize_request(&mut pending, true),
        vec![ShellAction::SendConfigure]
    );
    assert_eq!(pending, untouched());
    assert_eq!(AnvilState::unmaximize_request(&mut pending, false), vec![]);
}

#[test]
fn windows_are_not_moved_by_clients() {
    let mut state = state(vec![Some(1)], vec![]);
    state.move_request_xdg(1, 5);
    assert_eq!(state.space.windows, vec![Some(1)]);
}

#[test]
fn grabs_start_from_a_window_or_a_layer() {
    let state = state(vec![Some(1), Some(2)], vec![]);
    assert_eq!(
        state.grab_root(Some(2), &vec![true]),
        Some(KeyboardFocusTarget::Window(1))
    );
    assert_eq!(
        state.grab_root(Some(9), &vec![false, true, true]),
        Some(KeyboardFocusTarget::LayerSurface(1))
    );
    assert_eq!(state.grab_root(Some(9), &vec![false]), None);
    assert_eq!(state.grab_root(None, &vec![true]), None);
}

#[test]
fn grabs_take_free_devices() {
    let grab = PopupGrab { serial: 10, previous_serial: None };
    assert_eq!(
        AnvilState::grab(GrabPhase::Keyboard, grab, Some(GrabStatus::Free), 10),
        (GrabPhase::Pointer, vec![GrabAction::FocusKeyboard, GrabAction::GrabKeyboard])
    );
    assert_eq!(
        AnvilState::grab(GrabPhase::Pointer, grab, Some(GrabStatus::Free), 10),
        (GrabPhase::Done, vec![GrabAction::GrabPointer])
    );
    assert_eq!(
        AnvilState::grab(GrabPhase::Keyboard, grab, None, 10),
        (GrabPhase::Pointer, vec![])
    );
    assert_eq!(AnvilState::grab(GrabPhase::Pointer, grab, None, 10), (GrabPhase::Done, vec![]));
    assert_eq!(
        AnvilState::grab(GrabPhase::Done, grab, Some(GrabStatus::Free), 10),
        (GrabPhase::Done, vec![])
    );
}

#[test]
fn grabs_leave_devices_that_others_hold() {
    let grab = PopupGrab { serial: 10, previous_serial: Some(8) };
    let given_up = (GrabPhase::Done, vec![GrabAction::UngrabAll]);
    for phase in [GrabPhase::Keyboard, GrabPhase::Pointer] {
        assert_eq!(AnvilState::grab(phase, grab, Some(GrabStatus::Held(9)), 10), given_up);
        assert_eq!(AnvilState::grab(phase, grab, Some(GrabStatus::Busy), 10), given_up);
        let (_, actions) = AnvilState::grab(phase, grab, Some(GrabStatus::Held(8)), 10);
        assert!(!actions.contains(&GrabAction::UngrabAll));
        let (_, actions) = AnvilState::grab(phase, grab, Some(GrabStatus::Held(10)), 10);
        assert!(!actions.contains(&GrabAction::UngrabAll));
    }
}

fn whole_grab(
    grab: PopupGrab,
    keyboard: Option<GrabStatus>,
    pointer: Option<GrabStatus>,
    serial: u32,
) -> Vec<GrabAction> {
    let (phase, mut actions) = AnvilState::grab(GrabPhase::Keyboard, grab, keyboard, serial);
    let (end, second) = AnvilState::grab(phase, grab, pointer, serial);
    assert_eq!(end, GrabPhase::Done);
    actions.extend(second);
    actions
}

#[test]
fn grabs_take_all_or_give_up() {
    let grab = PopupGrab { serial: 10, previous_serial: Some(8) };
    let free = Some(GrabStatus::Free);
    let other = Some(GrabStatus::Held(9));
    let keyboard = [GrabAction::FocusKeyboard, GrabAction::GrabKeyboard];
    assert_eq!(
        whole_grab(grab, free, free, 10),
        vec![keyboard[0], keyboard[1], GrabAction::GrabPointer]
    );
    assert_eq!(whole_grab(grab, other, free, 10), vec![GrabAction::UngrabAll]);
    assert_eq!(
        whole_grab(grab, free, other, 10),
        vec![keyboard[0], keyboard[1], GrabAction::UngrabAll]
    );
    assert_eq!(whole_grab(grab, None, other, 10), vec![GrabAction::UngrabAll]);
    assert_eq!(whole_grab(grab, None, None, 10), vec![]);
}

#[test]
fn only_the_pointer_knows_the_serial_of_the_grab() {
    let grab = PopupGrab { serial: 11, previous_serial: None };
    assert_eq!(
        AnvilState::grab(GrabPhase::Keyboard, grab, Some(GrabStatus::Held(11)), 10),
        (GrabPhase::Done, vec![GrabAction::UngrabAll])
    );
    assert_eq!(
        AnvilState::grab(GrabPhase::Pointer, grab, Some(GrabStatus::Held(11)), 10),
        (GrabPhase::Done, vec![GrabAction::GrabPointer])
    );
}

#[test]
fn popups_may_cover_all_outputs_of_their_window() {
    let left = rect(0, 0, 800, 600);
    let right = rect(800, -100, 1024, 768);
    let below = rect(0, 600, 10, 10);
    let place = |outputs| {
        Some(PopupPlace {
            outputs,
            toplevel_coords: Point { x: 20, y: 30 },
            window_geometry: rect(100, 200, 300, 400),
        })
    };
    let area = rect(-120, -330, 1824, 768);
    assert_eq!(AnvilState::popup_target(&place(vec![left, right, below])), Some(area));
    assert_eq!(AnvilState::popup_target(&place(vec![below, right, left])), Some(area));
    assert_eq!(
        AnvilState::popup_target(&place(vec![left])),
        Some(rect(-120, -230, 800, 600))
    );
    assert_eq!(AnvilState::popup_target(&place(vec![])), None);
    assert_eq!(AnvilState::popup_target(&None), None);
}

#[test]
fn popup_areas_saturate() {
    let place = Some(PopupPlace {
        outputs: vec![rect(i32::MIN, 0, 10, 10)],
        toplevel_coords: Point { x: 5, y: 0 },
        window_geometry: rect(-7, 0, 1, 1),
    });
    assert_eq!(AnvilState::popup_target(&place), Some(rect(i32::MIN + 7, 0, 10, 10)));
}

#[test]
fn popup_areas_that_are_cut_off_ignore_order() {
    let place = |outputs| {
        Some(PopupPlace {
            outputs,
            toplevel_coords: Point { x: 0, y: 0 },
            window_geometry: rect(0, 0, 1, 1),
        })
    };
    let (a, b, c) =
        (rect(-100, 0, i32::MAX, 10), rect(i32::MAX - 5, 3, 9, 20), rect(i32::MIN, -2, 1, 1));
    let area = rect(i32::MIN, -2, i32::MAX, 25);
    for outputs in [vec![a, b, c], vec![c, b, a], vec![b, c, a], vec![c, a, b]] {
        assert_eq!(AnvilState::popup_target(&place(outputs)), Some(area));
    }
}
