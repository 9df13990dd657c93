//! The requests of xdg-shell clients.
//!
//! A request changes the pending state of the toplevel or the popup that it is
//! for, and gives the actions that the compositor has to take, in their order.
use vstd::prelude::*;

use super::Serial;
use crate::geometry::{
    is_bounding_box, law_bounding_box_ignores_order, law_merged_all_is_bounding_box,
    law_merged_all_surrounds, saturate, span_fits, surrounds, Point, Rectangle, Size,
};

verus! {

/// The number of a surface.
pub type SurfaceId = u64;

/// The number of an output.
pub type OutputId = u64;

/// The number of an object through which a client knows an output.
pub type OutputResource = u64;

/// An output of the space.
#[derive(Clone, Copy, Debug, PartialEq, Eq, Structural)]
pub struct MappedOutput {
    pub output: OutputId,
    /// Where the output lies, if it has a mode.
    pub geometry: Option<Rectangle>,
}

/// The windows and the outputs that are mapped.
pub struct Space {
    /// The surface of each window, from back to front. A window is known by its
    /// place in this list.
    pub windows: Vec<Option<SurfaceId>>,
    pub outputs: Vec<MappedOutput>,
}

/// What the compositor has to do.
#[derive(Clone, Copy, Debug, PartialEq, Eq, Structural)]
pub enum ShellAction {
    /// Put the new window on the screen.
    PlaceNewWindow { activate: bool },
    /// Let the layout plugin place all windows.
    ReapplyLayout,
    /// Call `handle_toplevel_commit` after each commit of the surface.
    WatchCommits,
    /// Take a window off the screen.
    UnmapWindow(usize),
    /// Put the window that the request is for on the screen.
    MapWindow { location: Point, activate: bool },
    /// Set whether a window has the header bar.
    SetSsd { window: usize, ssd: bool },
    /// Let a window cover an output.
    SetFullscreenWindow { output: OutputId, window: usize },
    /// Let no window cover an output any more.
    ClearFullscreenWindow(OutputId),
    /// Draw an output from scratch.
    ResetBuffers(OutputId),
    /// Tell the client the pending state.
    SendConfigure,
    /// Move the popup to where it can be seen.
    UnconstrainPopup,
    /// Keep track of the popup.
    TrackPopup,
    /// Tell the client that the popup was moved.
    SendRepositioned(u32),
}

/// The state that a toplevel is to have after the next configure, as far as the
/// requests read or change it.
#[derive(Clone, Copy, Debug, PartialEq, Eq, Structural)]
pub struct ToplevelState {
    pub maximized: bool,
    pub fullscreen: bool,
    /// The size that the client is asked to have.
    pub size: Option<Size>,
    /// The output that the window is to cover.
    pub fullscreen_output: Option<OutputResource>,
}

impl ToplevelState {
    /// The state of a window that fills an output of the given size.
    pub open spec fn maximized_to(self, size: Size) -> ToplevelState {
        ToplevelState { maximized: true, size: Some(size), ..self }
    }

    /// The state of a window that no longer fills an output.
    pub open spec fn unmaximized(self) -> ToplevelState {
        ToplevelState { maximized: false, size: None, ..self }
    }

    /// The state of a window that covers an output of the given size.
    pub open spec fn fullscreen_on(self, size: Size, output: Option<OutputResource>) -> ToplevelState {
        ToplevelState { fullscreen: true, size: Some(size), fullscreen_output: output, ..self }
    }

    /// The state of a window that covers no output.
    pub open spec fn unfullscreened(self) -> ToplevelState {
        ToplevelState { fullscreen: false, size: None, fullscreen_output: None, ..self }
    }
}

/// The state that a popup is to have after the next configure. `P` is a
/// positioner.
pub struct PopupState<P> {
    pub geometry: Rectangle,
    pub positioner: P,
}

/// Who draws the decorations of a window.
#[derive(Clone, Copy, Debug, PartialEq, Eq, Structural)]
pub enum DecorationMode {
    ClientSide,
    ServerSide,
}

/// A configure that a client has acknowledged.
#[derive(Clone, Copy, Debug, PartialEq, Eq, Structural)]
pub enum Configure {
    Toplevel { decoration_mode: Option<DecorationMode> },
    Popup,
}

/// The output that a window is to cover.
pub struct FullscreenTarget {
    /// Where the output lies.
    pub geometry: Rectangle,
    pub output: OutputId,
    /// The output as the client has named it.
    pub requested: Option<OutputResource>,
    /// The objects through which the client knows the output, or `None` if the
    /// client is gone.
    pub client_outputs: Option<Vec<OutputResource>>,
}

/// The output that a window has covered.
#[derive(Clone, Copy, Debug, PartialEq, Eq, Structural)]
pub struct CoveredOutput {
    pub output: OutputId,
    /// Whether a window was ever set to cover the output.
    pub has_fullscreen: bool,
}

/// Where a popup belongs.
pub struct PopupPlace {
    /// Where the outputs lie that the popup's window is on.
    pub outputs: Vec<Rectangle>,
    /// Where the popup's parent lies in the window.
    pub toplevel_coords: Point,
    /// Where the window lies.
    pub window_geometry: Rectangle,
}

/// What keyboard focus can be given to.
#[derive(Clone, Copy, Debug, PartialEq, Eq, Structural)]
pub enum KeyboardFocusTarget {
    /// A window of the space.
    Window(usize),
    /// The layer surface on an output of the space.
    LayerSurface(usize),
}

/// A grab that a popup has asked for.
#[derive(Clone, Copy, Debug, PartialEq, Eq, Structural)]
pub struct PopupGrab {
    pub serial: Serial,
    /// The serial of the grab of the popup's parent.
    pub previous_serial: Option<Serial>,
}

/// Whether a device is grabbed.
#[derive(Clone, Copy, Debug, PartialEq, Eq, Structural)]
pub enum GrabStatus {
    Free,
    /// Grabbed with this serial.
    Held(Serial),
    /// Grabbed, with a serial that cannot be told at the moment.
    Busy,
}

/// The device that a popup's grab has to look at next.
#[derive(Clone, Copy, Debug, PartialEq, Eq, Structural)]
pub enum GrabPhase {
    Keyboard,
    Pointer,
    Done,
}

/// What has to be done for a popup's grab.
#[derive(Clone, Copy, Debug, PartialEq, Eq, Structural)]
pub enum GrabAction {
    /// End the grab and dismiss all of its popups.
    UngrabAll,
    /// Give the keyboard focus to the popup.
    FocusKeyboard,
    /// Let the popup grab the keyboard.
    GrabKeyboard,
    /// Let the popup grab the pointer and keep its focus.
    GrabPointer,
}

/// The first window with the surface.
pub open spec fn first_window(windows: Seq<Option<SurfaceId>>, surface: SurfaceId) -> Option<usize>
    decreases windows.len(),
{
    if windows.len() == 0 {
        None
    } else {
        match first_window(windows.drop_last(), surface) {
            Some(i) => Some(i),
            None => if windows.last() == Some(surface) {
                Some((windows.len() - 1) as usize)
            } else {
                None
            },
        }
    }
}

/// The first of the marked places.
pub open spec fn first_marked(marks: Seq<bool>) -> Option<usize>
    decreases marks.len(),
{
    if marks.len() == 0 {
        None
    } else {
        match first_marked(marks.drop_last()) {
            Some(i) => Some(i),
            None => if marks.last() {
                Some((marks.len() - 1) as usize)
            } else {
                None
            },
        }
    }
}

/// The action that tells the client the pending state, if it was told of an
/// earlier one.
pub open spec fn configure(initial_configure_sent: bool) -> Seq<ShellAction> {
    if initial_configure_sent {
        seq![ShellAction::SendConfigure]
    } else {
        seq![]
    }
}

/// The object by which the client is told the output that its window covers.
pub open spec fn fullscreen_resource(
    client_outputs: Seq<OutputResource>,
    requested: Option<OutputResource>,
) -> Option<OutputResource> {
    if client_outputs.len() > 0 {
        Some(client_outputs.last())
    } else {
        requested
    }
}

/// What has to be done for a window that is to cover an output.
pub open spec fn fullscreen_actions(
    windows: Seq<Option<SurfaceId>>,
    surface: SurfaceId,
    target: Option<FullscreenTarget>,
    initial_configure_sent: bool,
) -> Seq<ShellAction> {
    match target {
        Some(target) => match target.client_outputs {
            Some(_) => seq![
                ShellAction::SetFullscreenWindow {
                    output: target.output,
                    window: first_window(windows, surface)->0,
                },
            ] + configure(initial_configure_sent),
            None => seq![],
        },
        None => configure(initial_configure_sent),
    }
}

/// What has to be done for a window that is to cover no output any more.
pub open spec fn unfullscreen_actions(
    pending: ToplevelState,
    covered: Option<CoveredOutput>,
    initial_configure_sent: bool,
) -> Seq<ShellAction> {
    let cleared = match (pending.fullscreen_output, covered) {
        (Some(_), Some(CoveredOutput { output, has_fullscreen: true })) => seq![
            ShellAction::ClearFullscreenWindow(output),
            ShellAction::ResetBuffers(output),
        ],
        _ => seq![],
    };
    cleared + configure(initial_configure_sent)
}

/// What has to be done for a window that is to fill an output.
pub open spec fn maximize_actions(geometry: Rectangle, initial_configure_sent: bool) -> Seq<
    ShellAction,
> {
    seq![ShellAction::MapWindow { location: geometry.loc, activate: true }] + configure(
        initial_configure_sent,
    )
}

/// The output that a window is maximized on: the first one that it is on, or
/// else the first one of all.
pub open spec fn maximize_output(
    window_outputs: Seq<MappedOutput>,
    outputs: Seq<MappedOutput>,
) -> Option<MappedOutput> {
    if window_outputs.len() > 0 {
        Some(window_outputs[0])
    } else if outputs.len() > 0 {
        Some(outputs[0])
    } else {
        None
    }
}

/// The area around all the outputs.
pub open spec fn outputs_area(outputs: Seq<Rectangle>) -> Rectangle {
    Rectangle::merged_all(outputs.last(), outputs.drop_last())
}

/// The area that a popup may cover, in the coordinates of its parent.
pub open spec fn popup_area(
    outputs: Seq<Rectangle>,
    toplevel_coords: Point,
    window_loc: Point,
) -> Rectangle {
    let area = outputs_area(outputs);
    Rectangle { loc: area.loc.minus(toplevel_coords).minus(window_loc), ..area }
}

/// The area that a popup may cover, if its window is known and on an output.
pub open spec fn target_at(place: Option<PopupPlace>) -> Option<Rectangle> {
    match place {
        Some(place) => if place.outputs@.len() > 0 {
            Some(
                popup_area(place.outputs@, place.toplevel_coords, place.window_geometry.loc),
            )
        } else {
            None
        },
        None => None,
    }
}

/// Whether a device is grabbed by something else than the popup or its parent.
pub open spec fn grabbed_by_other(status: GrabStatus, serial: Serial, previous: Serial) -> bool {
    match status {
        GrabStatus::Free => false,
        GrabStatus::Held(held) => held != serial && held != previous,
        GrabStatus::Busy => true,
    }
}

/// The serial of the parent's grab, or else `serial`.
pub open spec fn previous_or(grab: PopupGrab, serial: Serial) -> Serial {
    match grab.previous_serial {
        Some(previous) => previous,
        None => serial,
    }
}

/// The next phase of a popup's grab and what has to be done before, given the
/// device of the present phase, if the seat has it.
pub open spec fn grab_transition(
    phase: GrabPhase,
    grab: PopupGrab,
    device: Option<GrabStatus>,
    serial: Serial,
) -> (GrabPhase, Seq<GrabAction>) {
    match phase {
        GrabPhase::Keyboard => match device {
            None => (GrabPhase::Pointer, seq![]),
            Some(status) => if grabbed_by_other(status, serial, previous_or(grab, serial)) {
                (GrabPhase::Done, seq![GrabAction::UngrabAll])
            } else {
                (GrabPhase::Pointer, seq![GrabAction::FocusKeyboard, GrabAction::GrabKeyboard])
            },
        },
        GrabPhase::Pointer => match device {
            None => (GrabPhase::Done, seq![]),
            Some(status) => if grabbed_by_other(status, serial, previous_or(grab, grab.serial)) {
                (GrabPhase::Done, seq![GrabAction::UngrabAll])
            } else {
                (GrabPhase::Done, seq![GrabAction::GrabPointer])
            },
        },
        GrabPhase::Done => (GrabPhase::Done, seq![]),
    }
}

/// All that is done for a popup's grab, given the keyboard and the pointer of
/// the seat, and the phase that it ends in.
pub open spec fn grab_run(
    grab: PopupGrab,
    keyboard: Option<GrabStatus>,
    pointer: Option<GrabStatus>,
    serial: Serial,
) -> (GrabPhase, Seq<GrabAction>) {
    let (phase, first) = grab_transition(GrabPhase::Keyboard, grab, keyboard, serial);
    let (end, second) = grab_transition(phase, grab, pointer, serial);
    (end, first + second)
}

/// The state of the compositor, as far as the requests read it.
pub struct AnvilState {
    pub space: Space,
}

impl AnvilState {
    /// A client has made a toplevel.
    pub fn new_toplevel() -> (r: Vec<ShellAction>)
        ensures
            r@ == seq![
                ShellAction::PlaceNewWindow { activate: true },
                ShellAction::ReapplyLayout,
                ShellAction::WatchCommits,
            ],
    {
        let mut actions: Vec<ShellAction> = Vec::new();
        actions.push(ShellAction::PlaceNewWindow { activate: true });
        actions.push(ShellAction::ReapplyLayout);
        actions.push(ShellAction::WatchCommits);
        actions
    }

    /// Finds the first window with the surface.
    pub fn find_window(&self, surface: SurfaceId) -> (r: Option<usize>)
        ensures
            r == first_window(self.space.windows@, surface),
            r matches Some(i) ==> i < self.space.windows@.len(),
    {
        let ghost windows = self.space.windows@;
        for i in 0..self.space.windows.len()
            invariant
                windows == self.space.windows@,
                first_window(windows.take(i as int), surface) is None,
        {
            assert(windows.take(i + 1).drop_last() =~= windows.take(i as int));
            if let Some(shown) = self.space.windows[i] {
                if shown == surface {
                    proof {
                        lemma_first_window_extends(windows, i + 1, surface);
                    }
                    return Some(i);
                }
            }
        }
        assert(windows.take(windows.len() as int) =~= windows);
        None
    }

    /// The surface of a toplevel is gone. Its window goes too, and the other
    /// windows are placed anew.
    pub fn toplevel_destroyed(&self, surface: SurfaceId) -> (r: Vec<ShellAction>)
        ensures
            r@ == (match first_window(self.space.windows@, surface) {
                Some(window) => seq![
                    ShellAction::UnmapWindow(window),
                    ShellAction::ReapplyLayout,
                ],
                None => seq![ShellAction::ReapplyLayout],
            }),
    {
        let mut actions: Vec<ShellAction> = Vec::new();
        if let Some(window) = self.find_window(surface) {
            actions.push(ShellAction::UnmapWindow(window));
        }
        actions.push(ShellAction::ReapplyLayout);
        actions
    }

    /// A client has made a popup.
    pub fn new_popup() -> (r: Vec<ShellAction>)
        ensures
            r@ == seq![ShellAction::UnconstrainPopup, ShellAction::TrackPopup],
    {
        let mut actions: Vec<ShellAction> = Vec::new();
        actions.push(ShellAction::UnconstrainPopup);
        actions.push(ShellAction::TrackPopup);
        actions
    }

    /// A client has given a popup another positioner. The popup goes where
    /// `locate` finds its place by that positioner.
    pub fn reposition_request<P, F: FnOnce(&P) -> Rectangle>(
        pending: &mut PopupState<P>,
        positioner: P,
        locate: F,
        token: u32,
    ) -> (r: Vec<ShellAction>)
        requires
            locate.requires((&positioner,)),
        ensures
            final(pending).positioner == positioner,
            locate.ensures((&positioner,), final(pending).geometry),
            r@ == seq![ShellAction::UnconstrainPopup, ShellAction::SendRepositioned(token)],
    {
        pending.geometry = locate(&positioner);
        pending.positioner = positioner;
        let mut actions: Vec<ShellAction> = Vec::new();
        actions.push(ShellAction::UnconstrainPopup);
        actions.push(ShellAction::SendRepositioned(token));
        actions
    }

    /// A client has acknowledged a configure. The window of a toplevel has the
    /// header bar from now on if the client left the decorations to the server.
    pub fn ack_configure(&self, surface: SurfaceId, configure: Configure) -> (r: Option<
        ShellAction,
    >)
        ensures
            r == (match (configure, first_window(self.space.windows@, surface)) {
                (Configure::Toplevel { decoration_mode }, Some(window)) => Some(
                    ShellAction::SetSsd {
                        window: window,
                        ssd: decoration_mode == Some(DecorationMode::ServerSide),
                    },
                ),
                _ => None,
            }),
    {
        match configure {
            Configure::Toplevel { decoration_mode } => match self.find_window(surface) {
                Some(window) => {
                    let ssd = match decoration_mode {
                        Some(DecorationMode::ServerSide) => true,
                        _ => false,
                    };
                    Some(ShellAction::SetSsd { window, ssd })
                },
                None => None,
            },
            Configure::Popup => None,
        }
    }

    /// Chooses the output that a window is to cover: the one that the client
    /// has named, or else the first one.
    pub fn fullscreen_output(&self, requested: Option<OutputId>) -> (r: OutputId)
        requires
            requested is Some || self.space.outputs@.len() > 0,
        ensures
            r == (match requested {
                Some(output) => output,
                None => self.space.outputs@[0].output,
            }),
    {
        match requested {
            Some(output) => output,
            None => self.space.outputs[0].output,
        }
    }

    /// A client wants its window to cover an output. `target` is that output,
    /// if one was found. If the client is gone, nothing happens.
    pub fn fullscreen_request(
        &self,
        surface: SurfaceId,
        target: &Option<FullscreenTarget>,
        pending: &mut ToplevelState,
        initial_configure_sent: bool,
    ) -> (r: Vec<ShellAction>)
        requires
            target matches Some(FullscreenTarget { client_outputs: Some(_), .. }) ==> {
                &&& first_window(self.space.windows@, surface) matches Some(window)
                &&& forall|i: int| 0 <= i < window ==> self.space.windows@[i] is Some
            },
        ensures
            *final(pending) == (match *target {
                Some(FullscreenTarget {
                    geometry,
                    requested,
                    client_outputs: Some(client_outputs),
                    ..
                }) => old(pending).fullscreen_on(
                    geometry.size,
                    fullscreen_resource(client_outputs@, requested),
                ),
                _ => *old(pending),
            }),
            r@ == fullscreen_actions(
                self.space.windows@,
                surface,
                *target,
                initial_configure_sent,
            ),
    {
        let mut actions: Vec<ShellAction> = Vec::new();
        if let Some(target) = target {
            match &target.client_outputs {
                Some(client_outputs) => {
                    let window: usize = self.find_window(surface).unwrap();
                    let n: usize = client_outputs.len();
                    let resource = if n > 0 {
                        Some(client_outputs[n - 1])
                    } else {
                        target.requested
                    };
                    pending.fullscreen = true;
                    pending.size = Some(target.geometry.size);
                    pending.fullscreen_output = resource;
                    actions.push(
                        ShellAction::SetFullscreenWindow { output: target.output, window },
                    );
                },
                None => {
                    return actions;
                },
            }
        }
        if initial_configure_sent {
            actions.push(ShellAction::SendConfigure);
        }
        actions
    }

    /// A client wants its window to cover no output any more. `covered` is the
    /// output that the pending state names.
    pub fn unfullscreen_request(
        covered: Option<CoveredOutput>,
        pending: &mut ToplevelState,
        initial_configure_sent: bool,
    ) -> (r: Vec<ShellAction>)
        requires
            old(pending).fullscreen_output is Some ==> covered is Some,
        ensures
            *final(pending) == old(pending).unfullscreened(),
            r@ == unfullscreen_actions(*old(pending), covered, initial_configure_sent),
    {
        let mut actions: Vec<ShellAction> = Vec::new();
        pending.fullscreen = false;
        pending.size = None;
        let resource = pending.fullscreen_output.take();
        if resource.is_some() {
            let covered = covered.unwrap();
            if covered.has_fullscreen {
                actions.push(ShellAction::ClearFullscreenWindow(covered.output));
                actions.push(ShellAction::ResetBuffers(covered.output));
            }
        }
        if initial_configure_sent {
            actions.push(ShellAction::SendConfigure);
        }
        actions
    }

    /// A client wants its window to fill an output. `window_outputs` are the
    /// outputs that the window is on.
    pub fn maximize_request(
        &self,
        window_outputs: &Vec<MappedOutput>,
        pending: &mut ToplevelState,
        initial_configure_sent: bool,
    ) -> (r: Vec<ShellAction>)
        requires
            maximize_output(window_outputs@, self.space.outputs@) matches Some(output)
                && output.geometry is Some,
        ensures
            ({
                let output = maximize_output(window_outputs@, self.space.outputs@)->0;
                let geometry = output.geometry->0;
                &&& *final(pending) == old(pending).maximized_to(geometry.size)
                &&& r@ == maximize_actions(geometry, initial_configure_sent)
            }),
    {
        let output = if window_outputs.len() > 0 {
            window_outputs[0]
        } else {
            self.space.outputs[0]
        };
        let geometry = output.geometry.unwrap();
        pending.maximized = true;
        pending.size = Some(geometry.size);
        let mut actions: Vec<ShellAction> = Vec::new();
        actions.push(ShellAction::MapWindow { location: geometry.loc, activate: true });
        if initial_configure_sent {
            actions.push(ShellAction::SendConfigure);
        }
        actions
    }

    /// A client wants its window to fill an output no more.
    pub fn unmaximize_request(pending: &mut ToplevelState, initial_configure_sent: bool) -> (r: Vec<
        ShellAction,
    >)
        ensures
            *final(pending) == old(pending).unmaximized(),
            r@ == configure(initial_configure_sent),
    {
        pending.maximized = false;
        pending.size = None;
        let mut actions: Vec<ShellAction> = Vec::new();
        if initial_configure_sent {
            actions.push(ShellAction::SendConfigure);
        }
        actions
    }

    /// A client wants its window to be moved with the pointer. The layout
    /// places windows, so nothing happens.
    pub fn move_request_xdg(&mut self, surface: SurfaceId, serial: Serial)
        ensures
            *final(self) == *old(self),
    {
    }

    /// Chooses what the grab of a popup starts from. `root` is the surface that
    /// the popup belongs to in the end, if it is known, and `layers` says of
    /// each output whether a layer surface on it is that surface.
    pub fn grab_root(&self, root: Option<SurfaceId>, layers: &Vec<bool>) -> (r: Option<
        KeyboardFocusTarget,
    >)
        ensures
            r == (match root {
                Some(surface) => match first_window(self.space.windows@, surface) {
                    Some(window) => Some(KeyboardFocusTarget::Window(window)),
                    None => match first_marked(layers@) {
                        Some(output) => Some(KeyboardFocusTarget::LayerSurface(output)),
                        None => None,
                    },
                },
                None => None,
            }),
    {
        match root {
            Some(surface) => match self.find_window(surface) {
                Some(window) => Some(KeyboardFocusTarget::Window(window)),
                None => match find_marked(layers) {
                    Some(output) => Some(KeyboardFocusTarget::LayerSurface(output)),
                    None => None,
                },
            },
            None => None,
        }
    }

    /// Takes the next step of a popup's grab. It starts with the keyboard.
    pub fn grab(
        phase: GrabPhase,
        grab: PopupGrab,
        device: Option<GrabStatus>,
        serial: Serial,
    ) -> (r: (GrabPhase, Vec<GrabAction>))
        ensures
            (r.0, r.1@) == grab_transition(phase, grab, device, serial),
    {
        let mut actions: Vec<GrabAction> = Vec::new();
        match phase {
            GrabPhase::Keyboard => {
                if let Some(status) = device {
                    let previous: u32 = grab.previous_serial.unwrap_or(serial);
                    if is_grabbed_by_other(status, serial, previous) {
                        actions.push(GrabAction::UngrabAll);
                        return (GrabPhase::Done, actions);
                    }
                    actions.push(GrabAction::FocusKeyboard);
                    actions.push(GrabAction::GrabKeyboard);
                }
                (GrabPhase::Pointer, actions)
            },
            GrabPhase::Pointer => {
                if let Some(status) = device {
                    let previous: u32 = grab.previous_serial.unwrap_or(grab.serial);
                    if is_grabbed_by_other(status, serial, previous) {
                        actions.push(GrabAction::UngrabAll);
                        return (GrabPhase::Done, actions);
                    }
                    actions.push(GrabAction::GrabPointer);
                }
                (GrabPhase::Done, actions)
            },
            GrabPhase::Done => (GrabPhase::Done, actions),
        }
    }

    /// Gives the area that a popup may cover, in the coordinates of its parent,
    /// if its window is known and on an output.
    pub fn popup_target(place: &Option<PopupPlace>) -> (r: Option<Rectangle>)
        ensures
            r == target_at(*place),
    {
        match place {
            Some(place) => {
                let n: usize = place.outputs.len();
                if n == 0 {
                    return None;
                }
                let ghost outputs = place.outputs@;
                let ghost others = outputs.drop_last();
                let mut target = place.outputs[n - 1];
                assert(others.take(0) =~= Seq::<Rectangle>::empty());
                let last: usize = n - 1;
                for i in 0..last
                    invariant
                        last + 1 == outputs.len(),
                        outputs == place.outputs@,
                        others == outputs.drop_last(),
                        target == Rectangle::merged_all(outputs.last(), others.take(i as int)),
                {
                    assert(others.take(i + 1).drop_last() =~= others.take(i as int));
                    target = target.merge(place.outputs[i]);
                }
                assert(others.take(last as int) =~= others);
                target.loc = target.loc.relative_to(place.toplevel_coords);
                target.loc = target.loc.relative_to(place.window_geometry.loc);
                Some(target)
            },
            None => None,
        }
    }
    /// Moves a popup to where it can be seen. `fit` finds its place by its
    /// positioner within the area that it may cover. A popup whose window is
    /// unknown or on no output stays where it is.
    pub fn unconstrain_popup<P, F: FnOnce(&P, Rectangle) -> Rectangle>(
        place: &Option<PopupPlace>,
        pending: &mut PopupState<P>,
        fit: F,
    )
        requires
            target_at(*place) matches Some(target) ==> fit.requires(
                (&old(pending).positioner, target),
            ),
        ensures
            final(pending).positioner == old(pending).positioner,
            match target_at(*place) {
                Some(target) => fit.ensures(
                    (&old(pending).positioner, target),
                    final(pending).geometry,
                ),
                None => final(pending).geometry == old(pending).geometry,
            },
    {
        if let Some(target) = AnvilState::popup_target(place) {
            pending.geometry = fit(&pending.positioner, target);
        }
    }
}

/// A toplevel has committed a new state, which needs nothing to be done.
pub fn handle_toplevel_commit() -> (r: Option<()>)
    ensures
        r == Some(()),
{
    Some(())
}

fn find_marked(marks: &Vec<bool>) -> (r: Option<usize>)
    ensures
        r == first_marked(marks@),
{
    let ghost all = marks@;
    for i in 0..marks.len()
        invariant
            all == marks@,
            first_marked(all.take(i as int)) is None,
    {
        assert(all.take(i + 1).drop_last() =~= all.take(i as int));
        if marks[i] {
            proof {
                lemma_first_marked_extends(all, i + 1);
            }
            return Some(i);
        }
    }
    assert(all.take(all.len() as int) =~= all);
    None
}

fn is_grabbed_by_other(status: GrabStatus, serial: Serial, previous: Serial) -> (r: bool)
    ensures
        r == grabbed_by_other(status, serial, previous),
{
    match status {
        GrabStatus::Free => false,
        GrabStatus::Held(held) => held != serial && held != previous,
        GrabStatus::Busy => true,
    }
}

proof fn lemma_first_window_extends(
    windows: Seq<Option<SurfaceId>>,
    n: int,
    surface: SurfaceId,
)
    requires
        0 <= n <= windows.len(),
        first_window(windows.take(n), surface) is Some,
    ensures
        first_window(windows, surface) == first_window(windows.take(n), surface),
    decreases windows.len(),
{
    if n == windows.len() {
        assert(windows.take(n) =~= windows);
    } else {
        assert(windows.drop_last().take(n) =~= windows.take(n));
        lemma_first_window_extends(windows.drop_last(), n, surface);
    }
}

proof fn lemma_first_marked_extends(marks: Seq<bool>, n: int)
    requires
        0 <= n <= marks.len(),
        first_marked(marks.take(n)) is Some,
    ensures
        first_marked(marks) == first_marked(marks.take(n)),
    decreases marks.len(),
{
    if n == marks.len() {
        assert(marks.take(n) =~= marks);
    } else {
        assert(marks.drop_last().take(n) =~= marks.take(n));
        lemma_first_marked_extends(marks.drop_last(), n);
    }
}

/// What `first_window` gives is the window with the surface that comes before
/// all others with it, if there is any.
pub proof fn law_first_window(windows: Seq<Option<SurfaceId>>, surface: SurfaceId)
    requires
        windows.len() <= usize::MAX,
    ensures
        match first_window(windows, surface) {
            Some(window) => {
                &&& window < windows.len()
                &&& windows[window as int] == Some(surface)
                &&& forall|i: int| 0 <= i < window ==> windows[i] != Some(surface)
            },
            None => !windows.contains(Some(surface)),
        },
    decreases windows.len(),
{
    if windows.len() > 0 {
        let front = windows.drop_last();
        law_first_window(front, surface);
        assert forall|i: int| 0 <= i < front.len() implies windows[i] == front[i] by {}
        if first_window(front, surface) is None {
            assert forall|i: int| 0 <= i < front.len() implies windows[i] != Some(surface) by {
                assert(front[i] == windows[i]);
                assert(front.contains(front[i]));
            }
        }
    }
}

/// What `first_marked` gives is the marked place before all others, if there is
/// any.
pub proof fn law_first_marked(marks: Seq<bool>)
    requires
        marks.len() <= usize::MAX,
    ensures
        match first_marked(marks) {
            Some(place) => {
                &&& place < marks.len()
                &&& marks[place as int]
                &&& forall|i: int| 0 <= i < place ==> !marks[i]
            },
            None => forall|i: int| 0 <= i < marks.len() ==> !marks[i],
        },
    decreases marks.len(),
{
    if marks.len() > 0 {
        let front = marks.drop_last();
        law_first_marked(front);
        assert forall|i: int| 0 <= i < front.len() implies marks[i] == front[i] by {}
    }
}

/// If no two windows have the same surface, no window with the surface is left
/// once the window that `toplevel_destroyed` names is gone.
pub proof fn law_destroyed_toplevel_leaves(windows: Seq<Option<SurfaceId>>, surface: SurfaceId)
    requires
        windows.len() <= usize::MAX,
        forall|i: int, j: int|
            0 <= i < j < windows.len() && windows[i] is Some ==> windows[i] != windows[j],
    ensures
        match first_window(windows, surface) {
            Some(window) => !windows.remove(window as int).contains(Some(surface)),
            None => !windows.contains(Some(surface)),
        },
{
    law_first_window(windows, surface);
    if let Some(window) = first_window(windows, surface) {
        let left = windows.remove(window as int);
        assert forall|i: int| 0 <= i < left.len() implies left[i] != Some(surface) by {
            if i < window {
                assert(left[i] == windows[i]);
            } else {
                assert(left[i] == windows[i + 1]);
                assert(windows[window as int] != windows[i + 1]);
            }
        }
    }
}

/// A window that fills an output and then does not is as if it never had: the
/// client chooses its size again, and whether it covers an output is not
/// touched.
pub proof fn law_unmaximize_undoes_maximize(pending: ToplevelState, size: Size)
    ensures
        pending.maximized_to(size).unmaximized() == pending.unmaximized(),
        !pending.maximized && pending.size is None ==> pending.maximized_to(size).unmaximized()
            == pending,
        pending.maximized_to(size).fullscreen == pending.fullscreen,
        pending.maximized_to(size).fullscreen_output == pending.fullscreen_output,
{
}

/// A window that covers an output and then does not is as if it never had, and
/// whether it fills an output is not touched.
pub proof fn law_unfullscreen_undoes_fullscreen(
    pending: ToplevelState,
    size: Size,
    output: Option<OutputResource>,
)
    ensures
        pending.fullscreen_on(size, output).unfullscreened() == pending.unfullscreened(),
        !pending.fullscreen && pending.size is None && pending.fullscreen_output is None
            ==> pending.fullscreen_on(size, output).unfullscreened() == pending,
        pending.fullscreen_on(size, output).maximized == pending.maximized,
{
}

/// The output that a window was set to cover is the one that is cleared when
/// the window no longer covers it.
pub proof fn law_unfullscreen_clears_the_covered_output(
    windows: Seq<Option<SurfaceId>>,
    surface: SurfaceId,
    target: FullscreenTarget,
    pending: ToplevelState,
    sent: bool,
)
    requires
        target.client_outputs is Some,
        fullscreen_resource(target.client_outputs->0@, target.requested) is Some,
    ensures
        ({
            let resource = fullscreen_resource(target.client_outputs->0@, target.requested);
            let covering = pending.fullscreen_on(target.geometry.size, resource);
            let covered = CoveredOutput { output: target.output, has_fullscreen: true };
            let set = fullscreen_actions(windows, surface, Some(target), sent);
            let cleared = unfullscreen_actions(covering, Some(covered), sent);
            &&& set[0] matches ShellAction::SetFullscreenWindow { output, .. }
            &&& cleared[0] == ShellAction::ClearFullscreenWindow(output)
            &&& cleared[1] == ShellAction::ResetBuffers(output)
        }),
{
}

/// Whether the client is told the pending state, and that after all else.
pub open spec fn told_last(actions: Seq<ShellAction>) -> bool {
    &&& actions.len() > 0
    &&& actions.last() == ShellAction::SendConfigure
    &&& !actions.drop_last().contains(ShellAction::SendConfigure)
}

/// A client that was never told a state is not told of a request either. One
/// that was is told once, after all else was done, unless it is gone.
pub proof fn law_clients_are_told_last(
    windows: Seq<Option<SurfaceId>>,
    surface: SurfaceId,
    target: Option<FullscreenTarget>,
    pending: ToplevelState,
    covered: Option<CoveredOutput>,
    geometry: Rectangle,
)
    ensures
        !(target matches Some(FullscreenTarget { client_outputs: None, .. })) ==> told_last(
            fullscreen_actions(windows, surface, target, true),
        ),
        told_last(unfullscreen_actions(pending, covered, true)),
        told_last(maximize_actions(geometry, true)),
        told_last(configure(true)),
        !fullscreen_actions(windows, surface, target, false).contains(ShellAction::SendConfigure),
        !unfullscreen_actions(pending, covered, false).contains(ShellAction::SendConfigure),
        !maximize_actions(geometry, false).contains(ShellAction::SendConfigure),
        !configure(false).contains(ShellAction::SendConfigure),
        target matches Some(FullscreenTarget { client_outputs: None, .. }) ==> fullscreen_actions(
            windows,
            surface,
            target,
            true,
        ).len() == 0,
{
}

/// A step of a popup's grab takes no device that something else has grabbed,
/// and does nothing further then. A device that is free, or grabbed by the
/// popup or its parent, is taken.
pub proof fn law_popup_grab_respects_other_grabs(
    phase: GrabPhase,
    grab: PopupGrab,
    status: GrabStatus,
    serial: Serial,
)
    requires
        phase != GrabPhase::Done,
    ensures
        ({
            let fallback = if phase == GrabPhase::Keyboard { serial } else { grab.serial };
            let previous = previous_or(grab, fallback);
            let (next, actions) = grab_transition(phase, grab, Some(status), serial);
            let took = actions.contains(GrabAction::GrabKeyboard) || actions.contains(
                GrabAction::GrabPointer,
            );
            &&& took == !grabbed_by_other(status, serial, previous)
            &&& !took ==> next == GrabPhase::Done && actions == seq![GrabAction::UngrabAll]
            &&& took ==> !actions.contains(GrabAction::UngrabAll)
            &&& status == GrabStatus::Free || status == GrabStatus::Held(serial) || status
                == GrabStatus::Held(previous) ==> took
        }),
{
    let (next, actions) = grab_transition(phase, grab, Some(status), serial);
    if actions.len() == 2 {
        assert(actions[1] == GrabAction::GrabKeyboard);
    } else {
        assert(actions.len() == 1);
        assert(actions[0] == GrabAction::GrabPointer || actions[0] == GrabAction::UngrabAll);
    }
}

/// A popup's grab ends once both devices were looked at. It is given up if and
/// only if something else has grabbed one of them, and that is the last thing
/// done. Otherwise the popup has each device that the seat has, and the focus
/// of the keyboard is set before it is grabbed.
pub proof fn law_popup_grab_takes_all_or_gives_up(
    grab: PopupGrab,
    keyboard: Option<GrabStatus>,
    pointer: Option<GrabStatus>,
    serial: Serial,
)
    ensures
        ({
            let (end, actions) = grab_run(grab, keyboard, pointer, serial);
            let keyboard_taken = keyboard matches Some(status) && grabbed_by_other(
                status,
                serial,
                previous_or(grab, serial),
            );
            let pointer_taken = pointer matches Some(status) && grabbed_by_other(
                status,
                serial,
                previous_or(grab, grab.serial),
            );
            &&& end == GrabPhase::Done
            &&& if keyboard_taken {
                actions == seq![GrabAction::UngrabAll]
            } else {
                actions == (if keyboard is Some {
                    seq![GrabAction::FocusKeyboard, GrabAction::GrabKeyboard]
                } else {
                    seq![]
                }) + (if pointer_taken {
                    seq![GrabAction::UngrabAll]
                } else if pointer is Some {
                    seq![GrabAction::GrabPointer]
                } else {
                    seq![]
                })
            }
        }),
{
}

/// The area that a popup may cover is the smallest one around all the outputs
/// that its window is on, moved to the coordinates of the popup's parent, if no
/// coordinate leaves the range of `i32`.
pub proof fn law_popup_area_covers_outputs(
    outputs: Seq<Rectangle>,
    toplevel_coords: Point,
    window_loc: Point,
)
    requires
        outputs.len() > 0,
        span_fits(outputs),
    ensures
        is_bounding_box(outputs_area(outputs), outputs),
        popup_area(outputs, toplevel_coords, window_loc).size == outputs_area(outputs).size,
        ({
            let x = outputs_area(outputs).loc.x - toplevel_coords.x;
            &&& i32::MIN <= x <= i32::MAX
            &&& i32::MIN <= x - window_loc.x <= i32::MAX
        }) ==> popup_area(outputs, toplevel_coords, window_loc).loc.x == outputs_area(outputs).loc.x
            - toplevel_coords.x - window_loc.x,
        ({
            let y = outputs_area(outputs).loc.y - toplevel_coords.y;
            &&& i32::MIN <= y <= i32::MAX
            &&& i32::MIN <= y - window_loc.y <= i32::MAX
        }) ==> popup_area(outputs, toplevel_coords, window_loc).loc.y == outputs_area(outputs).loc.y
            - toplevel_coords.y - window_loc.y,
{
    assert(outputs.drop_last().push(outputs.last()) =~= outputs);
    law_merged_all_is_bounding_box(outputs.last(), outputs.drop_last());
}

/// The area that a popup may cover does not depend on the order in which the
/// outputs come.
pub proof fn law_popup_area_ignores_order(
    outputs1: Seq<Rectangle>,
    outputs2: Seq<Rectangle>,
    toplevel_coords: Point,
    window_loc: Point,
)
    requires
        outputs1.len() > 0,
        outputs1.to_multiset() == outputs2.to_multiset(),
    ensures
        popup_area(outputs1, toplevel_coords, window_loc) == popup_area(
            outputs2,
            toplevel_coords,
            window_loc,
        ),
{
    outputs1.to_multiset_ensures();
    outputs2.to_multiset_ensures();
    assert(outputs1.drop_last().push(outputs1.last()) =~= outputs1);
    assert(outputs2.drop_last().push(outputs2.last()) =~= outputs2);
    law_bounding_box_ignores_order(
        outputs1.last(),
        outputs1.drop_last(),
        outputs2.last(),
        outputs2.drop_last(),
    );
}

/// The window that `find_window` gives has the surface, and no window before it
/// has. It gives none only if no window has the surface.
pub proof fn law_found_window_has_the_surface(
    state: AnvilState,
    surface: SurfaceId,
    found: Option<usize>,
)
    requires
        call_ensures(AnvilState::find_window, (&state, surface), found),
    ensures
        ({
            let windows = state.space.windows@;
            match found {
                Some(window) => {
                    &&& window < windows.len()
                    &&& windows[window as int] == Some(surface)
                    &&& forall|i: int| 0 <= i < window ==> windows[i] != Some(surface)
                },
                None => forall|i: int| 0 <= i < windows.len() ==> windows[i] != Some(surface),
            }
        }),
{
    let windows = state.space.windows@;
    assert(state.space.windows.len() == windows.len());
    law_first_window(windows, surface);
    if found is None {
        assert forall|i: int| 0 <= i < windows.len() implies windows[i] != Some(surface) by {
            assert(windows.contains(windows[i]));
        }
    }
}

/// What is done for a destroyed toplevel: a window is unmapped only if it has
/// the surface, one is unmapped if any has it, and the layout is applied last.
pub proof fn law_only_the_destroyed_window_is_unmapped(
    state: AnvilState,
    surface: SurfaceId,
    actions: Vec<ShellAction>,
)
    requires
        call_ensures(AnvilState::toplevel_destroyed, (&state, surface), actions),
    ensures
        ({
            let windows = state.space.windows@;
            if windows.contains(Some(surface)) {
                &&& actions@.len() == 2
                &&& actions@[0] matches ShellAction::UnmapWindow(window)
                &&& window < windows.len()
                &&& windows[window as int] == Some(surface)
                &&& forall|i: int| 0 <= i < window ==> windows[i] != Some(surface)
                &&& actions@[1] == ShellAction::ReapplyLayout
            } else {
                actions@ == seq![ShellAction::ReapplyLayout]
            }
        }),
{
    assert(state.space.windows.len() == state.space.windows@.len());
    law_first_window(state.space.windows@, surface);
}

/// What is done for a new toplevel: it is placed as the active window, before
/// the layout is applied, and its commits are watched.
pub proof fn law_new_toplevel_is_placed_first(actions: Vec<ShellAction>)
    requires
        call_ensures(AnvilState::new_toplevel, (), actions),
    ensures
        actions@.len() == 3,
        actions@[0] == (ShellAction::PlaceNewWindow { activate: true }),
        actions@[1] == ShellAction::ReapplyLayout,
        actions@[2] == ShellAction::WatchCommits,
{
}

/// A new popup is moved to where it can be seen before it is tracked.
pub proof fn law_new_popup_is_unconstrained_first(actions: Vec<ShellAction>)
    requires
        call_ensures(AnvilState::new_popup, (), actions),
    ensures
        actions@.len() == 2,
        actions@[0] == ShellAction::UnconstrainPopup,
        actions@[1] == ShellAction::TrackPopup,
{
}

/// A popup that got another positioner has that positioner and lies where it is
/// located by it. It is moved to where it can be seen, and then the client is
/// told, by the token that it gave.
pub proof fn law_reposition_follows_the_new_positioner<P, F: FnOnce(&P) -> Rectangle>(
    positioner: P,
    locate: F,
    token: u32,
)
    ensures
        forall|pending: &mut PopupState<P>, actions: Vec<ShellAction>| #[trigger]
            call_ensures(
                AnvilState::reposition_request::<P, F>,
                (pending, positioner, locate, token),
                actions,
            ) ==> {
                &&& final(pending).positioner == positioner
                &&& locate.ensures((&positioner,), final(pending).geometry)
                &&& actions@.len() == 2
                &&& actions@[0] == ShellAction::UnconstrainPopup
                &&& actions@[1] == ShellAction::SendRepositioned(token)
            },
{
}

/// A configure changes decorations only if it is for a toplevel that has a
/// window. That window then has the header bar if and only if the client left
/// the decorations to the server.
pub proof fn law_ack_sets_the_decoration_of_its_window(
    state: AnvilState,
    surface: SurfaceId,
    configure: Configure,
    action: Option<ShellAction>,
)
    requires
        call_ensures(AnvilState::ack_configure, (&state, surface, configure), action),
    ensures
        ({
            let windows = state.space.windows@;
            match configure {
                Configure::Popup => action is None,
                Configure::Toplevel { decoration_mode } => if windows.contains(Some(surface)) {
                    &&& action matches Some(ShellAction::SetSsd { window, ssd })
                    &&& window < windows.len()
                    &&& windows[window as int] == Some(surface)
                    &&& forall|i: int| 0 <= i < window ==> windows[i] != Some(surface)
                    &&& ssd <==> decoration_mode == Some(DecorationMode::ServerSide)
                } else {
                    action is None
                },
            }
        }),
{
    assert(state.space.windows.len() == state.space.windows@.len());
    law_first_window(state.space.windows@, surface);
}

/// A window covers the output that its client has named, and the first output
/// of all if the client has named none.
pub proof fn law_fullscreen_output_is_the_named_one(
    state: AnvilState,
    requested: Option<OutputId>,
    output: OutputId,
)
    requires
        call_ensures(AnvilState::fullscreen_output, (&state, requested), output),
    ensures
        requested matches Some(named) ==> output == named,
        requested is None ==> output == state.space.outputs@[0].output,
{
}

/// The window that is set to cover the output is the one whose surface has
/// asked, whether or not the client was told a state before. The client is asked
/// for the size of that output and is told it by the last of the objects through
/// which it knows it, or else by the one that it has named. Whether the window
/// fills an output is not touched.
pub proof fn law_fullscreen_covers_with_the_asking_window(
    state: AnvilState,
    surface: SurfaceId,
    target: FullscreenTarget,
    known: Vec<OutputResource>,
    sent: bool,
)
    requires
        target.client_outputs == Some(known),
        state.space.windows@.contains(Some(surface)),
    ensures
        forall|pending: &mut ToplevelState, actions: Vec<ShellAction>| #[trigger]
            call_ensures(
                AnvilState::fullscreen_request,
                (&state, surface, &Some(target), pending, sent),
                actions,
            ) ==> {
                let windows = state.space.windows@;
                &&& actions@.len() == if sent { 2nat } else { 1nat }
                &&& actions@[0] matches ShellAction::SetFullscreenWindow { output, window }
                &&& output == target.output
                &&& window < windows.len()
                &&& windows[window as int] == Some(surface)
                &&& forall|i: int| 0 <= i < window ==> windows[i] != Some(surface)
                &&& sent ==> actions@[1] == ShellAction::SendConfigure
                &&& final(pending).fullscreen
                &&& final(pending).size == Some(target.geometry.size)
                &&& known@.len() > 0 ==> final(pending).fullscreen_output == Some(
                    known@[known@.len() - 1],
                )
                &&& known@.len() == 0 ==> final(pending).fullscreen_output == target.requested
                &&& final(pending).maximized == pending.maximized
            },
{
    assert(state.space.windows.len() == state.space.windows@.len());
    law_first_window(state.space.windows@, surface);
}

/// Without an output to cover, or with a client that is gone, a request to
/// cover one changes no state. A client that is there is told so, if it was told
/// a state before.
pub proof fn law_fullscreen_without_a_target_changes_nothing(
    state: AnvilState,
    surface: SurfaceId,
    target: Option<FullscreenTarget>,
    sent: bool,
)
    requires
        target matches Some(found) ==> found.client_outputs is None,
    ensures
        forall|pending: &mut ToplevelState, actions: Vec<ShellAction>| #[trigger]
            call_ensures(
                AnvilState::fullscreen_request,
                (&state, surface, &target, pending, sent),
                actions,
            ) ==> {
                &&& *final(pending) == *pending
                &&& target is None && sent ==> actions@ == seq![ShellAction::SendConfigure]
                &&& target is Some || !sent ==> actions@.len() == 0
            },
{
}

/// A window that is to cover no output is asked for no size and names no output.
/// The output that it named, if it did and a window was ever set to cover it, is
/// cleared and then drawn from scratch, and no other is. The client is told
/// last, if it was told a state before.
pub proof fn law_unfullscreen_clears_only_the_named_output(
    covered: Option<CoveredOutput>,
    sent: bool,
)
    ensures
        forall|pending: &mut ToplevelState, actions: Vec<ShellAction>| #[trigger]
            call_ensures(AnvilState::unfullscreen_request, (covered, pending, sent), actions) ==> {
                let clears = pending.fullscreen_output is Some && covered is Some
                    && covered->0.has_fullscreen;
                let n: nat = if clears { 2 } else { 0 };
                &&& !final(pending).fullscreen
                &&& final(pending).size is None
                &&& final(pending).fullscreen_output is None
                &&& final(pending).maximized == pending.maximized
                &&& actions@.len() == if sent { n + 1 } else { n }
                &&& clears ==> actions@[0] == ShellAction::ClearFullscreenWindow(covered->0.output)
                &&& clears ==> actions@[1] == ShellAction::ResetBuffers(covered->0.output)
                &&& sent ==> actions@[n as int] == ShellAction::SendConfigure
            },
{
}

/// A window fills the first output that it is on, be it the only one, and the
/// first output of all only if it is on none: it is asked for the size of that
/// output and is put at its corner, as the active window, before the client is
/// told. Whether it covers an output is not touched.
pub proof fn law_maximize_fills_the_output_of_the_window(
    state: AnvilState,
    window_outputs: Vec<MappedOutput>,
    area: Rectangle,
    sent: bool,
)
    requires
        window_outputs@.len() > 0 ==> window_outputs@[0].geometry == Some(area),
        window_outputs@.len() == 0 ==> state.space.outputs@.len() > 0
            && state.space.outputs@[0].geometry == Some(area),
    ensures
        forall|pending: &mut ToplevelState, actions: Vec<ShellAction>| #[trigger]
            call_ensures(
                AnvilState::maximize_request,
                (&state, &window_outputs, pending, sent),
                actions,
            ) ==> {
                &&& final(pending).maximized
                &&& final(pending).size == Some(area.size)
                &&& final(pending).fullscreen == pending.fullscreen
                &&& final(pending).fullscreen_output == pending.fullscreen_output
                &&& actions@.len() == if sent { 2nat } else { 1nat }
                &&& actions@[0] == (ShellAction::MapWindow { location: area.loc, activate: true })
                &&& sent ==> actions@[1] == ShellAction::SendConfigure
            },
        forall|pending: &mut ToplevelState| #[trigger]
            call_requires(
                AnvilState::maximize_request,
                (&state, &window_outputs, pending, sent),
            ),
{
}

/// A window that fills an output no more is asked for no size. Whether it covers
/// an output is not touched, and it is not moved. The client is told if it was
/// told a state before.
pub proof fn law_unmaximize_only_frees_the_size(sent: bool)
    ensures
        forall|pending: &mut ToplevelState, actions: Vec<ShellAction>| #[trigger]
            call_ensures(AnvilState::unmaximize_request, (pending, sent), actions) ==> {
                &&& !final(pending).maximized
                &&& final(pending).size is None
                &&& final(pending).fullscreen == pending.fullscreen
                &&& final(pending).fullscreen_output == pending.fullscreen_output
                &&& sent ==> actions@ == seq![ShellAction::SendConfigure]
                &&& !sent ==> actions@.len() == 0
            },
{
}

/// A request to move a window changes nothing.
pub proof fn law_clients_do_not_move_windows(surface: SurfaceId, serial: Serial)
    ensures
        forall|state: &mut AnvilState| #[trigger]
            call_ensures(AnvilState::move_request_xdg, (state, surface, serial), ())
                ==> *final(state) == *state,
{
}

/// A popup's grab starts from the first window with the root surface. If no
/// window has it, it starts from the layer surface on the first output that has
/// it. It starts from nothing only if the root is unknown or nothing has it.
pub proof fn law_grab_starts_from_the_root(
    state: AnvilState,
    root: Option<SurfaceId>,
    layers: Vec<bool>,
    start: Option<KeyboardFocusTarget>,
)
    requires
        call_ensures(AnvilState::grab_root, (&state, root, &layers), start),
    ensures
        ({
            let windows = state.space.windows@;
            match start {
                Some(KeyboardFocusTarget::Window(window)) => {
                    &&& root is Some
                    &&& window < windows.len()
                    &&& windows[window as int] == root
                    &&& forall|i: int| 0 <= i < window ==> windows[i] != root
                },
                Some(KeyboardFocusTarget::LayerSurface(output)) => {
                    &&& root is Some
                    &&& !windows.contains(root)
                    &&& output < layers@.len()
                    &&& layers@[output as int]
                    &&& forall|i: int| 0 <= i < output ==> !layers@[i]
                },
                None => root is Some ==> {
                    &&& !windows.contains(root)
                    &&& forall|i: int| 0 <= i < layers@.len() ==> !layers@[i]
                },
            }
        }),
{
    assert(state.space.windows.len() == state.space.windows@.len());
    assert(layers.len() == layers@.len());
    if let Some(surface) = root {
        law_first_window(state.space.windows@, surface);
        law_first_marked(layers@);
    }
}

/// A step of a popup's grab gives up if and only if the device is grabbed and
/// neither with the serial of the request nor with that of the grab of the
/// popup's parent, be it an older or a newer grab. Where the parent has none, the
/// keyboard's step takes the serial of the request for it, and the pointer's step
/// takes that of the popup's own grab.
pub proof fn law_grab_gives_up_for_any_other_serial(
    phase: GrabPhase,
    grab: PopupGrab,
    device: Option<GrabStatus>,
    serial: Serial,
    parent: Serial,
    r: (GrabPhase, Vec<GrabAction>),
)
    requires
        call_ensures(AnvilState::grab, (phase, grab, device, serial), r),
        match grab.previous_serial {
            Some(previous) => parent == previous,
            None => parent == if phase == GrabPhase::Keyboard { serial } else { grab.serial },
        },
    ensures
        phase != GrabPhase::Done ==> match device {
            Some(status) => {
                let taken = if phase == GrabPhase::Keyboard {
                    &&& r.0 == GrabPhase::Pointer
                    &&& r.1@ == seq![GrabAction::FocusKeyboard, GrabAction::GrabKeyboard]
                } else {
                    r.0 == GrabPhase::Done && r.1@ == seq![GrabAction::GrabPointer]
                };
                let given_up = r.0 == GrabPhase::Done && r.1@ == seq![GrabAction::UngrabAll];
                match status {
                    GrabStatus::Free => taken,
                    GrabStatus::Held(held) => if held == serial || held == parent {
                        taken
                    } else {
                        given_up
                    },
                    GrabStatus::Busy => given_up,
                }
            },
            None => r.1@.len() == 0 && r.0 == if phase == GrabPhase::Keyboard {
                GrabPhase::Pointer
            } else {
                GrabPhase::Done
            },
        },
        phase == GrabPhase::Done ==> r.0 == GrabPhase::Done && r.1@.len() == 0,
{
}

/// Whether `around` is the area around the outputs: a single output itself, or
/// else what surrounds them all, and their bounding box if its size fits in
/// `i32`.
pub open spec fn lies_around(around: Rectangle, outputs: Seq<Rectangle>) -> bool {
    &&& outputs.len() == 1 ==> around == outputs[0]
    &&& outputs.len() > 1 ==> surrounds(around, outputs)
    &&& span_fits(outputs) ==> is_bounding_box(around, outputs)
}

/// A popup may cover the area around all the outputs that its window is on,
/// however many they are and wherever they lie, in the coordinates of its
/// parent. There is such an area if and only if the window is known and on an
/// output.
pub proof fn law_popup_target_surrounds_all_outputs(
    place: Option<PopupPlace>,
    target: Option<Rectangle>,
)
    requires
        call_ensures(AnvilState::popup_target, (&place,), target),
    ensures
        target is Some <==> place is Some && place->0.outputs@.len() > 0,
        target matches Some(area) ==> {
            let outputs = place->0.outputs@;
            let coords = place->0.toplevel_coords;
            let window = place->0.window_geometry.loc;
            exists|around: Rectangle|
                {
                    &&& #[trigger] lies_around(around, outputs)
                    &&& area.size == around.size
                    &&& area.loc == around.loc.minus(coords).minus(window)
                }
        },
{
    if let Some(area) = target {
        let outputs = place->0.outputs@;
        let around = outputs_area(outputs);
        assert(outputs.drop_last().push(outputs.last()) =~= outputs);
        if outputs.len() > 1 {
            law_merged_all_surrounds(outputs.last(), outputs.drop_last());
        }
        if span_fits(outputs) {
            law_merged_all_is_bounding_box(outputs.last(), outputs.drop_last());
        }
        assert(lies_around(around, outputs));
    }
}

/// Whether a coordinate of an output can be taken in the coordinates of a
/// popup's parent, which lies at `coords` in a window at `window`.
pub open spec fn relative_fits(edge: i32, coords: i32, window: i32) -> bool {
    &&& i32::MIN <= edge - coords <= i32::MAX
    &&& i32::MIN <= edge - coords - window <= i32::MAX
}

/// Whether all edges of the outputs can be taken in the coordinates of a popup's
/// parent.
pub open spec fn all_relative_fit(outputs: Seq<Rectangle>, coords: Point, window: Point) -> bool {
    forall|i: int|
        0 <= i < outputs.len() ==> {
            &&& relative_fits((#[trigger] outputs[i]).left(), coords.x, window.x)
            &&& relative_fits(outputs[i].right(), coords.x, window.x)
            &&& relative_fits(outputs[i].top(), coords.y, window.y)
            &&& relative_fits(outputs[i].bottom(), coords.y, window.y)
        }
}

proof fn lemma_relative(edge: i32, coords: i32, window: i32)
    requires
        relative_fits(edge, coords, window),
    ensures
        saturate(saturate(edge - coords) - window) == edge - coords - window,
{
}

proof fn lemma_area_starts_at_an_edge(outputs: Seq<Rectangle>, coords: Point, window: Point)
    requires
        outputs.len() > 0,
        all_relative_fit(outputs, coords, window),
    ensures
        relative_fits(outputs_area(outputs).loc.x, coords.x, window.x),
        relative_fits(outputs_area(outputs).loc.y, coords.y, window.y),
{
    let around = outputs_area(outputs);
    if outputs.len() > 1 {
        assert(outputs.drop_last().push(outputs.last()) =~= outputs);
        law_merged_all_surrounds(outputs.last(), outputs.drop_last());
        let il = choose|i: int|
            0 <= i < outputs.len() && around.loc.x == (#[trigger] outputs[i]).left();
        let it = choose|i: int|
            0 <= i < outputs.len() && around.loc.y == (#[trigger] outputs[i]).top();
        assert(relative_fits(outputs[il].left(), coords.x, window.x));
        assert(relative_fits(outputs[it].top(), coords.y, window.y));
    } else {
        let only = outputs[0];
        assert(around == only);
        assert(only.loc.x == only.left() || only.loc.x == only.right());
        assert(only.loc.y == only.top() || only.loc.y == only.bottom());
    }
}

/// The area that a popup may cover, moved back by where the popup's parent lies,
/// is the bounding box of all the outputs that its window is on, however many
/// they are, if no size and no coordinate leaves the range of `i32`.
pub proof fn law_popup_target_moved_back_is_the_bounding_box(
    place: PopupPlace,
    target: Option<Rectangle>,
    back: Rectangle,
)
    requires
        call_ensures(AnvilState::popup_target, (&Some(place),), target),
        place.outputs@.len() > 0,
        span_fits(place.outputs@),
        all_relative_fit(place.outputs@, place.toplevel_coords, place.window_geometry.loc),
        target matches Some(area) ==> {
            &&& back.size == area.size
            &&& back.loc.x == area.loc.x + place.toplevel_coords.x + place.window_geometry.loc.x
            &&& back.loc.y == area.loc.y + place.toplevel_coords.y + place.window_geometry.loc.y
        },
    ensures
        target is Some,
        is_bounding_box(back, place.outputs@),
{
    let outputs = place.outputs@;
    let around = outputs_area(outputs);
    let coords = place.toplevel_coords;
    let window = place.window_geometry.loc;
    assert(outputs.drop_last().push(outputs.last()) =~= outputs);
    law_merged_all_is_bounding_box(outputs.last(), outputs.drop_last());
    lemma_area_starts_at_an_edge(outputs, coords, window);
    lemma_relative(around.loc.x, coords.x, window.x);
    lemma_relative(around.loc.y, coords.y, window.y);
    assert(back.loc == around.loc);
    assert(back == around);
}

/// A popup is fitted by its own positioner into the area that `popup_target`
/// gives, and stays where it is without such an area. It keeps its positioner
/// either way.
pub proof fn law_unconstrained_popup_is_fitted_into_the_target<
    P,
    F: FnOnce(&P, Rectangle) -> Rectangle,
>(place: Option<PopupPlace>, target: Option<Rectangle>, fit: F)
    requires
        call_ensures(AnvilState::popup_target, (&place,), target),
    ensures
        forall|pending: &mut PopupState<P>| #[trigger]
            call_ensures(AnvilState::unconstrain_popup::<P, F>, (&place, pending, fit), ()) ==> {
                &&& final(pending).positioner == pending.positioner
                &&& target matches Some(area) ==> fit.ensures(
                    (&pending.positioner, area),
                    final(pending).geometry,
                )
                &&& target is None ==> final(pending).geometry == pending.geometry
            },
{
}

} // verus!
