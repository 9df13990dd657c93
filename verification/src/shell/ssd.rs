//! The header bar that the server draws above a window.
use vstd::prelude::*;

use super::{Serial, WindowSurface};
use crate::geometry::{Point, Rectangle, Size};

verus! {

/// The height of the header bar.
pub const HEADER_BAR_HEIGHT: i32 = 32;

/// The memory that one pixel of the header bar takes.
pub const BYTES_PER_PIXEL: i32 = 4;

/// The widest header bar whose pixels an `i32` can count in bytes.
pub const MAX_HEADER_WIDTH: u32 = 16_777_215;

/// What a button of the header bar asks for.
#[derive(Clone, Copy, Debug, PartialEq, Eq, Structural)]
pub enum HeaderAction {
    /// No button was hit.
    Nothing,
    /// The close button.
    Close,
    /// The maximize button.
    Maximize,
}

/// An event for the user interface that draws the header bar. `L` is a pointer
/// location; the button is always the left one.
#[derive(Debug)]
pub enum UiEvent<L> {
    PointerMoved(L),
    PointerExited,
    PointerPressed(L),
    PointerReleased(L),
}

/// What a click on the header bar asks of the compositor.
#[derive(Clone, Copy, Debug, PartialEq, Eq, Structural)]
pub enum HeaderRequest {
    /// Send a close event to the toplevel.
    CloseToplevel,
    /// Close the X11 window.
    CloseX11,
    /// Maximize the toplevel at once.
    MaximizeToplevel,
    /// Maximize the X11 window when the event loop is idle.
    MaximizeX11WhenIdle,
    /// Start to move the toplevel when the event loop is idle.
    MoveToplevelWhenIdle(Serial),
    /// Start to move the X11 window when the event loop is idle.
    MoveX11WhenIdle,
}

/// What has to be done to bring the picture of the header bar up to date.
#[derive(Clone, Copy, Debug, PartialEq, Eq, Structural)]
pub struct RedrawPlan {
    /// The size of the buffer and the interface to set up anew, if the present
    /// ones do not fit.
    pub resize: Option<Size>,
    /// The number of pixels to draw.
    pub pixels: usize,
}

/// The header bar of one window. `L` is a pointer location.
pub struct HeaderBar<L> {
    /// The width that was drawn last, 0 before the first time.
    pub width: u32,
    /// Where the pointer is, while it is over the header bar.
    pub pointer_loc: Option<L>,
    /// The size of the buffer that holds the picture.
    pub buffer: Option<Size>,
    /// The button that was hit last.
    pub action: HeaderAction,
}

/// The size of a header bar of the given width.
pub open spec fn header_size(width: u32) -> Size {
    Size { w: width as i32, h: HEADER_BAR_HEIGHT }
}

/// The memory that a picture of the given size takes.
pub open spec fn buffer_bytes(size: Size) -> int {
    size.w * BYTES_PER_PIXEL * size.h
}

/// The request that a button leads to.
pub open spec fn request_for(action: HeaderAction, surface: WindowSurface, serial: Serial) -> HeaderRequest {
    match (action, surface) {
        (HeaderAction::Close, WindowSurface::Wayland) => HeaderRequest::CloseToplevel,
        (HeaderAction::Close, WindowSurface::X11) => HeaderRequest::CloseX11,
        (HeaderAction::Maximize, WindowSurface::Wayland) => HeaderRequest::MaximizeToplevel,
        (HeaderAction::Maximize, WindowSurface::X11) => HeaderRequest::MaximizeX11WhenIdle,
        (HeaderAction::Nothing, WindowSurface::Wayland) => HeaderRequest::MoveToplevelWhenIdle(serial),
        (HeaderAction::Nothing, WindowSurface::X11) => HeaderRequest::MoveX11WhenIdle,
    }
}

impl<L> HeaderBar<L> {
    /// The buffer, if there is one, has the size of the header bar, and its
    /// bytes can be counted.
    pub open spec fn wf(&self) -> bool {
        match self.buffer {
            Some(size) => 0 < self.width <= MAX_HEADER_WIDTH && size == header_size(self.width),
            None => self.width == 0,
        }
    }

    /// The header bar at the start of a click.
    pub open spec fn pressed(self) -> HeaderBar<L> {
        match self.pointer_loc {
            Some(_) => HeaderBar { action: HeaderAction::Nothing, ..self },
            None => self,
        }
    }

    /// The header bar after its buttons were hit, one after the other.
    pub open spec fn triggered_all(self, actions: Seq<HeaderAction>) -> HeaderBar<L> {
        if actions.len() == 0 {
            self
        } else {
            HeaderBar { action: actions.last(), ..self }
        }
    }

    /// The header bar after it was prepared to be drawn `width` wide.
    pub open spec fn redrawn(self, width: u32) -> HeaderBar<L> {
        if width == 0 {
            self
        } else {
            HeaderBar { width: width, buffer: Some(header_size(width)), ..self }
        }
    }

    /// What has to be done to draw the header bar `width` wide.
    pub open spec fn redraw_plan(self, width: u32) -> Option<RedrawPlan> {
        if width == 0 {
            None
        } else {
            Some(
                RedrawPlan {
                    resize: if self.width != width || self.buffer is None {
                        Some(header_size(width))
                    } else {
                        None
                    },
                    pixels: (width * HEADER_BAR_HEIGHT) as usize,
                },
            )
        }
    }

    /// A header bar that was never drawn and has no pointer over it.
    pub fn new() -> (r: HeaderBar<L>)
        ensures
            r.wf(),
            r == (HeaderBar::<L> {
                width: 0,
                pointer_loc: None,
                buffer: None,
                action: HeaderAction::Nothing,
            }),
    {
        HeaderBar { width: 0, pointer_loc: None, buffer: None, action: HeaderAction::Nothing }
    }

    /// The pointer has left the header bar.
    pub fn pointer_leave(&mut self) -> (r: UiEvent<L>)
        ensures
            *final(self) == (HeaderBar { pointer_loc: None, ..*old(self) }),
            r is PointerExited,
            old(self).wf() ==> final(self).wf(),
    {
        self.pointer_loc = None;
        UiEvent::PointerExited
    }

    /// A button of the header bar was hit.
    pub fn trigger(&mut self, action: HeaderAction)
        ensures
            *final(self) == old(self).triggered_all(seq![action]),
            old(self).wf() ==> final(self).wf(),
    {
        self.action = action;
    }

    /// Ends a click: gives the request that it leads to and forgets which
    /// button was hit. Without a pointer over the header bar there is no click.
    pub fn clicked(&mut self, surface: WindowSurface, serial: Serial) -> (r: Option<HeaderRequest>)
        ensures
            *final(self) == old(self).pressed(),
            r == (match old(self).pointer_loc {
                Some(_) => Some(request_for(old(self).action, surface, serial)),
                None => None,
            }),
            old(self).wf() ==> final(self).wf(),
    {
        if self.pointer_loc.is_none() {
            return None;
        }
        let action = self.action;
        self.action = HeaderAction::Nothing;
        let request = match action {
            HeaderAction::Close => match surface {
                WindowSurface::Wayland => HeaderRequest::CloseToplevel,
                WindowSurface::X11 => HeaderRequest::CloseX11,
            },
            HeaderAction::Maximize => match surface {
                WindowSurface::Wayland => HeaderRequest::MaximizeToplevel,
                WindowSurface::X11 => HeaderRequest::MaximizeX11WhenIdle,
            },
            HeaderAction::Nothing => match surface {
                WindowSurface::Wayland => HeaderRequest::MoveToplevelWhenIdle(serial),
                WindowSurface::X11 => HeaderRequest::MoveX11WhenIdle,
            },
        };
        Some(request)
    }

    /// A finger or a pen went down on the header bar, which has no effect.
    pub fn touch_down(&mut self)
        ensures
            *final(self) == *old(self),
    {
    }

    /// A finger or a pen was lifted, which has no effect.
    pub fn touch_up(&mut self)
        ensures
            *final(self) == *old(self),
    {
    }

    /// Prepares the header bar to be drawn `width` wide. At width 0 there is
    /// nothing to draw. The buffer and the interface are set up anew if the
    /// width has changed or nothing was drawn before. The pixels to draw fill
    /// the buffer exactly.
    pub fn redraw(&mut self, width: u32) -> (r: Option<RedrawPlan>)
        requires
            old(self).wf(),
            width <= MAX_HEADER_WIDTH,
        ensures
            final(self).wf(),
            *final(self) == old(self).redrawn(width),
            r == old(self).redraw_plan(width),
            r is Some ==> r->0.pixels * BYTES_PER_PIXEL == buffer_bytes(header_size(width))
                <= i32::MAX,
    {
        if width == 0 {
            return None;
        }
        let size = Size { w: width as i32, h: HEADER_BAR_HEIGHT };
        let size_changed = self.width != width || self.buffer.is_none();
        let resize = if size_changed {
            self.width = width;
            self.buffer = Some(size);
            Some(size)
        } else {
            None
        };
        Some(RedrawPlan { resize, pixels: self.width as usize * HEADER_BAR_HEIGHT as usize })
    }

    /// The part of the buffer that changed, given whether anything was drawn:
    /// all of it or nothing.
    pub fn damage(&self, drew: bool) -> (r: Vec<Rectangle>)
        requires
            self.wf(),
        ensures
            r@ == (if drew {
                seq![Rectangle { loc: Point::origin(), size: header_size(self.width) }]
            } else {
                seq![]
            }),
    {
        let mut damage: Vec<Rectangle> = Vec::new();
        if drew {
            damage.push(
                Rectangle {
                    loc: Point { x: 0, y: 0 },
                    size: Size { w: self.width as i32, h: HEADER_BAR_HEIGHT },
                },
            );
        }
        damage
    }
}

impl<L: Copy> HeaderBar<L> {
    /// The pointer is over the header bar at `loc`.
    pub fn pointer_enter(&mut self, loc: L) -> (r: UiEvent<L>)
        ensures
            *final(self) == (HeaderBar { pointer_loc: Some(loc), ..*old(self) }),
            r == UiEvent::PointerMoved(loc),
            old(self).wf() ==> final(self).wf(),
    {
        self.pointer_loc = Some(loc);
        UiEvent::PointerMoved(loc)
    }

    /// Starts a click: forgets which button was hit before and gives the events
    /// that let the interface find the button under the pointer.
    pub fn press(&mut self) -> (r: Vec<UiEvent<L>>)
        ensures
            *final(self) == old(self).pressed(),
            r@ == (match old(self).pointer_loc {
                Some(loc) => seq![UiEvent::PointerPressed(loc), UiEvent::PointerReleased(loc)],
                None => seq![],
            }),
            old(self).wf() ==> final(self).wf(),
    {
        let mut events: Vec<UiEvent<L>> = Vec::new();
        if let Some(loc) = self.pointer_loc {
            self.action = HeaderAction::Nothing;
            events.push(UiEvent::PointerPressed(loc));
            events.push(UiEvent::PointerReleased(loc));
        }
        events
    }
}

impl<L> Default for HeaderBar<L> {
    fn default() -> (r: HeaderBar<L>)
        ensures
            r.wf(),
            r == (HeaderBar::<L> {
                width: 0,
                pointer_loc: None,
                buffer: None,
                action: HeaderAction::Nothing,
            }),
    {
        HeaderBar::new()
    }
}

/// Whether the server decorates a window, and the header bar for it.
pub struct WindowState<L> {
    /// Whether the window has the header bar.
    pub is_ssd: bool,
    pub header_bar: HeaderBar<L>,
}

impl<L> WindowState<L> {
    pub open spec fn wf(&self) -> bool {
        self.header_bar.wf()
    }

    /// The state of a window that nothing is known of yet: not decorated.
    pub open spec fn initial() -> WindowState<L> {
        WindowState {
            is_ssd: false,
            header_bar: HeaderBar {
                width: 0,
                pointer_loc: None,
                buffer: None,
                action: HeaderAction::Nothing,
            },
        }
    }

    /// The state with the pointer over the header bar at `loc`, or away from it.
    /// Without a header bar nothing changes.
    pub open spec fn pointed_at(self, loc: Option<L>) -> WindowState<L> {
        if self.is_ssd {
            WindowState { header_bar: HeaderBar { pointer_loc: loc, ..self.header_bar }, ..self }
        } else {
            self
        }
    }

    /// The state at the start of a click. Without a header bar nothing changes.
    pub open spec fn pressed(self) -> WindowState<L> {
        if self.is_ssd {
            WindowState { header_bar: self.header_bar.pressed(), ..self }
        } else {
            self
        }
    }

    /// A window that is not decorated.
    pub fn new() -> (r: WindowState<L>)
        ensures
            r.wf(),
            r == WindowState::<L>::initial(),
    {
        WindowState { is_ssd: false, header_bar: HeaderBar::new() }
    }
}

/// The pixels that `redraw` asks to draw take exactly the memory of the buffer
/// that the header bar has from then on, so that all of the buffer can be drawn
/// on and nothing beside it.
pub proof fn law_drawing_fills_the_buffer<L>(bar: HeaderBar<L>, pixels: usize)
    requires
        bar.wf(),
        bar.buffer is Some,
        pixels == bar.width * HEADER_BAR_HEIGHT,
    ensures
        pixels * BYTES_PER_PIXEL == buffer_bytes(bar.buffer->0),
        0 < buffer_bytes(bar.buffer->0) <= i32::MAX,
{
}

/// Drawing the header bar again at the same width sets up nothing anew.
pub proof fn law_second_redraw_keeps_the_buffer<L>(bar: HeaderBar<L>, width: u32)
    requires
        bar.wf(),
        0 < width <= MAX_HEADER_WIDTH,
    ensures
        bar.redrawn(width).redraw_plan(width) is Some,
        bar.redrawn(width).redraw_plan(width)->0.resize is None,
        bar.redrawn(width).redrawn(width) == bar.redrawn(width),
{
}

/// A click leads to what the last button hit during the click asks for,
/// whatever was hit before the click. If no button is hit, the window is moved.
pub proof fn law_click_follows_its_own_buttons<L>(
    bar: HeaderBar<L>,
    hits: Seq<HeaderAction>,
    surface: WindowSurface,
    serial: Serial,
)
    requires
        bar.pointer_loc is Some,
    ensures
        ({
            let during = bar.pressed().triggered_all(hits);
            let hit = if hits.len() == 0 { HeaderAction::Nothing } else { hits.last() };
            &&& during.pointer_loc == bar.pointer_loc
            &&& request_for(during.action, surface, serial) == request_for(hit, surface, serial)
            &&& during.pressed() == bar.pressed()
        }),
{
}

/// Hitting buttons one by one is the same as hitting them in one sequence.
pub proof fn law_triggers_compose<L>(bar: HeaderBar<L>, hits: Seq<HeaderAction>, hit: HeaderAction)
    ensures
        bar.triggered_all(hits).triggered_all(seq![hit]) == bar.triggered_all(hits.push(hit)),
{
}

/// A new header bar was never drawn, has no pointer over it and no button that
/// was hit, and a new window does not have it.
pub proof fn law_new_windows_are_plain<L>(
    bar: HeaderBar<L>,
    default: HeaderBar<L>,
    state: WindowState<L>,
)
    requires
        call_ensures(HeaderBar::<L>::new, (), bar),
        call_ensures(HeaderBar::<L>::default, (), default),
        call_ensures(WindowState::<L>::new, (), state),
    ensures
        bar.width == 0,
        bar.pointer_loc is None,
        bar.buffer is None,
        bar.action == HeaderAction::Nothing,
        default == bar,
        state.header_bar == bar,
        !state.is_ssd,
{
}

/// The pointer is where it entered until it leaves. The interface is told of
/// both, and nothing else of the header bar changes.
pub proof fn law_pointer_is_where_it_entered<L: Copy>(loc: L)
    ensures
        forall|bar: &mut HeaderBar<L>, event: UiEvent<L>| #[trigger]
            call_ensures(HeaderBar::<L>::pointer_enter, (bar, loc), event) ==> {
                &&& final(bar).pointer_loc == Some(loc)
                &&& final(bar).width == bar.width
                &&& final(bar).buffer == bar.buffer
                &&& final(bar).action == bar.action
                &&& event == UiEvent::PointerMoved(loc)
            },
        forall|bar: &mut HeaderBar<L>, event: UiEvent<L>| #[trigger]
            call_ensures(HeaderBar::<L>::pointer_leave, (bar,), event) ==> {
                &&& final(bar).pointer_loc is None
                &&& final(bar).width == bar.width
                &&& final(bar).buffer == bar.buffer
                &&& final(bar).action == bar.action
                &&& event is PointerExited
            },
{
}

/// A button that was hit is noted, and nothing else changes. Fingers and pens
/// that go down or up change nothing.
pub proof fn law_only_buttons_are_noted<L>(action: HeaderAction)
    ensures
        forall|bar: &mut HeaderBar<L>| #[trigger]
            call_ensures(HeaderBar::<L>::trigger, (bar, action), ()) ==> {
                &&& final(bar).action == action
                &&& final(bar).pointer_loc == bar.pointer_loc
                &&& final(bar).width == bar.width
                &&& final(bar).buffer == bar.buffer
            },
        forall|bar: &mut HeaderBar<L>| #[trigger]
            call_ensures(HeaderBar::<L>::touch_down, (bar,), ()) ==> *final(bar) == *bar,
        forall|bar: &mut HeaderBar<L>| #[trigger]
            call_ensures(HeaderBar::<L>::touch_up, (bar,), ()) ==> *final(bar) == *bar,
{
}

/// A click starts with a press and a release where the pointer is, and with no
/// button hit. Without a pointer over the header bar nothing happens.
pub proof fn law_press_is_where_the_pointer_is<L: Copy>()
    ensures
        forall|bar: &mut HeaderBar<L>, events: Vec<UiEvent<L>>| #[trigger]
            call_ensures(HeaderBar::<L>::press, (bar,), events) ==> {
                &&& final(bar).pointer_loc == bar.pointer_loc
                &&& final(bar).width == bar.width
                &&& final(bar).buffer == bar.buffer
                &&& match bar.pointer_loc {
                    Some(loc) => {
                        &&& final(bar).action == HeaderAction::Nothing
                        &&& events@.len() == 2
                        &&& events@[0] == UiEvent::PointerPressed(loc)
                        &&& events@[1] == UiEvent::PointerReleased(loc)
                    },
                    None => final(bar).action == bar.action && events@.len() == 0,
                }
            },
{
}

/// Each request comes of one button and one kind of window: a button closes or
/// maximizes the window, a click beside the buttons moves it, and the request is
/// for the kind of window that the header bar belongs to. Every click with the
/// pointer over the header bar leads to a request, a move carries the serial of
/// the click, and the button is forgotten.
pub proof fn law_click_asks_for_its_button<L>(surface: WindowSurface, serial: Serial)
    ensures
        forall|bar: &mut HeaderBar<L>, r: Option<HeaderRequest>| #[trigger]
            call_ensures(HeaderBar::<L>::clicked, (bar, surface, serial), r) ==> {
                let wayland = surface == WindowSurface::Wayland;
                let hit = bar.action;
                &&& r is Some <==> bar.pointer_loc is Some
                &&& r matches Some(request) ==> match request {
                    HeaderRequest::CloseToplevel => wayland && hit == HeaderAction::Close,
                    HeaderRequest::CloseX11 => !wayland && hit == HeaderAction::Close,
                    HeaderRequest::MaximizeToplevel => wayland && hit == HeaderAction::Maximize,
                    HeaderRequest::MaximizeX11WhenIdle => !wayland && hit
                        == HeaderAction::Maximize,
                    HeaderRequest::MoveToplevelWhenIdle(with) => wayland && hit
                        == HeaderAction::Nothing && with == serial,
                    HeaderRequest::MoveX11WhenIdle => !wayland && hit == HeaderAction::Nothing,
                }
                &&& final(bar).action == if r is Some { HeaderAction::Nothing } else { hit }
                &&& final(bar).pointer_loc == bar.pointer_loc
                &&& final(bar).width == bar.width
                &&& final(bar).buffer == bar.buffer
            },
{
}

/// A header bar is drawn at the width that was asked for: its buffer has that
/// width and the height of the header bar, and each of its pixels is drawn. The
/// buffer is set up anew if and only if there was none or it had another width.
/// At width 0 nothing is drawn and nothing changes. The pointer and the button
/// stay as they were.
pub proof fn law_redraw_is_as_wide_as_asked<L>(width: u32)
    requires
        width <= MAX_HEADER_WIDTH,
    ensures
        forall|bar: &mut HeaderBar<L>, r: Option<RedrawPlan>| #[trigger]
            call_ensures(HeaderBar::<L>::redraw, (bar, width), r) ==> {
                &&& final(bar).pointer_loc == bar.pointer_loc
                &&& final(bar).action == bar.action
                &&& width == 0 ==> {
                    &&& r is None
                    &&& final(bar).width == bar.width
                    &&& final(bar).buffer == bar.buffer
                }
                &&& width > 0 ==> {
                    &&& final(bar).width == width
                    &&& final(bar).buffer matches Some(size)
                    &&& size.w == width
                    &&& size.h == HEADER_BAR_HEIGHT
                    &&& r matches Some(plan)
                    &&& plan.pixels == size.w * size.h
                    &&& plan.resize == if bar.buffer is None || bar.width != width {
                        Some(size)
                    } else {
                        None
                    }
                }
            },
{
}

/// What changed is the whole header bar if anything was drawn, and nothing
/// otherwise.
pub proof fn law_damage_is_all_or_nothing<L>(bar: HeaderBar<L>, drew: bool, damage: Vec<Rectangle>)
    requires
        bar.wf(),
        call_ensures(HeaderBar::<L>::damage, (&bar, drew), damage),
    ensures
        damage@.len() == if drew { 1nat } else { 0nat },
        drew ==> {
            &&& damage@[0].loc.x == 0
            &&& damage@[0].loc.y == 0
            &&& damage@[0].size.w == bar.width
            &&& damage@[0].size.h == HEADER_BAR_HEIGHT
        },
{
}

} // verus!
