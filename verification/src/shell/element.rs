//! Windows, with or without the header bar above them.
use vstd::prelude::*;

use super::ssd::{
    request_for, HeaderAction, HeaderRequest, RedrawPlan, UiEvent, WindowState, HEADER_BAR_HEIGHT,
    MAX_HEADER_WIDTH,
};
use super::{Serial, WindowSurface};
use crate::geometry::{Point, Rectangle, Size};
use crate::plugins::{clamp_length, clamped, WSize, WindowId, WindowInfo};

verus! {

/// The numbers that windows are given, one after the other.
pub struct WindowIds {
    next: u64,
}

impl WindowIds {
    /// The number that the next window gets.
    pub closed spec fn next(&self) -> WindowId {
        self.next
    }

    /// The number of the first window is 1.
    pub fn new() -> (r: WindowIds)
        ensures
            r.next() == nth_id(0),
    {
        WindowIds { next: 1 }
    }

    /// Takes the next number.
    pub fn allocate(&mut self) -> (r: WindowId)
        ensures
            r == old(self).next(),
            final(self).next() == id_after(r),
    {
        let id: u64 = self.next;
        self.next = id.wrapping_add(1);
        id
    }
}

/// The number after `id`. After the last one they start over at 0.
pub open spec fn id_after(id: WindowId) -> WindowId {
    if id == u64::MAX {
        0
    } else {
        (id + 1) as u64
    }
}

/// The number that is taken after `n` others.
pub open spec fn nth_id(n: nat) -> WindowId
    decreases n,
{
    if n == 0 {
        1
    } else {
        id_after(nth_id((n - 1) as nat))
    }
}

/// Names that a client gave its toplevel.
pub struct ToplevelNames {
    pub title: Option<String>,
    pub app_id: Option<String>,
}

/// What the surface of a window tells of it.
pub struct SurfaceData {
    /// The names, if the surface has the toplevel role.
    pub names: Option<ToplevelNames>,
    /// The smallest size that the client wants.
    pub min_size: Size,
    /// The largest size that the client wants.
    pub max_size: Size,
}

/// States that a toplevel is to have after the next configure.
#[derive(Clone, Copy, Debug, PartialEq, Eq, Structural)]
pub struct ToplevelFlags {
    pub maximized: bool,
    pub fullscreen: bool,
}

/// What the pointer is over. `S` is a surface.
#[derive(Debug)]
pub enum PointerFocusTarget<S> {
    /// The header bar of the window.
    SSD,
    /// A surface of the client.
    WlSurface(S),
    /// The X11 window.
    X11Surface,
}

/// A part of the picture of a window: `D` is a picture of the header bar, `W`
/// is one of the client's.
#[derive(Debug)]
pub enum WindowRenderElement<D, W> {
    Window(W),
    Decoration(D),
}

/// What has to be done before the parts of a window can be drawn.
#[derive(Clone, Copy, Debug, PartialEq, Eq, Structural)]
pub enum RenderPlan {
    /// There is no header bar to draw.
    Content,
    /// The header bar has to be brought up to date, unless it has no width.
    HeaderAndContent(Option<RedrawPlan>),
}

/// A window. `L` is a pointer location.
pub struct WindowElement<L> {
    /// What the window is made of.
    pub surface: WindowSurface,
    /// The number of the window, once it was asked for.
    pub id: Option<WindowId>,
    /// The decoration, once it was asked for.
    pub decoration: Option<WindowState<L>>,
}

/// The limit that a client sets to its size. A size of which nothing is
/// positive sets none.
pub open spec fn size_limit(size: Size) -> Option<WSize> {
    if size.w > 0 || size.h > 0 {
        Some(WSize { width: clamped(size.w), height: clamped(size.h) })
    } else {
        None
    }
}

fn limit_of(size: Size) -> (r: Option<WSize>)
    ensures
        r == size_limit(size),
{
    if size.w > 0 || size.h > 0 {
        Some(WSize { width: clamp_length(size.w), height: clamp_length(size.h) })
    } else {
        None
    }
}

/// The text, or no text if there is none.
pub open spec fn text_or_empty(text: Option<String>) -> Seq<char> {
    match text {
        Some(text) => text@,
        None => seq![],
    }
}

fn or_empty(text: Option<String>) -> (r: String)
    ensures
        r@ == text_or_empty(text),
{
    match text {
        Some(text) => text,
        None => String::new(),
    }
}

/// `rect` with room for the header bar added to its height.
pub open spec fn with_header(decorated: bool, rect: Rectangle) -> Rectangle {
    if decorated {
        Rectangle {
            size: Size { h: (rect.size.h + HEADER_BAR_HEIGHT) as i32, ..rect.size },
            ..rect
        }
    } else {
        rect
    }
}

/// How far the client's part of the window is below its top left corner.
pub open spec fn content_offset(decorated: bool) -> Point {
    if decorated {
        Point { x: 0, y: HEADER_BAR_HEIGHT }
    } else {
        Point::origin()
    }
}

/// Whether a row of the window belongs to the header bar.
pub open spec fn in_header(decorated: bool, row: i64) -> bool {
    decorated && row < HEADER_BAR_HEIGHT
}

/// What is under the pointer, given what the client's part has there.
pub open spec fn found_under<S>(
    decorated: bool,
    surface: WindowSurface,
    row: i64,
    inner: Option<(S, Point)>,
) -> Option<(PointerFocusTarget<S>, Point)> {
    if in_header(decorated, row) {
        Some((PointerFocusTarget::SSD, Point::origin()))
    } else {
        match inner {
            Some((found, loc)) => Some(
                (
                    match surface {
                        WindowSurface::Wayland => PointerFocusTarget::WlSurface(found),
                        WindowSurface::X11 => PointerFocusTarget::X11Surface,
                    },
                    loc.plus(content_offset(decorated)),
                ),
            ),
            None => None,
        }
    }
}

/// What the client shows of a window.
pub open spec fn window_parts<D, W>(content: Seq<W>) -> Seq<WindowRenderElement<D, W>> {
    content.map_values(|part: W| WindowRenderElement::<D, W>::Window(part))
}

/// The parts of a window from front to back: the header bar, then what the
/// client shows.
pub open spec fn stacked<D, W>(decoration: Option<D>, content: Seq<W>) -> Seq<
    WindowRenderElement<D, W>,
> {
    match decoration {
        Some(decoration) => seq![WindowRenderElement::<D, W>::Decoration(decoration)]
            + window_parts::<D, W>(content),
        None => window_parts::<D, W>(content),
    }
}

impl<L> WindowElement<L> {
    pub open spec fn wf(&self) -> bool {
        self.decoration matches Some(state) ==> state.wf()
    }

    /// Whether the window has the header bar.
    pub open spec fn decorated(&self) -> bool {
        self.decoration matches Some(state) && state.is_ssd
    }

    /// The decoration, or that of a new window if it was not asked for yet.
    pub open spec fn state(&self) -> WindowState<L> {
        match self.decoration {
            Some(state) => state,
            None => WindowState::initial(),
        }
    }

    /// The number of the window, if `next` is the next number to take.
    pub open spec fn id_from(self, next: WindowId) -> WindowId {
        match self.id {
            Some(id) => id,
            None => next,
        }
    }

    /// The window once it has a number.
    pub open spec fn numbered(self, next: WindowId) -> WindowElement<L> {
        WindowElement { id: Some(self.id_from(next)), ..self }
    }

    /// The next number to take once the window has one.
    pub open spec fn next_after(self, next: WindowId) -> WindowId {
        match self.id {
            Some(_) => next,
            None => id_after(next),
        }
    }

    /// A window that has no number and no decoration yet.
    pub fn new(surface: WindowSurface) -> (r: WindowElement<L>)
        ensures
            r.wf(),
            r == (WindowElement::<L> { surface: surface, id: None, decoration: None }),
    {
        WindowElement { surface, id: None, decoration: None }
    }

    /// Gives the number of the window. It takes the next number the first time
    /// and keeps it.
    pub fn id(&mut self, ids: &mut WindowIds) -> (r: WindowId)
        ensures
            r == old(self).id_from(old(ids).next()),
            *final(self) == old(self).numbered(old(ids).next()),
            final(ids).next() == old(self).next_after(old(ids).next()),
            old(self).wf() ==> final(self).wf(),
    {
        match self.id {
            Some(id) => id,
            None => {
                let id: u64 = ids.allocate();
                self.id = Some(id);
                id
            },
        }
    }

    /// Describes the window to a plugin, given what its surface tells, if it
    /// has one, and the states of its toplevel, if it is one.
    pub fn to_info(
        &mut self,
        ids: &mut WindowIds,
        surface: Option<SurfaceData>,
        toplevel: Option<ToplevelFlags>,
    ) -> (r: WindowInfo)
        ensures
            r.id == old(self).id_from(old(ids).next()),
            *final(self) == old(self).numbered(old(ids).next()),
            final(ids).next() == old(self).next_after(old(ids).next()),
            r.title@ == (match surface {
                Some(SurfaceData { names: Some(names), .. }) => text_or_empty(names.title),
                _ => seq![],
            }),
            r.app_id@ == (match surface {
                Some(SurfaceData { names: Some(names), .. }) => text_or_empty(names.app_id),
                _ => seq![],
            }),
            r.min_size == (match surface {
                Some(data) => size_limit(data.min_size),
                None => None,
            }),
            r.max_size == (match surface {
                Some(data) => size_limit(data.max_size),
                None => None,
            }),
            r.is_maximized == (toplevel is Some && toplevel->0.maximized),
            r.is_fullscreen == (toplevel is Some && toplevel->0.fullscreen),
            old(self).wf() ==> final(self).wf(),
    {
        let id: u64 = self.id(ids);
        let mut title = String::new();
        let mut app_id = String::new();
        let mut min_size = None;
        let mut max_size = None;
        let mut is_maximized = false;
        let mut is_fullscreen = false;
        if let Some(data) = surface {
            if let Some(names) = data.names {
                title = or_empty(names.title);
                app_id = or_empty(names.app_id);
            }
            min_size = limit_of(data.min_size);
            max_size = limit_of(data.max_size);
        }
        if let Some(flags) = toplevel {
            is_maximized = flags.maximized;
            is_fullscreen = flags.fullscreen;
        }
        WindowInfo { id, title, app_id, min_size, max_size, is_maximized, is_fullscreen }
    }

    /// Gives the decoration of the window. A window that has none yet gets the
    /// one of a new window.
    pub fn decoration_state(&mut self) -> (r: &mut WindowState<L>)
        ensures
            *r == old(self).state(),
            *final(self) == (WindowElement { decoration: Some(*final(r)), ..*old(self) }),
    {
        if self.decoration.is_none() {
            self.decoration = Some(WindowState::new());
        }
        self.decoration.as_mut().unwrap()
    }

    /// Sets whether the window has the header bar.
    pub fn set_ssd(&mut self, ssd: bool)
        ensures
            *final(self) == (WindowElement {
                decoration: Some(WindowState { is_ssd: ssd, ..old(self).state() }),
                ..*old(self)
            }),
            final(self).decorated() == ssd,
            old(self).wf() ==> final(self).wf(),
    {
        self.decoration_state().is_ssd = ssd;
    }

    /// Whether the window has the header bar.
    pub fn is_ssd(&self) -> (r: bool)
        ensures
            r == self.decorated(),
    {
        match &self.decoration {
            Some(state) => state.is_ssd,
            None => false,
        }
    }

    /// Whether an X11 client made the window.
    pub fn is_x11(&self) -> (r: bool)
        ensures
            r == (self.surface is X11),
    {
        match self.surface {
            WindowSurface::X11 => true,
            WindowSurface::Wayland => false,
        }
    }

    /// Whether a Wayland client made the window.
    pub fn is_wayland(&self) -> (r: bool)
        ensures
            r == (self.surface is Wayland),
    {
        match self.surface {
            WindowSurface::X11 => false,
            WindowSurface::Wayland => true,
        }
    }

    /// How far the client's part of the window is below its top left corner.
    pub fn header_offset(&self) -> (r: Point)
        ensures
            r == content_offset(self.decorated()),
    {
        if self.is_ssd() {
            Point { x: 0, y: HEADER_BAR_HEIGHT }
        } else {
            Point { x: 0, y: 0 }
        }
    }

    /// Finds what is under the pointer, and where it lies in the window. `row`
    /// is the pointer's row in the window, rounded down, and `inner` is what
    /// the client's part has under the pointer, where it lies in that part.
    pub fn surface_under<S>(&self, row: i64, inner: Option<(S, Point)>) -> (r: Option<
        (PointerFocusTarget<S>, Point),
    >)
        ensures
            r == found_under(self.decorated(), self.surface, row, inner),
    {
        if self.is_ssd() && row < HEADER_BAR_HEIGHT as i64 {
            return Some((PointerFocusTarget::SSD, Point { x: 0, y: 0 }));
        }
        match inner {
            Some((found, loc)) => {
                let under = match self.surface {
                    WindowSurface::Wayland => PointerFocusTarget::WlSurface(found),
                    WindowSurface::X11 => PointerFocusTarget::X11Surface,
                };
                Some((under, loc.translate(self.header_offset())))
            },
            None => None,
        }
    }

    /// Whether the window takes input at a point. `row` is the point's row in
    /// the window, rounded down, and `inner` says whether the client's part
    /// takes input there.
    pub fn is_in_input_region(&self, row: i64, inner: bool) -> (r: bool)
        ensures
            r == (in_header(self.decorated(), row) || inner),
    {
        (self.is_ssd() && row < HEADER_BAR_HEIGHT as i64) || inner
    }

    /// The geometry of the window, given that of the client's part.
    pub fn geometry(&self, inner: Rectangle) -> (r: Rectangle)
        requires
            self.decorated() ==> inner.size.h + HEADER_BAR_HEIGHT <= i32::MAX,
        ensures
            r == with_header(self.decorated(), inner),
    {
        let mut geo = inner;
        if self.is_ssd() {
            geo.size.h = geo.size.h + HEADER_BAR_HEIGHT;
        }
        geo
    }

    /// The bounding box of the window, given that of the client's part.
    pub fn bbox(&self, inner: Rectangle) -> (r: Rectangle)
        requires
            self.decorated() ==> inner.size.h + HEADER_BAR_HEIGHT <= i32::MAX,
        ensures
            r == with_header(self.decorated(), inner),
    {
        let mut bbox = inner;
        if self.is_ssd() {
            bbox.size.h = bbox.size.h + HEADER_BAR_HEIGHT;
        }
        bbox
    }

    /// Whether the header bar is drawn, given the bounding box of the client's
    /// part: not above a window that shows nothing.
    pub open spec fn draws_header(&self, bbox: Rectangle) -> bool {
        self.decorated() && bbox.size.w != 0 && bbox.size.h != 0
    }

    fn shows_header(&self, bbox: Rectangle) -> (r: bool)
        ensures
            r == self.draws_header(bbox),
    {
        self.is_ssd() && !bbox.is_empty()
    }

    /// Prepares the window to be drawn, given the bounding box and the geometry
    /// of the client's part. The header bar gets as wide as that part.
    pub fn prepare_render(&mut self, bbox: Rectangle, geometry: Rectangle) -> (r: RenderPlan)
        requires
            old(self).wf(),
            old(self).draws_header(bbox) ==> 0 <= geometry.size.w <= MAX_HEADER_WIDTH,
        ensures
            final(self).wf(),
            if old(self).draws_header(bbox) {
                let state = old(self).state();
                let width = geometry.size.w as u32;
                &&& r == RenderPlan::HeaderAndContent(state.header_bar.redraw_plan(width))
                &&& *final(self) == (WindowElement {
                    decoration: Some(
                        WindowState { header_bar: state.header_bar.redrawn(width), ..state },
                    ),
                    ..*old(self)
                })
            } else {
                r is Content && *final(self) == *old(self)
            },
    {
        if self.shows_header(bbox) {
            let width: u32 = geometry.size.w as u32;
            let state = self.decoration_state();
            let plan = state.header_bar.redraw(width);
            RenderPlan::HeaderAndContent(plan)
        } else {
            RenderPlan::Content
        }
    }

    /// Where the client's part is drawn, given where the window is drawn and
    /// the height of the header bar on the output.
    pub fn content_location(&self, bbox: Rectangle, location: Point, header_height: i32) -> (r:
        Point)
        requires
            self.draws_header(bbox) ==> i32::MIN <= location.y + header_height <= i32::MAX,
        ensures
            r == (if self.draws_header(bbox) {
                Point { y: (location.y + header_height) as i32, ..location }
            } else {
                location
            }),
    {
        if self.shows_header(bbox) {
            Point { x: location.x, y: location.y + header_height }
        } else {
            location
        }
    }

    /// Puts the parts of the window on top of each other. `decoration` is the
    /// picture of the header bar, if there is one.
    pub fn render_elements<D, W>(
        &self,
        bbox: Rectangle,
        decoration: Option<D>,
        content: Vec<W>,
    ) -> (r: Vec<WindowRenderElement<D, W>>)
        ensures
            r@ == (if self.draws_header(bbox) {
                stacked(decoration, content@)
            } else {
                stacked(None::<D>, content@)
            }),
    {
        let mut elements: Vec<WindowRenderElement<D, W>> = Vec::new();
        if self.shows_header(bbox) {
            if let Some(decoration) = decoration {
                elements.push(WindowRenderElement::Decoration(decoration));
            }
        }
        let ghost above = elements@;
        for part in parts: content
            invariant
                parts.seq() == content@,
                elements@ == above + window_parts::<D, W>(content@.take(parts.index() as int)),
        {
            elements.push(WindowRenderElement::Window(part));
            assert(elements@ =~= above + window_parts::<D, W>(content@.take(parts.index() + 1)));
        }
        elements
    }
}

/// The header bar as a target of input. Each function takes the decoration of
/// the window that the input is for and gives the events for the interface of
/// its header bar. A window without the header bar takes no such input.
pub struct SSD;

impl SSD {
    /// The pointer has entered the header bar.
    pub fn enter<L: Copy>(state: &mut WindowState<L>, loc: L) -> (r: Option<UiEvent<L>>)
        ensures
            *final(state) == old(state).pointed_at(Some(loc)),
            r == (if old(state).is_ssd {
                Some(UiEvent::PointerMoved(loc))
            } else {
                None
            }),
            old(state).wf() ==> final(state).wf(),
    {
        if state.is_ssd {
            Some(state.header_bar.pointer_enter(loc))
        } else {
            None
        }
    }

    /// The pointer has moved on the header bar.
    pub fn motion<L: Copy>(state: &mut WindowState<L>, loc: L) -> (r: Option<UiEvent<L>>)
        ensures
            *final(state) == old(state).pointed_at(Some(loc)),
            r == (if old(state).is_ssd {
                Some(UiEvent::PointerMoved(loc))
            } else {
                None
            }),
            old(state).wf() ==> final(state).wf(),
    {
        if state.is_ssd {
            Some(state.header_bar.pointer_enter(loc))
        } else {
            None
        }
    }

    /// A button of the pointer was pressed or released, which starts a click.
    pub fn button<L: Copy>(state: &mut WindowState<L>) -> (r: Vec<UiEvent<L>>)
        ensures
            *final(state) == old(state).pressed(),
            r@ == (match (old(state).is_ssd, old(state).header_bar.pointer_loc) {
                (true, Some(loc)) => seq![
                    UiEvent::PointerPressed(loc),
                    UiEvent::PointerReleased(loc),
                ],
                _ => seq![],
            }),
            old(state).wf() ==> final(state).wf(),
    {
        if state.is_ssd {
            state.header_bar.press()
        } else {
            Vec::new()
        }
    }

    /// The pointer has left the header bar.
    pub fn leave<L>(state: &mut WindowState<L>) -> (r: Option<UiEvent<L>>)
        ensures
            *final(state) == old(state).pointed_at(None),
            r == (if old(state).is_ssd {
                Some(UiEvent::<L>::PointerExited)
            } else {
                None
            }),
            old(state).wf() ==> final(state).wf(),
    {
        if state.is_ssd {
            Some(state.header_bar.pointer_leave())
        } else {
            None
        }
    }

    /// A finger went down: the header bar takes it for the pointer.
    pub fn touch_down<L: Copy>(state: &mut WindowState<L>, loc: L) -> (r: Option<UiEvent<L>>)
        ensures
            *final(state) == old(state).pointed_at(Some(loc)),
            r == (if old(state).is_ssd {
                Some(UiEvent::PointerMoved(loc))
            } else {
                None
            }),
            old(state).wf() ==> final(state).wf(),
    {
        if state.is_ssd {
            let event = state.header_bar.pointer_enter(loc);
            state.header_bar.touch_down();
            Some(event)
        } else {
            None
        }
    }

    /// A finger was lifted.
    pub fn touch_up<L>(state: &mut WindowState<L>)
        ensures
            *final(state) == *old(state),
    {
        if state.is_ssd {
            state.header_bar.touch_up();
        }
    }

    /// A finger has moved on the header bar.
    pub fn touch_motion<L: Copy>(state: &mut WindowState<L>, loc: L) -> (r: Option<UiEvent<L>>)
        ensures
            *final(state) == old(state).pointed_at(Some(loc)),
            r == (if old(state).is_ssd {
                Some(UiEvent::PointerMoved(loc))
            } else {
                None
            }),
            old(state).wf() ==> final(state).wf(),
    {
        if state.is_ssd {
            Some(state.header_bar.pointer_enter(loc))
        } else {
            None
        }
    }

    /// A pen was taken away from the tablet.
    pub fn tablet_proximity_out<L>(state: &mut WindowState<L>) -> (r: Option<UiEvent<L>>)
        ensures
            *final(state) == old(state).pointed_at(None),
            r == (if old(state).is_ssd {
                Some(UiEvent::<L>::PointerExited)
            } else {
                None
            }),
            old(state).wf() ==> final(state).wf(),
    {
        if state.is_ssd {
            Some(state.header_bar.pointer_leave())
        } else {
            None
        }
    }

    /// A pen was put down.
    pub fn tablet_down<L>(state: &mut WindowState<L>)
        ensures
            *final(state) == *old(state),
    {
        if state.is_ssd {
            state.header_bar.touch_down();
        }
    }

    /// A pen was lifted.
    pub fn tablet_up<L>(state: &mut WindowState<L>)
        ensures
            *final(state) == *old(state),
    {
        if state.is_ssd {
            state.header_bar.touch_up();
        }
    }

    /// A pen has moved on the header bar.
    pub fn tablet_motion<L: Copy>(state: &mut WindowState<L>, loc: L) -> (r: Option<UiEvent<L>>)
        ensures
            *final(state) == old(state).pointed_at(Some(loc)),
            r == (if old(state).is_ssd {
                Some(UiEvent::PointerMoved(loc))
            } else {
                None
            }),
            old(state).wf() ==> final(state).wf(),
    {
        if state.is_ssd {
            Some(state.header_bar.pointer_enter(loc))
        } else {
            None
        }
    }

    /// A button of a pen was pressed or released, which starts a click.
    pub fn tablet_button<L: Copy>(state: &mut WindowState<L>) -> (r: Vec<UiEvent<L>>)
        ensures
            *final(state) == old(state).pressed(),
            r@ == (match (old(state).is_ssd, old(state).header_bar.pointer_loc) {
                (true, Some(loc)) => seq![
                    UiEvent::PointerPressed(loc),
                    UiEvent::PointerReleased(loc),
                ],
                _ => seq![],
            }),
            old(state).wf() ==> final(state).wf(),
    {
        if state.is_ssd {
            state.header_bar.press()
        } else {
            Vec::new()
        }
    }

    /// Ends the click that `button` or `tablet_button` has started: gives the
    /// request that it leads to. A window without the header bar takes none.
    pub fn clicked<L>(state: &mut WindowState<L>, surface: WindowSurface, serial: Serial) -> (r:
        Option<HeaderRequest>)
        ensures
            *final(state) == old(state).pressed(),
            r == (match (old(state).is_ssd, old(state).header_bar.pointer_loc) {
                (true, Some(_)) => Some(
                    request_for(old(state).header_bar.action, surface, serial),
                ),
                _ => None,
            }),
            old(state).wf() ==> final(state).wf(),
    {
        if state.is_ssd {
            state.header_bar.clicked(surface, serial)
        } else {
            None
        }
    }
}

/// A window that was given a number keeps it, whatever number is next.
pub proof fn law_window_keeps_its_id<L>(window: WindowElement<L>, next: WindowId, later: WindowId)
    ensures
        window.numbered(next).id_from(later) == window.id_from(next),
        window.numbered(next).numbered(later) == window.numbered(next),
{
}

/// No two of the first 2^64 windows have the same number.
pub proof fn law_window_ids_differ(m: nat, n: nat)
    requires
        m < n,
        n - m <= u64::MAX,
    ensures
        nth_id(m) != nth_id(n),
{
    lemma_nth_id(m);
    lemma_nth_id(n);
    let k = 0x1_0000_0000_0000_0000int;
    if nth_id(m) == nth_id(n) {
        vstd::arithmetic::div_mod::lemma_mod_equivalence(n as int + 1, m as int + 1, k);
        vstd::arithmetic::div_mod::lemma_small_mod((n - m) as nat, k as nat);
    }
}

proof fn lemma_nth_id(n: nat)
    ensures
        nth_id(n) == (n + 1) % 0x1_0000_0000_0000_0000,
    decreases n,
{
    if n > 0 {
        lemma_nth_id((n - 1) as nat);
    }
}

/// Where the header bar is, the window takes input, and what is under the
/// pointer is the header bar, whatever the client's part has there.
pub proof fn law_header_takes_input<S>(
    surface: WindowSurface,
    row: i64,
    inner: Option<(S, Point)>,
    inner_region: bool,
)
    requires
        row < HEADER_BAR_HEIGHT,
    ensures
        in_header(true, row) || inner_region,
        found_under(true, surface, row, inner) == Some(
            (PointerFocusTarget::<S>::SSD, Point::origin()),
        ),
{
}

/// A point of a surface keeps its place in the surface, whether or not the
/// window has the header bar: the point's distance from where the surface lies
/// in the window is its distance, taken in the client's part, from where the
/// surface lies there.
pub proof fn law_surface_coordinates_ignore_header<S>(
    decorated: bool,
    surface: WindowSurface,
    row: i64,
    found: S,
    loc: Point,
)
    requires
        !in_header(decorated, row),
        loc.y + HEADER_BAR_HEIGHT <= i32::MAX,
    ensures
        ({
            let offset = content_offset(decorated);
            let under = found_under(decorated, surface, row, Some((found, loc)));
            &&& under is Some
            &&& row - (under->0).1.y == (row - offset.y) - loc.y
            &&& (under->0).1.x == loc.x
        }),
{
}

/// The header bar adds its height to a window, and nothing else: the client's
/// part keeps its place and width, and without the header bar the window is as
/// large as that part.
pub proof fn law_header_adds_its_height(rect: Rectangle)
    requires
        rect.size.h + HEADER_BAR_HEIGHT <= i32::MAX,
    ensures
        with_header(false, rect) == rect,
        with_header(true, rect).loc == rect.loc,
        with_header(true, rect).size.w == rect.size.w,
        with_header(true, rect).size.h == rect.size.h + content_offset(true).y,
{
}

/// The numbers of windows start at 1 and go up by one. Only after the last one
/// do they start over at 0.
pub proof fn law_ids_go_up_by_one(fresh: WindowIds)
    requires
        call_ensures(WindowIds::new, (), fresh),
    ensures
        fresh.next() == 1,
        forall|ids: &mut WindowIds, id: WindowId| #[trigger]
            call_ensures(WindowIds::allocate, (ids,), id) ==> {
                &&& id == ids.next()
                &&& id < u64::MAX ==> final(ids).next() == id + 1
                &&& id == u64::MAX ==> final(ids).next() == 0
            },
{
}

/// A window takes a number only if it has none, and then the next one. Nothing
/// else of the window changes.
pub proof fn law_window_takes_one_id<L>()
    ensures
        forall|window: &mut WindowElement<L>, ids: &mut WindowIds, id: WindowId| #[trigger]
            call_ensures(WindowElement::<L>::id, (window, ids), id) ==> {
                &&& final(window).id == Some(id)
                &&& final(window).surface == window.surface
                &&& final(window).decoration == window.decoration
                &&& window.id matches Some(has) ==> id == has && final(ids).next() == ids.next()
                &&& window.id is None ==> {
                    &&& id == ids.next()
                    &&& id < u64::MAX ==> final(ids).next() == id + 1
                    &&& id == u64::MAX ==> final(ids).next() == 0
                }
            },
{
}

/// Whether `told` is what plugins are told of a limit to a window's size: none
/// unless one of the lengths is positive, and no length below 0.
pub open spec fn tells_limit(size: Size, told: Option<WSize>) -> bool {
    &&& told is None <==> size.w <= 0 && size.h <= 0
    &&& told matches Some(limit) ==> {
        &&& size.w >= 0 ==> limit.width == size.w
        &&& size.w < 0 ==> limit.width == 0
        &&& size.h >= 0 ==> limit.height == size.h
        &&& size.h < 0 ==> limit.height == 0
    }
}

/// A plugin is told the number of the window, the names and the limits that its
/// client gave, and the states of its toplevel. What is not known is told as no
/// text, no limit and no state.
pub proof fn law_info_tells_what_is_known<L>(
    surface: Option<SurfaceData>,
    toplevel: Option<ToplevelFlags>,
)
    ensures
        forall|window: &mut WindowElement<L>, ids: &mut WindowIds, r: WindowInfo| #[trigger]
            call_ensures(WindowElement::<L>::to_info, (window, ids, surface, toplevel), r) ==> {
                &&& final(window).id == Some(r.id)
                &&& final(window).surface == window.surface
                &&& final(window).decoration == window.decoration
                &&& window.id matches Some(has) ==> r.id == has && final(ids).next()
                    == ids.next()
                &&& window.id is None ==> {
                    &&& r.id == ids.next()
                    &&& r.id < u64::MAX ==> final(ids).next() == r.id + 1
                    &&& r.id == u64::MAX ==> final(ids).next() == 0
                }
                &&& match surface {
                    Some(data) => {
                        &&& tells_limit(data.min_size, r.min_size)
                        &&& tells_limit(data.max_size, r.max_size)
                        &&& match data.names {
                            Some(names) => {
                                &&& names.title matches Some(title) ==> r.title@ == title@
                                &&& names.title is None ==> r.title@.len() == 0
                                &&& names.app_id matches Some(app_id) ==> r.app_id@ == app_id@
                                &&& names.app_id is None ==> r.app_id@.len() == 0
                            },
                            None => r.title@.len() == 0 && r.app_id@.len() == 0,
                        }
                    },
                    None => {
                        &&& r.min_size is None
                        &&& r.max_size is None
                        &&& r.title@.len() == 0
                        &&& r.app_id@.len() == 0
                    },
                }
                &&& match toplevel {
                    Some(flags) => r.is_maximized == flags.maximized && r.is_fullscreen
                        == flags.fullscreen,
                    None => !r.is_maximized && !r.is_fullscreen,
                }
            },
{
}

/// A window has the header bar if and only if that was set last, and setting it
/// changes nothing else: the header bar keeps its pointer, its button and its
/// picture. A window that was never asked for its decoration has none.
pub proof fn law_decoration_is_what_was_set<L>(ssd: bool, shown: WindowElement<L>, decorated: bool)
    requires
        call_ensures(WindowElement::<L>::is_ssd, (&shown,), decorated),
    ensures
        decorated <==> shown.decoration is Some && shown.decoration->0.is_ssd,
        forall|window: &mut WindowElement<L>| #[trigger]
            call_ensures(WindowElement::<L>::set_ssd, (window, ssd), ()) ==> {
                &&& final(window).surface == window.surface
                &&& final(window).id == window.id
                &&& final(window).decoration matches Some(state)
                &&& state.is_ssd == ssd
                &&& window.decoration matches Some(before) ==> state.header_bar
                    == before.header_bar
                &&& window.decoration is None ==> {
                    &&& state.header_bar.width == 0
                    &&& state.header_bar.buffer is None
                    &&& state.header_bar.pointer_loc is None
                    &&& state.header_bar.action == HeaderAction::Nothing
                }
            },
{
}

/// What is done to the decoration that a window gives out is done to the window,
/// and nothing else of the window changes. A window that has none yet gives out
/// that of a new window: no header bar, nothing drawn and no pointer.
pub proof fn law_decoration_belongs_to_its_window<L>()
    ensures
        forall|window: &mut WindowElement<L>, state: &mut WindowState<L>| #[trigger]
            call_ensures(WindowElement::<L>::decoration_state, (window,), state) ==> {
                &&& final(window).decoration == Some(*final(state))
                &&& final(window).surface == window.surface
                &&& final(window).id == window.id
                &&& window.decoration matches Some(before) ==> *state == before
                &&& window.decoration is None ==> {
                    &&& !state.is_ssd
                    &&& state.header_bar.width == 0
                    &&& state.header_bar.buffer is None
                    &&& state.header_bar.pointer_loc is None
                    &&& state.header_bar.action == HeaderAction::Nothing
                }
            },
{
}

/// A window is of exactly one kind, and has neither number nor decoration when it
/// is new.
pub proof fn law_windows_are_of_one_kind<L>(
    surface: WindowSurface,
    window: WindowElement<L>,
    x11: bool,
    wayland: bool,
)
    requires
        call_ensures(WindowElement::<L>::new, (surface,), window),
        call_ensures(WindowElement::<L>::is_x11, (&window,), x11),
        call_ensures(WindowElement::<L>::is_wayland, (&window,), wayland),
    ensures
        x11 != wayland,
        x11 <==> surface == WindowSurface::X11,
        window.surface == surface,
        window.id is None,
        window.decoration is None,
{
}

/// The header bar is under the pointer in its own rows of a window that has it,
/// and nowhere else. Everywhere else the client's part decides: what it has there
/// is found, as a surface of a Wayland window or as the whole of an X11 window,
/// and lies lower by the height of the header bar if the window has it.
pub proof fn law_only_the_header_rows_are_the_header<L, S>(
    window: WindowElement<L>,
    row: i64,
    inner: Option<(S, Point)>,
    r: Option<(PointerFocusTarget<S>, Point)>,
)
    requires
        call_ensures(WindowElement::<L>::surface_under::<S>, (&window, row, inner), r),
    ensures
        ({
            let decorated = window.decoration is Some && window.decoration->0.is_ssd;
            let down: int = if decorated { HEADER_BAR_HEIGHT as int } else { 0 };
            if decorated && row < HEADER_BAR_HEIGHT {
                &&& r matches Some((under, at))
                &&& under is SSD
                &&& at.x == 0
                &&& at.y == 0
            } else {
                match inner {
                    Some((found, loc)) => {
                        &&& r matches Some((under, at))
                        &&& window.surface == WindowSurface::Wayland ==> under
                            == PointerFocusTarget::WlSurface(found)
                        &&& window.surface == WindowSurface::X11 ==> under is X11Surface
                        &&& at.x == loc.x
                        &&& loc.y + down <= i32::MAX ==> at.y == loc.y + down
                        &&& loc.y + down > i32::MAX ==> at.y == i32::MAX
                    },
                    None => r is None,
                }
            }
        }),
{
}

/// A window takes input in the rows of its header bar, if it has it, and
/// everywhere else exactly where the client's part does.
pub proof fn law_input_outside_the_header_is_the_clients<L>(
    window: WindowElement<L>,
    row: i64,
    inner: bool,
    r: bool,
)
    requires
        call_ensures(WindowElement::<L>::is_in_input_region, (&window, row, inner), r),
    ensures
        ({
            let decorated = window.decoration is Some && window.decoration->0.is_ssd;
            &&& decorated && row < HEADER_BAR_HEIGHT ==> r
            &&& !decorated || row >= HEADER_BAR_HEIGHT ==> r == inner
        }),
{
}

/// The header bar adds its height to the geometry and to the bounding box of a
/// window that has it, and nothing to those of others. The client's part starts
/// below it.
pub proof fn law_windows_grow_by_their_header<L>(
    window: WindowElement<L>,
    inner: Rectangle,
    geometry: Rectangle,
    bbox: Rectangle,
    offset: Point,
)
    requires
        call_ensures(WindowElement::<L>::geometry, (&window, inner), geometry),
        call_ensures(WindowElement::<L>::bbox, (&window, inner), bbox),
        call_ensures(WindowElement::<L>::header_offset, (&window,), offset),
        window.decoration is Some && window.decoration->0.is_ssd ==> inner.size.h
            + HEADER_BAR_HEIGHT <= i32::MAX,
    ensures
        ({
            let decorated = window.decoration is Some && window.decoration->0.is_ssd;
            let height: int = if decorated { HEADER_BAR_HEIGHT as int } else { 0 };
            &&& geometry.loc == inner.loc
            &&& geometry.size.w == inner.size.w
            &&& geometry.size.h == inner.size.h + height
            &&& bbox == geometry
            &&& offset.x == 0
            &&& offset.y == height
        }),
{
}

/// The header bar is drawn above a window that has it and shows something, as
/// wide as the client's part. Its buffer is set up anew if and only if there was
/// none or it had another width. Otherwise nothing is drawn above the window and
/// nothing changes. The pointer, the button and the number of the window stay as
/// they were.
pub proof fn law_header_is_drawn_as_wide_as_the_content<L>(bbox: Rectangle, geometry: Rectangle)
    ensures
        forall|window: &mut WindowElement<L>, plan: RenderPlan| #[trigger]
            call_ensures(
                WindowElement::<L>::prepare_render,
                (window, bbox, geometry),
                plan,
            ) ==> {
                let before = window.decoration->0;
                let after = final(window).decoration->0;
                let width = geometry.size.w;
                &&& final(window).id == window.id
                &&& final(window).surface == window.surface
                &&& if window.decoration is Some && before.is_ssd && bbox.size.w != 0
                    && bbox.size.h != 0 {
                    0 <= width <= MAX_HEADER_WIDTH ==> {
                        &&& final(window).decoration is Some
                        &&& after.is_ssd
                        &&& after.header_bar.pointer_loc == before.header_bar.pointer_loc
                        &&& after.header_bar.action == before.header_bar.action
                        &&& width == 0 ==> after == before && plan == RenderPlan::HeaderAndContent(None)
                        &&& width > 0 ==> {
                            &&& after.header_bar.width == width
                            &&& after.header_bar.buffer matches Some(size)
                            &&& size.w == width
                            &&& size.h == HEADER_BAR_HEIGHT
                            &&& plan matches RenderPlan::HeaderAndContent(Some(redraw))
                            &&& redraw.pixels == width * HEADER_BAR_HEIGHT
                            &&& redraw.resize == if before.header_bar.buffer is None
                                || before.header_bar.width != width {
                                Some(size)
                            } else {
                                None
                            }
                        }
                    }
                } else {
                    plan is Content && final(window).decoration == window.decoration
                }
            },
{
}

/// The client's part is drawn lower by the height of the header bar on the
/// output if the header bar is drawn, and else where the window is.
pub proof fn law_content_is_drawn_below_the_header<L>(
    window: WindowElement<L>,
    bbox: Rectangle,
    location: Point,
    header_height: i32,
    r: Point,
)
    requires
        call_ensures(
            WindowElement::<L>::content_location,
            (&window, bbox, location, header_height),
            r,
        ),
        window.decoration is Some && window.decoration->0.is_ssd && bbox.size.w != 0
            && bbox.size.h != 0 ==> i32::MIN <= location.y + header_height <= i32::MAX,
    ensures
        ({
            let drawn = window.decoration is Some && window.decoration->0.is_ssd && bbox.size.w != 0
                && bbox.size.h != 0;
            &&& r.x == location.x
            &&& r.y == location.y + if drawn { header_height as int } else { 0 }
        }),
{
}

/// The parts of a window are those of the client, all of them and in their
/// order. The picture of the header bar is before them if there is one and the
/// header bar is drawn.
pub proof fn law_header_is_in_front_of_all_content<L, D, W>(
    window: WindowElement<L>,
    bbox: Rectangle,
    decoration: Option<D>,
    content: Vec<W>,
    r: Vec<WindowRenderElement<D, W>>,
)
    requires
        call_ensures(
            WindowElement::<L>::render_elements::<D, W>,
            (&window, bbox, decoration, content),
            r,
        ),
    ensures
        ({
            let drawn = window.decoration is Some && window.decoration->0.is_ssd && bbox.size.w != 0
                && bbox.size.h != 0;
            let n: nat = if drawn && decoration is Some { 1 } else { 0 };
            &&& r@.len() == n + content@.len()
            &&& n == 1 ==> r@[0] == WindowRenderElement::<D, W>::Decoration(decoration->0)
            &&& forall|i: int|
                0 <= i < content@.len() ==> r@[n + i] == WindowRenderElement::<D, W>::Window(
                    #[trigger] content@[i],
                )
        }),
{
}

/// Whether `after` is `before` with the pointer at `loc`, or away from the
/// header bar, and the interface was told so. Without the header bar nothing
/// changes and nothing is told.
pub open spec fn pointer_follows<L>(
    before: WindowState<L>,
    after: WindowState<L>,
    loc: Option<L>,
    event: Option<UiEvent<L>>,
) -> bool {
    if before.is_ssd {
        &&& after.is_ssd
        &&& after.header_bar.pointer_loc == loc
        &&& after.header_bar.width == before.header_bar.width
        &&& after.header_bar.buffer == before.header_bar.buffer
        &&& after.header_bar.action == before.header_bar.action
        &&& loc matches Some(at) ==> event == Some(UiEvent::PointerMoved(at))
        &&& loc is None ==> event is Some && event->0 is PointerExited
    } else {
        after == before && event is None
    }
}

/// The header bar takes a pointer, a finger and a pen over it for the pointer,
/// and forgets them when the pointer or the pen is gone. Lifting a finger or a
/// pen, and putting a pen down, changes nothing.
pub proof fn law_header_follows_pointer_finger_and_pen<L: Copy>(loc: L)
    ensures
        forall|state: &mut WindowState<L>, event: Option<UiEvent<L>>| #[trigger]
            call_ensures(SSD::enter::<L>, (state, loc), event) ==> pointer_follows(
                *state,
                *final(state),
                Some(loc),
                event,
            ),
        forall|state: &mut WindowState<L>, event: Option<UiEvent<L>>| #[trigger]
            call_ensures(SSD::motion::<L>, (state, loc), event) ==> pointer_follows(
                *state,
                *final(state),
                Some(loc),
                event,
            ),
        forall|state: &mut WindowState<L>, event: Option<UiEvent<L>>| #[trigger]
            call_ensures(SSD::touch_down::<L>, (state, loc), event) ==> pointer_follows(
                *state,
                *final(state),
                Some(loc),
                event,
            ),
        forall|state: &mut WindowState<L>, event: Option<UiEvent<L>>| #[trigger]
            call_ensures(SSD::touch_motion::<L>, (state, loc), event) ==> pointer_follows(
                *state,
                *final(state),
                Some(loc),
                event,
            ),
        forall|state: &mut WindowState<L>, event: Option<UiEvent<L>>| #[trigger]
            call_ensures(SSD::tablet_motion::<L>, (state, loc), event) ==> pointer_follows(
                *state,
                *final(state),
                Some(loc),
                event,
            ),
        forall|state: &mut WindowState<L>, event: Option<UiEvent<L>>| #[trigger]
            call_ensures(SSD::leave::<L>, (state,), event) ==> pointer_follows(
                *state,
                *final(state),
                None,
                event,
            ),
        forall|state: &mut WindowState<L>, event: Option<UiEvent<L>>| #[trigger]
            call_ensures(SSD::tablet_proximity_out::<L>, (state,), event) ==> pointer_follows(
                *state,
                *final(state),
                None,
                event,
            ),
        forall|state: &mut WindowState<L>| #[trigger]
            call_ensures(SSD::touch_up::<L>, (state,), ()) ==> *final(state) == *state,
        forall|state: &mut WindowState<L>| #[trigger]
            call_ensures(SSD::tablet_down::<L>, (state,), ()) ==> *final(state) == *state,
        forall|state: &mut WindowState<L>| #[trigger]
            call_ensures(SSD::tablet_up::<L>, (state,), ()) ==> *final(state) == *state,
{
}

/// Whether a click has started: with the header bar and a pointer over it no
/// button is hit any more, and the interface is told of a press and a release
/// there. Otherwise nothing changes and nothing is told.
pub open spec fn click_starts<L>(
    before: WindowState<L>,
    after: WindowState<L>,
    events: Seq<UiEvent<L>>,
) -> bool {
    if before.is_ssd && before.header_bar.pointer_loc is Some {
        let loc = before.header_bar.pointer_loc->0;
        &&& after.is_ssd
        &&& after.header_bar.pointer_loc == Some(loc)
        &&& after.header_bar.width == before.header_bar.width
        &&& after.header_bar.buffer == before.header_bar.buffer
        &&& after.header_bar.action == HeaderAction::Nothing
        &&& events.len() == 2
        &&& events[0] == UiEvent::PointerPressed(loc)
        &&& events[1] == UiEvent::PointerReleased(loc)
    } else {
        after == before && events.len() == 0
    }
}

/// A button of a pointer or a pen starts a click. The click ends with the request
/// of the button that the interface has hit since, for the kind of window that
/// the header bar belongs to, and the button is forgotten. A window without the
/// header bar, or with no pointer over it, takes no click.
pub proof fn law_header_clicks_ask_for_their_button<L: Copy>(
    surface: WindowSurface,
    serial: Serial,
)
    ensures
        forall|state: &mut WindowState<L>, events: Vec<UiEvent<L>>| #[trigger]
            call_ensures(SSD::button::<L>, (state,), events) ==> click_starts(
                *state,
                *final(state),
                events@,
            ),
        forall|state: &mut WindowState<L>, events: Vec<UiEvent<L>>| #[trigger]
            call_ensures(SSD::tablet_button::<L>, (state,), events) ==> click_starts(
                *state,
                *final(state),
                events@,
            ),
        forall|state: &mut WindowState<L>, r: Option<HeaderRequest>| #[trigger]
            call_ensures(SSD::clicked::<L>, (state, surface, serial), r) ==> {
                let bar = state.header_bar;
                let after = final(state).header_bar;
                let wayland = surface == WindowSurface::Wayland;
                &&& r is Some <==> state.is_ssd && bar.pointer_loc is Some
                &&& r matches Some(request) ==> match request {
                    HeaderRequest::CloseToplevel => wayland && bar.action == HeaderAction::Close,
                    HeaderRequest::CloseX11 => !wayland && bar.action == HeaderAction::Close,
                    HeaderRequest::MaximizeToplevel => wayland && bar.action
                        == HeaderAction::Maximize,
                    HeaderRequest::MaximizeX11WhenIdle => !wayland && bar.action
                        == HeaderAction::Maximize,
                    HeaderRequest::MoveToplevelWhenIdle(with) => wayland && bar.action
                        == HeaderAction::Nothing && with == serial,
                    HeaderRequest::MoveX11WhenIdle => !wayland && bar.action
                        == HeaderAction::Nothing,
                }
                &&& final(state).is_ssd == state.is_ssd
                &&& after.action == if r is Some { HeaderAction::Nothing } else { bar.action }
                &&& after.pointer_loc == bar.pointer_loc
                &&& after.width == bar.width
                &&& after.buffer == bar.buffer
            },
{
}

} // verus!
