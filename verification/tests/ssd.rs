use anvil::geometry::{Point, Rectangle, Size};
use anvil::shell::ssd::{
    HeaderAction, HeaderBar, HeaderRequest, RedrawPlan, UiEvent, WindowState, BYTES_PER_PIXEL,
    HEADER_BAR_HEIGHT, MAX_HEADER_WIDTH,
};
use anvil::shell::WindowSurface;

type Loc = (f64, f64);

#[test]
fn new_header_bar_is_blank() {
    let bar: HeaderBar<Loc> = HeaderBar::new();
    assert_eq!(bar.width, 0);
    assert!(bar.pointer_loc.is_none());
    assert!(bar.buffer.is_none());
    assert_eq!(bar.action, HeaderAction::Nothing);
    let default: HeaderBar<Loc> = HeaderBar::default();
    assert_eq!(default.width, 0);
    assert!(default.pointer_loc.is_none());
    assert!(default.buffer.is_none());
    assert_eq!(default.action, HeaderAction::Nothing);
}

#[test]
fn new_window_is_not_decorated() {
    let state: WindowState<Loc> = WindowState::new();
    assert!(!state.is_ssd);
    assert_eq!(state.header_bar.width, 0);
}

#[test]
fn pointer_enters_and_leaves() {
    let mut bar: HeaderBar<Loc> = HeaderBar::new();
    let event = bar.pointer_enter((3.5, 7.25));
    assert!(matches!(event, UiEvent::PointerMoved((x, y)) if x == 3.5 && y == 7.25));
    assert_eq!(bar.pointer_loc, Some((3.5, 7.25)));
    let event = bar.pointer_enter((4.0, 8.0));
    assert!(matches!(event, UiEvent::PointerMoved((x, y)) if x == 4.0 && y == 8.0));
    assert_eq!(bar.pointer_loc, Some((4.0, 8.0)));
    let event = bar.pointer_leave();
    assert!(matches!(event, UiEvent::PointerExited));
    assert!(bar.pointer_loc.is_none());
}

#[test]
fn press_sends_a_press_and_a_release() {
    let mut bar: HeaderBar<Loc> = HeaderBar::new();
    bar.pointer_enter((1.0, 2.0));
    bar.trigger(HeaderAction::Close);
    let events = bar.press();
    assert_eq!(events.len(), 2);
    assert!(matches!(events[0], UiEvent::PointerPressed((x, y)) if x == 1.0 && y == 2.0));
    assert!(matches!(events[1], UiEvent::PointerReleased((x, y)) if x == 1.0 && y == 2.0));
    assert_eq!(bar.action, HeaderAction::Nothing);
    assert_eq!(bar.pointer_loc, Some((1.0, 2.0)));
}

#[test]
fn no_click_without_a_pointer() {
    let mut bar: HeaderBar<Loc> = HeaderBar::new();
    bar.trigger(HeaderAction::Maximize);
    assert_eq!(bar.press().len(), 0);
    assert_eq!(bar.action, HeaderAction::Maximize);
    assert_eq!(bar.clicked(WindowSurface::Wayland, 5), None);
    assert_eq!(bar.action, HeaderAction::Maximize);
}

fn click(hits: &[HeaderAction], surface: WindowSurface) -> Option<HeaderRequest> {
    let mut bar: HeaderBar<Loc> = HeaderBar::new();
    bar.pointer_enter((10.0, 10.0));
    bar.trigger(HeaderAction::Maximize);
    bar.press();
    for hit in hits {
        bar.trigger(*hit);
    }
    let request = bar.clicked(surface, 77);
    assert_eq!(bar.action, HeaderAction::Nothing);
    assert_eq!(bar.pointer_loc, Some((10.0, 10.0)));
    request
}

#[test]
fn clicks_on_toplevels() {
    let surface = WindowSurface::Wayland;
    assert_eq!(click(&[HeaderAction::Close], surface), Some(HeaderRequest::CloseToplevel));
    assert_eq!(click(&[HeaderAction::Maximize], surface), Some(HeaderRequest::MaximizeToplevel));
    assert_eq!(click(&[], surface), Some(HeaderRequest::MoveToplevelWhenIdle(77)));
}

#[test]
fn clicks_on_x11_windows() {
    let surface = WindowSurface::X11;
    assert_eq!(click(&[HeaderAction::Close], surface), Some(HeaderRequest::CloseX11));
    assert_eq!(click(&[HeaderAction::Maximize], surface), Some(HeaderRequest::MaximizeX11WhenIdle));
    assert_eq!(click(&[], surface), Some(HeaderRequest::MoveX11WhenIdle));
}

#[test]
fn the_last_button_counts() {
    let hits = [HeaderAction::Maximize, HeaderAction::Close];
    assert_eq!(click(&hits, WindowSurface::Wayland), Some(HeaderRequest::CloseToplevel));
}

#[test]
fn touch_changes_nothing() {
    let mut bar: HeaderBar<Loc> = HeaderBar::new();
    bar.pointer_enter((1.0, 1.0));
    bar.touch_down();
    bar.touch_up();
    assert_eq!(bar.pointer_loc, Some((1.0, 1.0)));
    assert_eq!(bar.action, HeaderAction::Nothing);
    assert_eq!(bar.width, 0);
}

#[test]
fn redraw_sets_the_buffer_up_once() {
    let mut bar: HeaderBar<Loc> = HeaderBar::new();
    let size = Size { w: 100, h: HEADER_BAR_HEIGHT };
    assert_eq!(bar.redraw(100), Some(RedrawPlan { resize: Some(size), pixels: 3200 }));
    assert_eq!(bar.width, 100);
    assert_eq!(bar.buffer, Some(size));
    assert_eq!(bar.redraw(100), Some(RedrawPlan { resize: None, pixels: 3200 }));
    assert_eq!(bar.buffer, Some(size));
    let wider = Size { w: 101, h: 32 };
    assert_eq!(bar.redraw(101), Some(RedrawPlan { resize: Some(wider), pixels: 3232 }));
    assert_eq!(bar.buffer, Some(wider));
}

#[test]
fn redraw_at_width_zero_does_nothing() {
    let mut bar: HeaderBar<Loc> = HeaderBar::new();
    assert_eq!(bar.redraw(0), None);
    assert_eq!(bar.width, 0);
    assert_eq!(bar.buffer, None);
    bar.redraw(5);
    assert_eq!(bar.redraw(0), None);
    assert_eq!(bar.width, 5);
    assert_eq!(bar.buffer, Some(Size { w: 5, h: 32 }));
}

#[test]
fn the_widest_header_bar_can_be_counted() {
    let mut bar: HeaderBar<Loc> = HeaderBar::new();
    let plan = bar.redraw(MAX_HEADER_WIDTH).unwrap();
    let bytes = plan.pixels as i64 * BYTES_PER_PIXEL as i64;
    assert_eq!(bytes, MAX_HEADER_WIDTH as i64 * 32 * 4);
    assert!(bytes <= i32::MAX as i64);
    assert!((MAX_HEADER_WIDTH as i64 + 1) * 32 * 4 > i32::MAX as i64);
}

#[test]
fn damage_is_all_or_nothing() {
    let mut bar: HeaderBar<Loc> = HeaderBar::new();
    bar.redraw(640);
    assert_eq!(bar.damage(false), vec![]);
    assert_eq!(
        bar.damage(true),
        vec![Rectangle { loc: Point { x: 0, y: 0 }, size: Size { w: 640, h: 32 } }]
    );
}
