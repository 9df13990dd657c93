use anvil::geometry::{Point, Rectangle, Size};
use anvil::plugins::WSize;
use anvil::shell::element::{
    PointerFocusTarget, RenderPlan, SurfaceData, ToplevelFlags, ToplevelNames, WindowElement,
    WindowIds, WindowRenderElement, SSD,
};
use anvil::shell::ssd::{HeaderAction, HeaderRequest, RedrawPlan, UiEvent, WindowState};
use anvil::shell::WindowSurface;

type Loc = (f64, f64);

fn rect(x: i32, y: i32, w: i32, h: i32) -> Rectangle {
    Rectangle { loc: Point { x, y }, size: Size { w, h } }
}

fn window(surface: WindowSurface, ssd: bool) -> WindowElement<Loc> {
    let mut window = WindowElement::new(surface);
    window.set_ssd(ssd);
    window
}

#[test]
fn ids_start_at_one_and_stay() {
    let mut ids = WindowIds::new();
    let mut first: WindowElement<Loc> = WindowElement::new(WindowSurface::Wayland);
    let mut second: WindowElement<Loc> = WindowElement::new(WindowSurface::X11);
    assert_eq!(first.id(&mut ids), 1);
    assert_eq!(second.id(&mut ids), 2);
    assert_eq!(first.id(&mut ids), 1);
    assert_eq!(ids.allocate(), 3);
    assert_eq!(first.id, Some(1));
}

#[test]
fn info_without_a_surface() {
    let mut ids = WindowIds::new();
    let mut window: WindowElement<Loc> = WindowElement::new(WindowSurface::X11);
    let info = window.to_info(&mut ids, None, None);
    assert_eq!(info.id, 1);
    assert_eq!(info.title, "");
    assert_eq!(info.app_id, "");
    assert_eq!(info.min_size, None);
    assert_eq!(info.max_size, None);
    assert!(!info.is_maximized);
    assert!(!info.is_fullscreen);
}

#[test]
fn info_of_a_toplevel() {
    let mut ids = WindowIds::new();
    ids.allocate();
    let mut window: WindowElement<Loc> = WindowElement::new(WindowSurface::Wayland);
    let data = SurfaceData {
        names: Some(ToplevelNames {
            title: Some(String::from("Notizen – übersicht")),
            app_id: Some(String::from("org.example.Notes")),
        }),
        min_size: Size { w: 320, h: -5 },
        max_size: Size { w: 0, h: 900 },
    };
    let flags = ToplevelFlags { maximized: true, fullscreen: false };
    let info = window.to_info(&mut ids, Some(data), Some(flags));
    assert_eq!(info.id, 2);
    assert_eq!(info.title, "Notizen – übersicht");
    assert_eq!(info.app_id, "org.example.Notes");
    assert_eq!(info.min_size, Some(WSize { width: 320, height: 0 }));
    assert_eq!(info.max_size, Some(WSize { width: 0, height: 900 }));
    assert!(info.is_maximized);
    assert!(!info.is_fullscreen);
    assert_eq!(window.id(&mut ids), 2);
}

#[test]
fn info_with_gaps() {
    let mut ids = WindowIds::new();
    let mut window: WindowElement<Loc> = WindowElement::new(WindowSurface::Wayland);
    let unnamed = SurfaceData {
        names: None,
        min_size: Size { w: 0, h: 0 },
        max_size: Size { w: -1, h: i32::MIN },
    };
    let flags = ToplevelFlags { maximized: false, fullscreen: true };
    let info = window.to_info(&mut ids, Some(unnamed), Some(flags));
    assert_eq!(info.title, "");
    assert_eq!(info.min_size, None);
    assert_eq!(info.max_size, None);
    assert!(!info.is_maximized);
    assert!(info.is_fullscreen);
    let half_named = SurfaceData {
        names: Some(ToplevelNames { title: None, app_id: Some(String::from("term")) }),
        min_size: Size { w: 1, h: 1 },
        max_size: Size { w: 0, h: 0 },
    };
    let info = window.to_info(&mut ids, Some(half_named), None);
    assert_eq!(info.id, 1);
    assert_eq!(info.title, "");
    assert_eq!(info.app_id, "term");
    assert_eq!(info.min_size, Some(WSize { width: 1, height: 1 }));
}

#[test]
fn kinds_of_windows() {
    let wayland: WindowElement<Loc> = WindowElement::new(WindowSurface::Wayland);
    let x11: WindowElement<Loc> = WindowElement::new(WindowSurface::X11);
    assert!(wayland.is_wayland() && !wayland.is_x11());
    assert!(x11.is_x11() && !x11.is_wayland());
}

#[test]
fn decoration_is_made_when_asked_for() {
    let mut window: WindowElement<Loc> = WindowElement::new(WindowSurface::Wayland);
    assert!(window.decoration.is_none());
    assert!(!window.is_ssd());
    assert!(!window.decoration_state().is_ssd);
    assert!(window.decoration.is_some());
    window.set_ssd(true);
    assert!(window.is_ssd());
    window.decoration_state().header_bar.pointer_enter((1.0, 1.0));
    window.set_ssd(false);
    assert!(!window.is_ssd());
    assert_eq!(window.decoration_state().header_bar.pointer_loc, Some((1.0, 1.0)));
}

#[test]
fn header_bar_is_under_the_pointer() {
    let window = window(WindowSurface::Wayland, true);
    for row in [i64::MIN, -3, 0, 31] {
        let under = window.surface_under(row, Some(("surface", Point { x: 4, y: 4 })));
        assert!(matches!(under, Some((PointerFocusTarget::SSD, Point { x: 0, y: 0 }))));
        assert!(window.is_in_input_region(row, false));
    }
    let under: Option<(PointerFocusTarget<&str>, Point)> = window.surface_under(31, None);
    assert!(matches!(under, Some((PointerFocusTarget::SSD, _))));
}

#[test]
fn content_is_under_the_header_bar() {
    let window = window(WindowSurface::Wayland, true);
    assert_eq!(window.header_offset(), Point { x: 0, y: 32 });
    let under = window.surface_under(32, Some(("surface", Point { x: 4, y: -4 })));
    assert!(matches!(
        under,
        Some((PointerFocusTarget::WlSurface("surface"), Point { x: 4, y: 28 }))
    ));
    let nothing: Option<(PointerFocusTarget<&str>, Point)> = window.surface_under(32, None);
    assert!(nothing.is_none());
    assert!(!window.is_in_input_region(32, false));
    assert!(window.is_in_input_region(32, true));
}

#[test]
fn undecorated_windows_are_all_content() {
    let window = window(WindowSurface::Wayland, false);
    assert_eq!(window.header_offset(), Point { x: 0, y: 0 });
    let under = window.surface_under(3, Some((9, Point { x: 4, y: 5 })));
    assert!(matches!(under, Some((PointerFocusTarget::WlSurface(9), Point { x: 4, y: 5 }))));
    assert!(!window.is_in_input_region(3, false));
    assert!(window.is_in_input_region(3, true));
}

#[test]
fn x11_windows_are_found_as_a_whole() {
    let window = window(WindowSurface::X11, true);
    let under = window.surface_under(40, Some((9, Point { x: 1, y: i32::MAX })));
    assert!(matches!(
        under,
        Some((PointerFocusTarget::X11Surface, Point { x: 1, y: i32::MAX }))
    ));
}

#[test]
fn header_bar_adds_to_the_height() {
    let inner = rect(3, 4, 200, 100);
    let decorated = window(WindowSurface::Wayland, true);
    assert_eq!(decorated.geometry(inner), rect(3, 4, 200, 132));
    assert_eq!(decorated.bbox(inner), rect(3, 4, 200, 132));
    let plain = window(WindowSurface::Wayland, false);
    assert_eq!(plain.geometry(inner), inner);
    assert_eq!(plain.bbox(rect(0, 0, 1, i32::MAX)), rect(0, 0, 1, i32::MAX));
}

#[test]
fn rendering_a_decorated_window() {
    let mut window = window(WindowSurface::Wayland, true);
    let bbox = rect(-10, -10, 220, 120);
    let geometry = rect(0, 0, 200, 100);
    let size = Size { w: 200, h: 32 };
    assert_eq!(
        window.prepare_render(bbox, geometry),
        RenderPlan::HeaderAndContent(Some(RedrawPlan { resize: Some(size), pixels: 6400 }))
    );
    assert_eq!(
        window.prepare_render(bbox, geometry),
        RenderPlan::HeaderAndContent(Some(RedrawPlan { resize: None, pixels: 6400 }))
    );
    assert_eq!(window.decoration_state().header_bar.buffer, Some(size));
    let location = Point { x: 5, y: 6 };
    assert_eq!(window.content_location(bbox, location, 48), Point { x: 5, y: 54 });
    let parts = window.render_elements(bbox, Some("header"), vec!["a", "b"]);
    assert_eq!(parts.len(), 3);
    assert!(matches!(parts[0], WindowRenderElement::Decoration("header")));
    assert!(matches!(parts[1], WindowRenderElement::Window("a")));
    assert!(matches!(parts[2], WindowRenderElement::Window("b")));
    let parts = window.render_elements(bbox, None::<&str>, vec!["a"]);
    assert_eq!(parts.len(), 1);
    assert!(matches!(parts[0], WindowRenderElement::Window("a")));
}

#[test]
fn rendering_without_the_header_bar() {
    let mut plain = window(WindowSurface::Wayland, false);
    let bbox = rect(0, 0, 10, 10);
    assert_eq!(plain.prepare_render(bbox, bbox), RenderPlan::Content);
    assert_eq!(plain.content_location(bbox, Point { x: 1, y: 2 }, 48), Point { x: 1, y: 2 });
    let parts = plain.render_elements(bbox, Some("header"), vec!["a"]);
    assert_eq!(parts.len(), 1);
    assert!(matches!(parts[0], WindowRenderElement::Window("a")));

    let mut empty = window(WindowSurface::Wayland, true);
    let bbox = rect(0, 0, 10, 0);
    assert_eq!(empty.prepare_render(bbox, rect(0, 0, 10, 10)), RenderPlan::Content);
    assert!(empty.decoration_state().header_bar.buffer.is_none());
    assert_eq!(empty.content_location(bbox, Point { x: 1, y: 2 }, 48), Point { x: 1, y: 2 });
    assert_eq!(empty.render_elements(bbox, Some("header"), vec!["a"]).len(), 1);
}

#[test]
fn a_header_bar_without_width_is_not_drawn() {
    let mut window = window(WindowSurface::Wayland, true);
    let bbox = rect(0, 0, 10, 10);
    assert_eq!(
        window.prepare_render(bbox, rect(0, 0, 0, 10)),
        RenderPlan::HeaderAndContent(None)
    );
    assert!(window.decoration_state().header_bar.buffer.is_none());
}

fn decorated_state() -> WindowState<Loc> {
    let mut state = WindowState::new();
    state.is_ssd = true;
    state
}

#[test]
fn pointer_on_the_header_bar() {
    let mut state = decorated_state();
    let event = SSD::enter(&mut state, (1.0, 2.0));
    assert!(matches!(event, Some(UiEvent::PointerMoved((x, y))) if x == 1.0 && y == 2.0));
    let event = SSD::motion(&mut state, (3.0, 4.0));
    assert!(matches!(event, Some(UiEvent::PointerMoved((x, y))) if x == 3.0 && y == 4.0));
    assert_eq!(state.header_bar.pointer_loc, Some((3.0, 4.0)));
    let events = SSD::button(&mut state);
    assert_eq!(events.len(), 2);
    state.header_bar.trigger(HeaderAction::Close);
    let request = SSD::clicked(&mut state, WindowSurface::X11, 9);
    assert_eq!(request, Some(HeaderRequest::CloseX11));
    assert!(matches!(SSD::leave(&mut state), Some(UiEvent::PointerExited)));
    assert_eq!(state.header_bar.pointer_loc, None);
    assert_eq!(SSD::button(&mut state).len(), 0);
    assert_eq!(SSD::clicked(&mut state, WindowSurface::Wayland, 9), None);
}

#[test]
fn fingers_on_the_header_bar() {
    let mut state = decorated_state();
    let event = SSD::touch_down(&mut state, (1.0, 2.0));
    assert!(matches!(event, Some(UiEvent::PointerMoved((x, y))) if x == 1.0 && y == 2.0));
    let event = SSD::touch_motion(&mut state, (5.0, 6.0));
    assert!(matches!(event, Some(UiEvent::PointerMoved((x, y))) if x == 5.0 && y == 6.0));
    SSD::touch_up(&mut state);
    assert_eq!(state.header_bar.pointer_loc, Some((5.0, 6.0)));
}

#[test]
fn pens_on_the_header_bar() {
    let mut state = decorated_state();
    SSD::tablet_down(&mut state);
    assert_eq!(state.header_bar.pointer_loc, None);
    let event = SSD::tablet_motion(&mut state, (7.0, 8.0));
    assert!(matches!(event, Some(UiEvent::PointerMoved((x, y))) if x == 7.0 && y == 8.0));
    SSD::tablet_up(&mut state);
    assert_eq!(SSD::tablet_button(&mut state).len(), 2);
    let request = SSD::clicked(&mut state, WindowSurface::Wayland, 12);
    assert_eq!(request, Some(HeaderRequest::MoveToplevelWhenIdle(12)));
    assert!(matches!(SSD::tablet_proximity_out(&mut state), Some(UiEvent::PointerExited)));
    assert_eq!(state.header_bar.pointer_loc, None);
}

#[test]
fn undecorated_windows_take_no_header_input() {
    let mut state: WindowState<Loc> = WindowState::new();
    assert!(SSD::enter(&mut state, (1.0, 2.0)).is_none());
    assert!(SSD::motion(&mut state, (1.0, 2.0)).is_none());
    assert!(SSD::touch_down(&mut state, (1.0, 2.0)).is_none());
    assert!(SSD::touch_motion(&mut state, (1.0, 2.0)).is_none());
    assert!(SSD::tablet_motion(&mut state, (1.0, 2.0)).is_none());
    assert_eq!(state.header_bar.pointer_loc, None);
    state.header_bar.pointer_enter((1.0, 2.0));
    assert!(SSD::leave(&mut state).is_none());
    assert!(SSD::tablet_proximity_out(&mut state).is_none());
    assert_eq!(SSD::button(&mut state).len(), 0);
    assert_eq!(SSD::tablet_button(&mut state).len(), 0);
    assert_eq!(SSD::clicked(&mut state, WindowSurface::Wayland, 1), None);
    assert_eq!(state.header_bar.pointer_loc, Some((1.0, 2.0)));
}
