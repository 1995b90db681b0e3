use catacomb::action::Action;
use catacomb::app_id::Patterns;
use catacomb::geometry::{FloatBits, Point, Rectangle, Size};
use catacomb::string_map::StringMap;
use catacomb::windows::scene::{
    Canvas, Layers, Layout, Layouts, Orientation, Output, SurfaceHandle, Window,
};
use catacomb::windows::state::Clock;
use catacomb::windows::Windows;
use catacomb::xwayland::{configure_without_state, GeometryRequest, X11Window, XWaylandExt};

const NOTHING: GeometryRequest = GeometryRequest { x: None, y: None, w: None, h: None };

fn rect(x: i32, y: i32, w: i32, h: i32) -> Rectangle {
    Rectangle { loc: Point { x, y }, size: Size { w, h } }
}

fn window(mapped: bool) -> X11Window {
    X11Window { id: 7, override_redirect: false, mapped, geometry: rect(1, 2, 3, 4) }
}

#[test]
fn mapped_windows_are_configured_at_once() {
    let mut ext = XWaylandExt::new();
    assert_eq!(ext.configure_request(window(true), NOTHING), Some(rect(1, 2, 3, 4)));
    let request = GeometryRequest { x: Some(-5), y: None, w: Some(0), h: Some(u32::MAX) };
    assert_eq!(ext.configure_request(window(true), request), Some(rect(-5, 2, 1, 1)));
    assert!(ext.pending_configs.is_empty());
}

#[test]
fn unmapped_windows_are_configured_with_their_surface() {
    let mut ext = XWaylandExt::new();
    let request = GeometryRequest { y: Some(9), h: Some(50), ..NOTHING };
    assert_eq!(ext.configure_request(window(false), request), None);
    assert_eq!(ext.surface_associated(8), None);
    assert_eq!(ext.surface_associated(7), Some(rect(1, 9, 3, 50)));
    assert_eq!(ext.surface_associated(7), None);
}

#[test]
fn geometries_are_remembered_and_forgotten() {
    let mut ext = XWaylandExt::new();
    ext.configure_notify(window(true), rect(0, 0, -3, 20));
    assert_eq!(ext.pending_configs[&7], rect(0, 0, 1, 20));
    ext.forget(7);
    assert_eq!(ext.surface_associated(7), None);
}

#[test]
fn self_managed_windows_are_left_alone() {
    let mut ext = XWaylandExt::new();
    let window = X11Window { override_redirect: true, ..window(true) };
    assert_eq!(ext.configure_request(window, NOTHING), None);
    ext.configure_notify(window, rect(0, 0, 5, 5));
    assert!(ext.pending_configs.is_empty());
    assert_eq!(configure_without_state(window, NOTHING), None);
}

#[test]
fn windows_are_configured_without_server_state() {
    assert_eq!(configure_without_state(window(true), NOTHING), Some(rect(1, 2, 3, 4)));
    assert_eq!(configure_without_state(window(false), NOTHING), None);
}

#[test]
fn server_becomes_ready() {
    let mut ext = XWaylandExt::new();
    assert!(!ext.wm);
    ext.ready(3);
    assert!(ext.wm);
    assert_eq!(ext.display_number, Some(3));
}

#[test]
fn gone_windows_are_closed() {
    let window = Window {
        key: 1,
        surface: SurfaceHandle::X11(7),
        title: None,
        xdg_app_id: None,
        app_id: None,
        process_group: None,
        alive: true,
        dirty: false,
        transaction_done: true,
        surfaces: Vec::new(),
        bounds: rect(0, 0, 1, 1),
    };
    let layout = |id| Layout { id, primary: Some(1), secondary: None };
    let layouts = Layouts {
        windows: vec![window],
        loose: Vec::new(),
        layouts: vec![layout(5)],
        active: layout(5),
        pending_active: layout(5),
        visible: vec![1],
        parent_layouts: Vec::new(),
        focus: Some(1),
        x11: Vec::new(),
    };
    let layers = Layers {
        windows: Vec::new(),
        foreground: Vec::new(),
        background: Vec::new(),
        overlay: Vec::new(),
        focus: None,
    };
    let canvas = Canvas {
        orientation: Orientation { number: 0 },
        scale: FloatBits { bits: 1f64.to_bits() },
        size: Size { w: 1, h: 1 },
    };
    let mut windows = Windows::new(
        Output { canvas },
        layouts,
        layers,
        Orientation { number: 0 },
        StringMap::new(),
        StringMap::new(),
        Clock { wall_ms: 1, mono_ns: 0 },
    );
    let patterns = Patterns { valid: Vec::new(), accepted: Vec::new() };
    let mut out = Vec::new();
    windows.x11_gone(7, &patterns, 5, &mut out);
    assert_eq!(out, vec![Action::Kill { window: 1 }, Action::Unstall]);
    assert_eq!(windows.timer.start, 5);
}
