use catacomb::geometry::{FloatBits, Point, Rectangle, Size};
use catacomb::windows::scene::{Layer, SurfaceHandle};
use catacomb::windows::surface::{
    Anchor, CatacombLayerSurface, ExclusiveZone, LayerSurface, LockSize, LockSurface, PopupState,
    PopupSurface, Request, ShellSurface, Surface, SurfaceData, ToplevelState, ToplevelSurface,
    X11Surface,
};

const SIZE: Size = Size { w: 30, h: 40 };

fn rect() -> Rectangle {
    Rectangle { loc: Point { x: 1, y: 2 }, size: Size { w: 3, h: 4 } }
}

fn data() -> Option<SurfaceData> {
    let scale = FloatBits { bits: 1.5f64.to_bits() };
    Some(SurfaceData { preferred_fractional_scale: scale, buffer_scale: 2 })
}

fn toplevel(configured: bool) -> ToplevelSurface {
    ToplevelSurface {
        surface: 5,
        alive: true,
        initial_configure_sent: configured,
        pending: ToplevelState {
            size: None,
            fullscreen: false,
            activated: false,
            server_decoration: false,
        },
        current_size: Some(SIZE),
        geometry: Some(rect()),
        title: Some("title".into()),
        app_id: Some("app".into()),
        data: data(),
    }
}

fn x11() -> X11Surface {
    X11Surface {
        window: 77,
        alive: false,
        wl_surface: None,
        title: "x title".into(),
        class: "x class".into(),
        geometry: rect(),
        data: data(),
    }
}

#[test]
fn nothing_is_sent_before_the_initial_configure() {
    let mut surface = toplevel(false);
    assert_eq!(surface.initial_configure(), Request::Configure);
    assert_eq!(surface.resize(SIZE), Request::Nothing);
    assert_eq!(surface.set_fullscreen(true), Request::Nothing);
    assert_eq!(surface.set_activated(true), Request::Nothing);
    assert_eq!(surface.pending, ToplevelState {
        size: Some(SIZE),
        fullscreen: true,
        activated: true,
        server_decoration: false,
    });
    let state = toplevel(true).pending;
    assert_eq!(surface.set_state(state), Request::Nothing);
    assert_eq!(surface.pending, state);
}

#[test]
fn toplevels_are_configured() {
    let mut surface = toplevel(true);
    assert_eq!(surface.initial_configure(), Request::Nothing);
    assert_eq!(surface.resize(SIZE), Request::Configure);
    assert_eq!(surface.set_fullscreen(true), Request::Configure);
    assert_eq!(surface.set_activated(true), Request::Configure);
    assert_eq!(surface.send_close(), Request::Close);
    let state = surface.pending;
    assert_eq!(surface.set_state(state), Request::Configure);
    assert_eq!(surface.acked_size(), SIZE);
    assert_eq!(surface.geometry(), Some(rect()));
    assert_eq!(surface.title(), Some("title".to_string()));
    assert_eq!(surface.app_id(), Some("app".to_string()));
    assert_eq!((Surface::surface(&surface), surface.maybe_surface()), (5, Some(5)));
    surface.current_size = None;
    assert_eq!(surface.acked_size(), Size { w: 0, h: 0 });
}

#[test]
fn new_toplevels_are_fullscreen() {
    let mut surface = toplevel(false);
    surface.pending.size = Some(SIZE);
    surface.prepare();
    assert_eq!(surface.pending, ToplevelState {
        size: Some(SIZE),
        fullscreen: true,
        activated: true,
        server_decoration: true,
    });
}

#[test]
fn surfaces_have_scales() {
    let mut surface = toplevel(true);
    assert_eq!(surface.buffer_scale(), 2);
    assert_eq!(surface.preferred_fractional_scale().unwrap().bits, 1.5f64.to_bits());
    surface.data = None;
    assert_eq!(surface.buffer_scale(), 1);
    assert_eq!(surface.preferred_fractional_scale(), None);
}

#[test]
fn x11_windows_are_always_configured() {
    let mut surface = ShellSurface::X11(x11());
    assert_eq!(surface.handle(), SurfaceHandle::X11(77));
    assert!(surface.initial_configure_sent());
    assert_eq!(surface.initial_configure(), Request::Nothing);
    assert_eq!(surface.maybe_surface(), None);
    assert!(!surface.alive());
    assert_eq!(surface.buffer_scale(), 1);
    let place = Rectangle { loc: Point { x: 0, y: 0 }, size: SIZE };
    assert_eq!(surface.resize(SIZE), Request::X11Configure(place));
    assert_eq!(surface.set_fullscreen(true), Request::X11Fullscreen(true));
    assert_eq!(surface.set_activated(false), Request::X11Activated(false));
    assert_eq!(surface.send_close(), Request::X11Close);
    assert_eq!(surface.acked_size(), rect().size);
    assert_eq!(surface.geometry(), Some(rect()));
    assert_eq!(surface.title(), Some("x title".to_string()));
    assert_eq!(surface.app_id(), Some("x class".to_string()));
    assert_eq!(surface, ShellSurface::X11(x11()));
    let mut window = x11();
    window.wl_surface = Some(9);
    let surface = ShellSurface::X11(window);
    assert_eq!(Surface::surface(&surface), 9);
    assert_eq!(surface.buffer_scale(), 2);
}

#[test]
fn shell_surfaces_forward_to_toplevels() {
    let mut surface = ShellSurface::Xdg(toplevel(true));
    assert_eq!(surface.handle(), SurfaceHandle::Xdg(5));
    assert_eq!(surface.set_state(()), Request::Nothing);
    assert_eq!(surface.resize(SIZE), Request::Configure);
    assert_eq!(surface.set_fullscreen(true), Request::Configure);
    assert_eq!(surface.set_activated(true), Request::Configure);
    assert_eq!(surface.send_close(), Request::Close);
    assert!(surface.alive());
    assert_eq!(surface.acked_size(), SIZE);
    match surface {
        ShellSurface::Xdg(s) => {
            assert!(s.pending.fullscreen && s.pending.activated);
            assert_eq!(s.pending.size, Some(SIZE));
        },
        ShellSurface::X11(_) => unreachable!(),
    }
}

#[test]
fn popups_keep_their_size() {
    let pending = PopupState { rect_size: SIZE, geometry: rect() };
    let mut surface = PopupSurface {
        surface: 5,
        alive: true,
        initial_configure_sent: true,
        pending,
        geometry: None,
        data: None,
    };
    assert_eq!(surface.resize(Size { w: 1, h: 1 }), Request::Nothing);
    assert_eq!(surface.acked_size(), SIZE);
    assert_eq!(surface.send_close(), Request::Nothing);
    assert_eq!(surface.title(), None);
    let state = PopupState { rect_size: Size { w: 9, h: 9 }, ..pending };
    assert_eq!(surface.set_state(state), Request::Configure);
    assert_eq!(surface.acked_size(), Size { w: 9, h: 9 });
}

#[test]
fn layers_start_without_a_place() {
    let inner = LayerSurface {
        surface: 5,
        alive: true,
        initial_configure_sent: false,
        pending_size: None,
        current_size: None,
        data: None,
    };
    let mut surface = CatacombLayerSurface::new(Layer::Overlay, inner);
    assert_eq!(surface.layer(), Layer::Overlay);
    assert_eq!(surface.exclusive_zone, ExclusiveZone::Neutral);
    let nowhere = Anchor { top: false, bottom: false, left: false, right: false };
    assert_eq!(surface.anchor, nowhere);
    assert_eq!(surface.initial_configure(), Request::Configure);
    assert_eq!(surface.resize(SIZE), Request::Nothing);
    assert_eq!(surface.surface.pending_size, Some(SIZE));
    assert_eq!(surface.acked_size(), Size { w: 0, h: 0 });
    surface.surface.initial_configure_sent = true;
    assert_eq!(surface.set_state(None), Request::Configure);
    assert_eq!(surface.surface.pending_size, None);
    assert_eq!(surface.geometry(), None);
}

#[test]
fn lock_surfaces_are_configured_at_once() {
    let mut surface = LockSurface {
        surface: 5,
        alive: true,
        pending_size: None,
        current_size: Some(LockSize { w: 30, h: u32::MAX }),
        data: None,
    };
    assert!(surface.initial_configure_sent());
    assert_eq!(surface.initial_configure(), Request::Nothing);
    assert_eq!(surface.acked_size(), Size { w: 30, h: -1 });
    assert_eq!(surface.resize(Size { w: -1, h: 40 }), Request::Configure);
    assert_eq!(surface.pending_size, Some(LockSize { w: u32::MAX, h: 40 }));
    assert_eq!(surface.set_fullscreen(true), Request::Nothing);
    assert_eq!(surface.app_id(), None);
    surface.current_size = None;
    assert_eq!(surface.acked_size(), Size { w: 0, h: 0 });
}
