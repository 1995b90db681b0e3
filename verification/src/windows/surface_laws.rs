//! What each kind of surface is told.

use vstd::prelude::*;

use crate::geometry::{Point, Rectangle, Size};
use crate::windows::scene::SurfaceHandle;
use crate::windows::surface::{
    attached_fraction, attached_scale, configure_if, CatacombLayerSurface, InputSurfaceKind,
    LockSize, LockSurface, PopupState, PopupSurface, Request, ShellSurface, Surface, SurfaceData,
    ToplevelState, ToplevelSurface, X11Surface,
};

verus! {

/// A configure is sent exactly if it can be.
pub proof fn law_configures_are_conditional(configured: bool)
    ensures
        configured ==> configure_if(configured) == Request::Configure,
        !configured ==> configure_if(configured) == Request::Nothing,
{
}

/// Rendering state which is missing means no fractional scale, and a buffer scale of one.
pub proof fn law_missing_rendering_state(data: SurfaceData)
    ensures
        attached_scale(Some(data)) == data.buffer_scale,
        attached_scale(None) == 1,
        attached_fraction(Some(data)) == Some(data.preferred_fractional_scale),
        attached_fraction(None) is None,
{
}

/// New windows are in fullscreen, active and decorated by the server, with the size they had.
pub proof fn law_new_toplevels_fill_the_screen(t: ToplevelSurface)
    ensures
        t.prepared().pending.fullscreen,
        t.prepared().pending.activated,
        t.prepared().pending.server_decoration,
        t.prepared().pending.size == t.pending.size,
        t.prepared() == (ToplevelSurface { pending: t.prepared().pending, ..t }),
{
}

/// Each change of a toplevel is a part of its next state and leaves the other parts alone.
///
/// The client is told at once if it has got its initial configure.
pub proof fn law_toplevels_are_changed_in_part(
    t: ToplevelSurface,
    size: Size,
    fullscreen: bool,
    activated: bool,
    state: ToplevelState,
)
    ensures
        t.with_size(size) == (ToplevelSurface {
            pending: ToplevelState {
                size: Some(size),
                fullscreen: t.pending.fullscreen,
                activated: t.pending.activated,
                server_decoration: t.pending.server_decoration,
            },
            ..t
        }),
        t.with_fullscreen(fullscreen) == (ToplevelSurface {
            pending: ToplevelState {
                size: t.pending.size,
                fullscreen: fullscreen,
                activated: t.pending.activated,
                server_decoration: t.pending.server_decoration,
            },
            ..t
        }),
        t.with_activated(activated) == (ToplevelSurface {
            pending: ToplevelState {
                size: t.pending.size,
                fullscreen: t.pending.fullscreen,
                activated: activated,
                server_decoration: t.pending.server_decoration,
            },
            ..t
        }),
        t.with_state(state) == (ToplevelSurface { pending: state, ..t }),
        t.takes_state(),
        t.initial_configure_sent ==> {
            &&& t.configured()
            &&& t.size_request(size) == Request::Configure
            &&& t.fullscreen_request(fullscreen) == Request::Configure
            &&& t.activated_request(activated) == Request::Configure
        },
        !t.initial_configure_sent ==> {
            &&& !t.configured()
            &&& t.size_request(size) == Request::Nothing
            &&& t.fullscreen_request(fullscreen) == Request::Nothing
            &&& t.activated_request(activated) == Request::Nothing
        },
        t.close_request() == Request::Close,
{
}

/// What a toplevel tells about itself is what its client has set.
pub proof fn law_toplevels_describe_themselves(t: ToplevelSurface)
    ensures
        Surface::wl_surface(&t) == Some(t.surface),
        t.is_alive() == t.alive,
        t.current_size matches Some(size) ==> t.size_acked() == size,
        t.current_size is None ==> t.size_acked() == (Size { w: 0, h: 0 }),
        t.visible_bounds() == t.geometry,
        t.title_text() == t.title,
        t.app_id_text() == t.app_id,
        t.attached() == t.data,
{
}

/// X11 windows are told by X11 requests, with a size as a geometry at the origin.
///
/// They need no initial configure, and nothing is kept for a later one.
pub proof fn law_x11_windows_are_told_at_once(
    x: X11Surface,
    size: Size,
    fullscreen: bool,
    activated: bool,
)
    ensures
        ({
            let s = ShellSurface::X11(x);
            &&& s.size_request(size) == Request::X11Configure(
                Rectangle { loc: Point { x: 0, y: 0 }, size },
            )
            &&& s.fullscreen_request(fullscreen) == Request::X11Fullscreen(fullscreen)
            &&& s.activated_request(activated) == Request::X11Activated(activated)
            &&& s.close_request() == Request::X11Close
            &&& s.configured()
            &&& s.with_size(size) == s
            &&& s.with_fullscreen(fullscreen) == s
            &&& s.with_activated(activated) == s
            &&& Surface::wl_surface(&s) == x.wl_surface
            &&& s.is_alive() == x.alive
            &&& s.size_acked() == x.geometry.size
            &&& s.visible_bounds() == Some(x.geometry)
            &&& s.title_text() == Some(x.title)
            &&& s.app_id_text() == Some(x.class)
            &&& x.wl_surface is Some ==> s.attached() == x.data
            &&& x.wl_surface is None ==> s.attached() is None
            &&& s.as_handle() == SurfaceHandle::X11(x.window)
            &&& !s.takes_state()
        }),
{
}

/// A toplevel behaves as a window just as it does by itself.
pub proof fn law_shell_surfaces_are_toplevels(
    t: ToplevelSurface,
    size: Size,
    fullscreen: bool,
    activated: bool,
)
    ensures
        ({
            let s = ShellSurface::Xdg(t);
            &&& s.size_request(size) == t.size_request(size)
            &&& s.fullscreen_request(fullscreen) == t.fullscreen_request(fullscreen)
            &&& s.activated_request(activated) == t.activated_request(activated)
            &&& s.close_request() == t.close_request()
            &&& s.configured() == t.initial_configure_sent
            &&& s.with_size(size) == ShellSurface::Xdg(t.with_size(size))
            &&& s.with_fullscreen(fullscreen) == ShellSurface::Xdg(t.with_fullscreen(fullscreen))
            &&& s.with_activated(activated) == ShellSurface::Xdg(t.with_activated(activated))
            &&& Surface::wl_surface(&s) == Some(t.surface)
            &&& s.is_alive() == t.alive
            &&& s.size_acked() == t.size_acked()
            &&& s.visible_bounds() == t.geometry
            &&& s.title_text() == t.title
            &&& s.app_id_text() == t.app_id
            &&& s.attached() == t.data
            &&& s.as_handle() == SurfaceHandle::Xdg(t.surface)
            &&& !s.takes_state()
            &&& s.with_state(()) == s
        }),
{
}

/// A popup takes its whole state, and is told of nothing else.
pub proof fn law_popups_take_their_state_only(
    p: PopupSurface,
    state: PopupState,
    size: Size,
    flag: bool,
)
    ensures
        p.with_state(state) == (PopupSurface { pending: state, ..p }),
        p.takes_state(),
        p.configured() == p.initial_configure_sent,
        p.with_size(size) == p,
        p.with_fullscreen(flag) == p,
        p.with_activated(flag) == p,
        p.size_request(size) == Request::Nothing,
        p.fullscreen_request(flag) == Request::Nothing,
        p.activated_request(flag) == Request::Nothing,
        p.close_request() == Request::Nothing,
        p.size_acked() == p.pending.rect_size,
        p.visible_bounds() == p.geometry,
        Surface::wl_surface(&p) == Some(p.surface),
        p.is_alive() == p.alive,
        p.title_text() is None,
        p.app_id_text() is None,
        p.attached() == p.data,
{
}

/// A layer takes a size, which its client is told once it was configured.
pub proof fn law_layers_take_a_size(
    l: CatacombLayerSurface,
    state: Option<Size>,
    size: Size,
    flag: bool,
)
    ensures
        l.with_state(state).surface.pending_size == state,
        l.with_size(size).surface.pending_size == Some(size),
        l.with_state(state).surface.current_size == l.surface.current_size,
        l.with_state(state).layer == l.layer,
        l.with_state(state).anchor == l.anchor,
        l.with_state(state).exclusive_zone == l.exclusive_zone,
        l.with_state(state).surface.surface == l.surface.surface,
        l.takes_state(),
        l.configured() == l.surface.initial_configure_sent,
        l.surface.initial_configure_sent ==> l.size_request(size) == Request::Configure,
        !l.surface.initial_configure_sent ==> l.size_request(size) == Request::Nothing,
        l.surface.current_size matches Some(acked) ==> l.size_acked() == acked,
        l.surface.current_size is None ==> l.size_acked() == (Size { w: 0, h: 0 }),
        l.with_fullscreen(flag) == l,
        l.with_activated(flag) == l,
        l.fullscreen_request(flag) == Request::Nothing,
        l.activated_request(flag) == Request::Nothing,
        l.close_request() == Request::Nothing,
        l.visible_bounds() is None,
        Surface::wl_surface(&l) == Some(l.surface.surface),
        l.is_alive() == l.surface.alive,
        l.title_text() is None,
        l.app_id_text() is None,
        l.attached() == l.surface.data,
{
}

/// A lock surface takes a size and is told so at once.
pub proof fn law_lock_surfaces_take_a_size(
    l: LockSurface,
    state: Option<LockSize>,
    size: Size,
    flag: bool,
)
    ensures
        l.with_state(state) == (LockSurface { pending_size: state, ..l }),
        l.takes_state(),
        l.configured(),
        size.w >= 0 && size.h >= 0 ==> (l.with_size(size).pending_size matches Some(new) && new.w
            == size.w && new.h == size.h),
        l.size_request(size) == Request::Configure,
        l.current_size matches Some(acked) ==> acked.w <= i32::MAX && acked.h <= i32::MAX ==> (
        l.size_acked().w == acked.w && l.size_acked().h == acked.h),
        l.current_size is None ==> l.size_acked() == (Size { w: 0, h: 0 }),
        l.with_fullscreen(flag) == l,
        l.with_activated(flag) == l,
        l.fullscreen_request(flag) == Request::Nothing,
        l.activated_request(flag) == Request::Nothing,
        l.close_request() == Request::Nothing,
        l.visible_bounds() is None,
        Surface::wl_surface(&l) == Some(l.surface),
        l.is_alive() == l.alive,
        l.title_text() is None,
        l.app_id_text() is None,
        l.attached() == l.data,
{
}

/// The App ID is taken from a touched surface, which stays the same otherwise.
pub proof fn law_app_ids_are_taken(key: u64, app_id: Option<String>)
    ensures
        InputSurfaceKind::Layout((key, app_id)).id() == app_id,
        InputSurfaceKind::Layer((key, app_id)).id() == app_id,
        InputSurfaceKind::Layout((key, app_id)).anonymous() == InputSurfaceKind::Layout((key, None)),
        InputSurfaceKind::Layer((key, app_id)).anonymous() == InputSurfaceKind::Layer((key, None)),
{
}

} // verus!
