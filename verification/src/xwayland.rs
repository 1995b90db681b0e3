//! X11 windows.

use std::collections::HashMap;

use vstd::prelude::*;

use crate::action::Action;
use crate::app_id::Patterns;
use crate::backend::modes::{signed, to_signed};
use crate::geometry::{Point, Rectangle, Size};
use crate::windows::state::Windows;

verus! {

broadcast use {
    vstd::std_specs::hash::group_hash_axioms,
};

/// State of the X11 server.
pub struct XWaylandExt {
    /// Whether the X11 window manager is running.
    pub wm: bool,
    pub display_number: Option<u32>,
    /// Geometries for windows which are not mapped yet.
    pub pending_configs: HashMap<u32, Rectangle>,
}

/// Parts of a geometry asked for by a client.
#[derive(Clone, Copy, Debug, PartialEq, Eq, Structural)]
pub struct GeometryRequest {
    pub x: Option<i32>,
    pub y: Option<i32>,
    pub w: Option<u32>,
    pub h: Option<u32>,
}

/// X11 window which asks for a geometry.
#[derive(Clone, Copy, Debug, PartialEq, Eq, Structural)]
pub struct X11Window {
    pub id: u32,
    pub override_redirect: bool,
    pub mapped: bool,
    pub geometry: Rectangle,
}

/// Length of at least one.
pub open spec fn at_least_one(length: int) -> i32 {
    if length < 1 {
        1
    } else {
        length as i32
    }
}

/// Geometry with at least one pixel.
pub open spec fn not_empty(geometry: Rectangle) -> Rectangle {
    Rectangle {
        loc: geometry.loc,
        size: Size {
            w: at_least_one(geometry.size.w as int),
            h: at_least_one(geometry.size.h as int),
        },
    }
}

/// Geometry with the requested parts changed.
pub open spec fn requested(geometry: Rectangle, request: GeometryRequest) -> Rectangle {
    Rectangle {
        loc: Point {
            x: match request.x {
                Some(x) => x,
                None => geometry.loc.x,
            },
            y: match request.y {
                Some(y) => y,
                None => geometry.loc.y,
            },
        },
        size: Size {
            w: match request.w {
                Some(w) => signed(w) as i32,
                None => geometry.size.w,
            },
            h: match request.h {
                Some(h) => signed(h) as i32,
                None => geometry.size.h,
            },
        },
    }
}

/// Keep a geometry from being empty.
fn clamp_size(geometry: Rectangle) -> (r: Rectangle)
    ensures
        r == not_empty(geometry),
{
    let mut geometry = geometry;
    if geometry.size.w < 1 {
        geometry.size.w = 1;
    }
    if geometry.size.h < 1 {
        geometry.size.h = 1;
    }
    geometry
}

/// Get the geometry for a request.
fn apply_request(geometry: Rectangle, request: GeometryRequest) -> (r: Rectangle)
    ensures
        r == not_empty(requested(geometry, request)),
        request.x matches Some(x) ==> r.loc.x == x,
        request.y matches Some(y) ==> r.loc.y == y,
        request.w matches Some(w) ==> 1 <= w <= i32::MAX ==> r.size.w == w,
        request.h matches Some(h) ==> 1 <= h <= i32::MAX ==> r.size.h == h,
{
    let mut rect = geometry;
    if let Some(x) = request.x {
        rect.loc.x = x;
    }
    if let Some(y) = request.y {
        rect.loc.y = y;
    }
    if let Some(w) = request.w {
        rect.size.w = to_signed(w);
    }
    if let Some(h) = request.h {
        rect.size.h = to_signed(h);
    }
    clamp_size(rect)
}

/// Geometry that a window is configured with at once.
pub open spec fn configured_at_once(window: X11Window, request: GeometryRequest) -> Option<
    Rectangle,
> {
    if window.override_redirect || !window.mapped {
        None
    } else {
        Some(not_empty(requested(window.geometry, request)))
    }
}

/// Geometries after a window has asked for one.
pub open spec fn pending_after_request(
    pending: Map<u32, Rectangle>,
    window: X11Window,
    request: GeometryRequest,
) -> Map<u32, Rectangle> {
    if window.override_redirect || window.mapped {
        pending
    } else {
        pending.insert(window.id, not_empty(requested(window.geometry, request)))
    }
}

/// Geometries after a window was given one.
pub open spec fn pending_after_notify(
    pending: Map<u32, Rectangle>,
    window: X11Window,
    geometry: Rectangle,
) -> Map<u32, Rectangle> {
    if window.override_redirect {
        pending
    } else {
        pending.insert(window.id, not_empty(geometry))
    }
}

/// Geometry remembered for a window.
pub open spec fn remembered(pending: Map<u32, Rectangle>, id: u32) -> Option<Rectangle> {
    if pending.contains_key(id) {
        Some(pending[id])
    } else {
        None
    }
}

impl XWaylandExt {
    /// Create the state of a server which is starting.
    pub fn new() -> (r: XWaylandExt)
        ensures
            !r.wm,
            r.display_number is None,
            r.pending_configs@ == Map::<u32, Rectangle>::empty(),
    {
        XWaylandExt { wm: false, display_number: None, pending_configs: HashMap::new() }
    }

    /// Note that the server is ready.
    pub fn ready(&mut self, display_number: u32)
        ensures
            final(self).wm,
            final(self).display_number == Some(display_number),
            final(self).pending_configs == old(self).pending_configs,
    {
        self.display_number = Some(display_number);
        self.wm = true;
    }

    /// Take the geometry for a window which got its surface.
    pub fn surface_associated(&mut self, id: u32) -> (r: Option<Rectangle>)
        ensures
            r == remembered(old(self).pending_configs@, id),
            r == (if old(self).pending_configs@.contains_key(id) {
                Some(old(self).pending_configs@[id])
            } else {
                None
            }),
            final(self).pending_configs@ == old(self).pending_configs@.remove(id),
            final(self).wm == old(self).wm,
            final(self).display_number == old(self).display_number,
    {
        let r = self.pending_configs.remove(&id);
        assert(self.pending_configs@ =~= old(self).pending_configs@.remove(id));
        r
    }

    /// Forget the geometry for a window which is gone.
    pub fn forget(&mut self, id: u32)
        ensures
            final(self).pending_configs@ == old(self).pending_configs@.remove(id),
            final(self).wm == old(self).wm,
            final(self).display_number == old(self).display_number,
    {
        let _ = self.surface_associated(id);
    }

    /// Handle a window's request for a geometry.
    ///
    /// Returns the geometry to configure a mapped window with. For any other
    /// window it is remembered. Windows which manage themselves are left alone.
    pub fn configure_request(&mut self, window: X11Window, request: GeometryRequest) -> (r: Option<
        Rectangle,
    >)
        ensures
            r == configured_at_once(window, request),
            final(self).pending_configs@ == pending_after_request(
                old(self).pending_configs@,
                window,
                request,
            ),
            r == (if !window.override_redirect && window.mapped {
                Some(not_empty(requested(window.geometry, request)))
            } else {
                None
            }),
            final(self).pending_configs@ == (if !window.override_redirect && !window.mapped {
                old(self).pending_configs@.insert(
                    window.id,
                    not_empty(requested(window.geometry, request)),
                )
            } else {
                old(self).pending_configs@
            }),
            final(self).wm == old(self).wm,
            final(self).display_number == old(self).display_number,
    {
        if window.override_redirect {
            return None;
        }
        let rect = apply_request(window.geometry, request);
        if window.mapped {
            Some(rect)
        } else {
            self.pending_configs.insert(window.id, rect);
            None
        }
    }

    /// Remember a window's geometry.
    ///
    /// Windows which manage themselves are left alone.
    pub fn configure_notify(&mut self, window: X11Window, geometry: Rectangle)
        ensures
            final(self).pending_configs@ == pending_after_notify(
                old(self).pending_configs@,
                window,
                geometry,
            ),
            final(self).pending_configs@ == (if !window.override_redirect {
                old(self).pending_configs@.insert(window.id, not_empty(geometry))
            } else {
                old(self).pending_configs@
            }),
            final(self).wm == old(self).wm,
            final(self).display_number == old(self).display_number,
    {
        if window.override_redirect {
            return;
        }
        let rect = clamp_size(geometry);
        self.pending_configs.insert(window.id, rect);
    }
}

/// Get the geometry to configure a mapped window with, if there is no X11 state.
///
/// Nothing can be remembered in that case.
pub fn configure_without_state(window: X11Window, request: GeometryRequest) -> (r: Option<Rectangle>)
    ensures
        r == configured_at_once(window, request),
        r == (if !window.override_redirect && window.mapped {
            Some(not_empty(requested(window.geometry, request)))
        } else {
            None
        }),
{
    if !window.override_redirect && window.mapped {
        Some(apply_request(window.geometry, request))
    } else {
        None
    }
}

impl Windows {
    /// Handle the end of an X11 window, whether it was unmapped or destroyed.
    pub fn x11_gone(
        &mut self,
        window_id: u32,
        patterns: &Patterns,
        now: u64,
        out: &mut Vec<Action>,
    )
        ensures
            *final(self) == old(self).with_x11_dead(window_id, now),
            final(out)@ == old(out)@ + old(self).x11_closing(window_id, *patterns) + seq![
                Action::Unstall,
            ],
    {
        self.mark_dead_x11(window_id, patterns, now, out);
        out.push(Action::Unstall);
    }
}

/// A window is configured with at least one pixel, and with its own geometry if
/// nothing else was asked for.
pub proof fn law_configured_size(geometry: Rectangle, request: GeometryRequest)
    ensures
        not_empty(requested(geometry, request)).size.w >= 1,
        not_empty(requested(geometry, request)).size.h >= 1,
        request == (GeometryRequest { x: None, y: None, w: None, h: None }) && geometry.size.w >= 1
            && geometry.size.h >= 1 ==> not_empty(requested(geometry, request)) == geometry,
        not_empty(not_empty(geometry)) == not_empty(geometry),
{
}

/// Each part of a requested geometry lands in its own field, whatever else is requested.
///
/// Parts which are not requested stay as they are, but for an empty size.
pub proof fn law_requested_parts_land_in_their_fields(
    geometry: Rectangle,
    request: GeometryRequest,
)
    ensures
        request.x matches Some(x) ==> not_empty(requested(geometry, request)).loc.x == x,
        request.y matches Some(y) ==> not_empty(requested(geometry, request)).loc.y == y,
        request.w matches Some(w) ==> 1 <= w <= i32::MAX ==> not_empty(
            requested(geometry, request),
        ).size.w == w,
        request.h matches Some(h) ==> 1 <= h <= i32::MAX ==> not_empty(
            requested(geometry, request),
        ).size.h == h,
        request.w matches Some(w) ==> w == 0 || w > i32::MAX ==> not_empty(
            requested(geometry, request),
        ).size.w == 1,
        request.h matches Some(h) ==> h == 0 || h > i32::MAX ==> not_empty(
            requested(geometry, request),
        ).size.h == 1,
        request.x is None ==> not_empty(requested(geometry, request)).loc.x == geometry.loc.x,
        request.y is None ==> not_empty(requested(geometry, request)).loc.y == geometry.loc.y,
        request.w is None && geometry.size.w >= 1 ==> not_empty(requested(geometry, request)).size.w
            == geometry.size.w,
        request.h is None && geometry.size.h >= 1 ==> not_empty(requested(geometry, request)).size.h
            == geometry.size.h,
        request.w is None && geometry.size.w < 1 ==> not_empty(requested(geometry, request)).size.w
            == 1,
        request.h is None && geometry.size.h < 1 ==> not_empty(requested(geometry, request)).size.h
            == 1,
{
}

/// A geometry without pixels grows to one pixel, and every other one stays as it is.
pub proof fn law_geometries_have_a_pixel(geometry: Rectangle)
    ensures
        not_empty(geometry).loc == geometry.loc,
        geometry.size.w >= 1 ==> not_empty(geometry).size.w == geometry.size.w,
        geometry.size.h >= 1 ==> not_empty(geometry).size.h == geometry.size.h,
        geometry.size.w < 1 ==> not_empty(geometry).size.w == 1,
        geometry.size.h < 1 ==> not_empty(geometry).size.h == 1,
{
}

/// A mapped window is configured at once, and an unmapped one gets its geometry later.
///
/// Windows which manage themselves are left alone, and geometries of other
/// windows are kept.
pub proof fn law_unmapped_windows_are_configured_later(
    pending: Map<u32, Rectangle>,
    window: X11Window,
    request: GeometryRequest,
    other: u32,
)
    ensures
        ({
            let after = pending_after_request(pending, window, request);
            let wanted = not_empty(requested(window.geometry, request));
            &&& window.override_redirect ==> configured_at_once(window, request) is None && after
                == pending
            &&& !window.override_redirect && window.mapped ==> configured_at_once(window, request)
                == Some(wanted) && after == pending
            &&& !window.override_redirect && !window.mapped ==> configured_at_once(
                window,
                request,
            ) is None && after.contains_pair(window.id, wanted)
            &&& other != window.id ==> after.contains_key(other) == pending.contains_key(other)
            &&& other != window.id && pending.contains_key(other) ==> after[other] == pending[other]
        }),
{
}

/// A window keeps the geometry it was given until it has its surface.
pub proof fn law_given_geometries_are_remembered(
    pending: Map<u32, Rectangle>,
    window: X11Window,
    geometry: Rectangle,
    other: u32,
)
    ensures
        ({
            let after = pending_after_notify(pending, window, geometry);
            &&& window.override_redirect ==> after == pending
            &&& !window.override_redirect ==> after.contains_key(window.id)
                && after[window.id].loc == geometry.loc
            &&& !window.override_redirect && geometry.size.w >= 1 && geometry.size.h >= 1
                ==> after[window.id] == geometry
            &&& other != window.id ==> after.contains_key(other) == pending.contains_key(other)
            &&& other != window.id && pending.contains_key(other) ==> after[other] == pending[other]
        }),
{
}

/// A window which asked for a geometry before it was mapped gets it with its surface.
pub proof fn law_remembered_geometries_are_used(
    pending: Map<u32, Rectangle>,
    window: X11Window,
    request: GeometryRequest,
)
    requires
        !window.override_redirect,
        !window.mapped,
    ensures
        remembered(pending_after_request(pending, window, request), window.id) == Some(
            not_empty(requested(window.geometry, request)),
        ),
        remembered(pending.remove(window.id), window.id) is None,
        remembered(Map::empty(), window.id) is None,
{
}

} // verus!
