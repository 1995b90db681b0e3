//! How windows and surfaces are found.

use vstd::prelude::*;

use crate::lists::lemma_first_index;
use crate::windows::scene::{
    has_id, has_key, has_window, is_layer, LayerWindow, Layers, Layout, LayoutPosition, Layouts,
    SurfaceHandle, Window,
};

verus! {

/// A key stands for the first window which has it, in the layouts or else among the loose ones.
pub proof fn law_windows_are_found_by_key(l: Layouts, key: u64, at: int)
    ensures
        0 <= at < l.windows.len() && l.windows[at].key == key && (forall|i: int|
            0 <= i < at ==> (#[trigger] l.windows[i]).key != key) ==> l.window(key) == Some(
            l.windows[at],
        ),
        (forall|i: int| 0 <= i < l.windows.len() ==> (#[trigger] l.windows[i]).key != key) && 0 <= at
            < l.loose.len() && l.loose[at].key == key && (forall|i: int|
            0 <= i < at ==> (#[trigger] l.loose[i]).key != key) ==> l.window(key) == Some(
            l.loose[at],
        ),
        l.window(key) matches Some(w) ==> w.key == key,
        l.window(key) is None ==> (forall|i: int|
            0 <= i < l.windows.len() ==> (#[trigger] l.windows[i]).key != key) && (forall|i: int|
            0 <= i < l.loose.len() ==> (#[trigger] l.loose[i]).key != key),
        l.resolved(Some(key)) == l.window(key),
        l.resolved(None) is None,
{
    lemma_first_index(l.windows@, has_key(key), 0);
    lemma_first_index(l.loose@, has_key(key), 0);
    assert forall|i: int| 0 <= i < l.windows.len() implies has_key(key)(l.windows@[i]) == ((
    #[trigger] l.windows[i]).key == key) by {}
    assert forall|i: int| 0 <= i < l.loose.len() implies has_key(key)(l.loose@[i]) == ((
    #[trigger] l.loose[i]).key == key) by {}
}

/// A toplevel is its own surface, and an X11 window has the one announced for it.
pub proof fn law_handles_have_their_surface(l: Layouts, surface: u64, window: u32, at: int)
    ensures
        l.wl_surface(SurfaceHandle::Xdg(surface)) == Some(surface),
        0 <= at < l.x11.len() && l.x11[at].window == window && (forall|i: int|
            0 <= i < at ==> (#[trigger] l.x11[i]).window != window) ==> {
            &&& l.wl_surface(SurfaceHandle::X11(window)) == l.x11[at].wl_surface
            &&& l.same_surface(SurfaceHandle::X11(window), SurfaceHandle::X11(window))
                == l.x11[at].alive
        },
        (forall|i: int| 0 <= i < l.x11.len() ==> (#[trigger] l.x11[i]).window != window) ==> {
            &&& l.wl_surface(SurfaceHandle::X11(window)) is None
            &&& !l.same_surface(SurfaceHandle::X11(window), SurfaceHandle::X11(window))
        },
{
    lemma_first_index(l.x11@, has_window(window), 0);
    assert forall|i: int| 0 <= i < l.x11.len() implies has_window(window)(l.x11@[i]) == ((
    #[trigger] l.x11[i]).window == window) by {}
}

/// Handles of the same surface are equal, and a toplevel is always the same as itself.
pub proof fn law_same_surfaces_are_equal(l: Layouts, a: SurfaceHandle, b: SurfaceHandle)
    ensures
        l.same_surface(a, b) ==> a == b,
        l.same_surface(a, b) == l.same_surface(b, a),
        a is Xdg ==> l.same_surface(a, a),
{
}

/// The first window in the layouts with a surface is found for it.
pub proof fn law_windows_are_found_by_surface(
    l: Layouts,
    surface: u64,
    handle: SurfaceHandle,
    at: int,
)
    requires
        0 <= at < l.windows.len(),
    ensures
        l.wl_surface(l.windows[at].surface) == Some(surface) && (forall|i: int|
            0 <= i < at ==> l.wl_surface((#[trigger] l.windows[i]).surface) != Some(surface))
            ==> l.surface_window(surface) == Some(l.windows[at]),
        l.surface_window(surface) is None ==> l.wl_surface(l.windows[at].surface) != Some(surface),
        l.surface_window(surface) matches Some(w) ==> l.wl_surface(w.surface) == Some(surface),
        l.same_surface(l.windows[at].surface, handle) && (forall|i: int|
            0 <= i < at ==> !l.same_surface((#[trigger] l.windows[i]).surface, handle))
            ==> l.handle_window(handle) == Some(l.windows[at]),
        l.handle_window(handle) is None ==> !l.same_surface(l.windows[at].surface, handle),
        l.handle_window(handle) matches Some(w) ==> w.surface == handle,
{
    let shows = l.shows(surface);
    let has = l.has_surface(handle);
    lemma_first_index(l.windows@, shows, 0);
    lemma_first_index(l.windows@, has, 0);
    assert forall|i: int| 0 <= i < l.windows.len() implies shows(l.windows@[i]) == (l.wl_surface(
        (#[trigger] l.windows[i]).surface,
    ) == Some(surface)) by {}
    assert forall|i: int| 0 <= i < l.windows.len() implies has(l.windows@[i]) == l.same_surface(
        (#[trigger] l.windows[i]).surface,
        handle,
    ) by {}
}

/// The layout with an ID is the first one which has it.
pub proof fn law_layouts_are_found_by_id(l: Layouts, id: u64, at: int)
    requires
        0 <= at < l.layouts.len(),
    ensures
        l.layouts[at].id == id && (forall|i: int|
            0 <= i < at ==> (#[trigger] l.layouts[i]).id != id) ==> l.index_of(id) == Some(at),
        l.index_of(id) is None ==> l.layouts[at].id != id,
        l.index_of(id) matches Some(i) ==> 0 <= i < l.layouts.len() && l.layouts[i].id == id,
{
    lemma_first_index(l.layouts@, has_id(id), 0);
    assert forall|i: int| 0 <= i < l.layouts.len() implies has_id(id)(l.layouts@[i]) == ((
    #[trigger] l.layouts[i]).id == id) by {}
}

/// Both places of a layout are told apart, and there is no window outside of the layouts.
pub proof fn law_places_hold_their_window(l: Layouts, index: usize)
    ensures
        index < l.layouts.len() ==> {
            &&& l.key_at(LayoutPosition { index, secondary: false })
                == l.layouts[index as int].primary
            &&& l.key_at(LayoutPosition { index, secondary: true })
                == l.layouts[index as int].secondary
        },
        index >= l.layouts.len() ==> {
            &&& l.key_at(LayoutPosition { index, secondary: false }) is None
            &&& l.key_at(LayoutPosition { index, secondary: true }) is None
        },
{
}

/// The place of a surface is the first window which shows it, with primary windows first.
pub proof fn law_surfaces_are_found_in_the_layouts(l: Layouts, surface: u64, at: usize)
    requires
        at < l.layouts.len(),
    ensures
        ({
            let primary = l.resolved(l.layouts[at as int].primary) matches Some(w) && l.wl_surface(
                w.surface,
            ) == Some(surface);
            let secondary = l.resolved(l.layouts[at as int].secondary) matches Some(w)
                && l.wl_surface(w.surface) == Some(surface);
            let before = forall|i: int|
                0 <= i < at ==> !l.key_shows((#[trigger] l.layouts[i]).primary, surface)
                    && !l.key_shows(l.layouts[i].secondary, surface);
            &&& before && primary ==> l.place_from(surface, 0) == Some(
                LayoutPosition { index: at, secondary: false },
            )
            &&& before && !primary && secondary ==> l.place_from(surface, 0) == Some(
                LayoutPosition { index: at, secondary: true },
            )
            &&& l.place_from(surface, 0) is None ==> !primary && !secondary
        }),
        l.place_from(surface, 0) matches Some(place) ==> place.index < l.layouts.len()
            && l.key_shows(l.key_at(place), surface),
{
    lemma_place_from(l, surface, 0);
}

/// The first place from a layout on is found, and nothing before it.
proof fn lemma_place_from(l: Layouts, surface: u64, from: int)
    requires
        0 <= from,
    ensures
        match l.place_from(surface, from) {
            Some(place) => {
                &&& from <= place.index < l.layouts.len()
                &&& l.key_shows(l.key_at(place), surface)
                &&& place.secondary ==> !l.key_shows(
                    l.layouts[place.index as int].primary,
                    surface,
                )
                &&& forall|i: int|
                    from <= i < place.index ==> !l.key_shows(
                        (#[trigger] l.layouts[i]).primary,
                        surface,
                    ) && !l.key_shows(l.layouts[i].secondary, surface)
            },
            None => forall|i: int|
                from <= i < l.layouts.len() ==> !l.key_shows(
                    (#[trigger] l.layouts[i]).primary,
                    surface,
                ) && !l.key_shows(l.layouts[i].secondary, surface),
        },
    decreases l.layouts.len() - from,
{
    if from < l.layouts.len() {
        lemma_place_from(l, surface, from + 1);
    }
}

/// A layer is found by its surface.
pub proof fn law_layers_are_found_by_surface(l: Layers, surface: u64, at: int)
    requires
        0 <= at < l.windows.len(),
    ensures
        l.windows[at].surface == surface && (forall|i: int|
            0 <= i < at ==> (#[trigger] l.windows[i]).surface != surface) ==> l.layer(surface)
            == Some(l.windows[at]),
        l.layer(surface) is None ==> l.windows[at].surface != surface,
        l.layer(surface) matches Some(w) ==> w.surface == surface,
{
    lemma_first_index(l.windows@, is_layer(surface), 0);
    assert forall|i: int| 0 <= i < l.windows.len() implies is_layer(surface)(l.windows@[i]) == ((
    #[trigger] l.windows[i]).surface == surface) by {}
}

/// The App ID announced by a client goes before the one stored with its window.
pub proof fn law_announced_names_come_first(w: Window, layer: LayerWindow)
    ensures
        w.xdg_app_id is Some ==> w.final_id() == w.xdg_app_id,
        w.xdg_app_id is None ==> w.final_id() == w.app_id,
        layer.xdg_app_id is Some ==> layer.final_id() == layer.xdg_app_id,
        layer.xdg_app_id is None ==> layer.final_id() == layer.app_id,
{
}

/// A layout has none, one or two windows.
pub proof fn law_layouts_hold_up_to_two_windows(layout: Layout)
    ensures
        layout.count() == 0 <==> layout.primary is None && layout.secondary is None,
        layout.count() == 2 <==> layout.primary is Some && layout.secondary is Some,
        layout.count() <= 2,
{
}

} // verus!
