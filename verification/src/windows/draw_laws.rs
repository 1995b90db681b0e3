//! What is on screen in each view.

use vstd::prelude::*;

use crate::action::Target;
use crate::geometry::Rectangle;
use crate::lists::{collect_all, lemma_collect_single};
use crate::windows::apps::is_overlay;
use crate::windows::draw::{
    half, layer_frame, layer_item, layer_target, layout_frame, window_target, Cursor, DrawItem,
    FrameTarget,
};
use crate::windows::state::{ActiveView, Clock, Windows};

verus! {

/// Layers are drawn one by one, in their order.
proof fn lemma_layer_items(layers: Seq<u64>)
    ensures
        collect_all(layers, layer_item()).len() == layers.len(),
        forall|i: int|
            0 <= i < layers.len() ==> #[trigger] collect_all(layers, layer_item())[i]
                == DrawItem::Window(Target::Layer(layers[i])),
        collect_all(layers, layer_frame()).len() == layers.len(),
        forall|i: int|
            0 <= i < layers.len() ==> #[trigger] collect_all(layers, layer_frame())[i]
                == FrameTarget::Window(Target::Layer(layers[i])),
{
    lemma_collect_single(layers, layer_item(), layers.len() as int);
    lemma_collect_single(layers, layer_frame(), layers.len() as int);
}

/// The workspace shows the active layout between the layers above and below it.
///
/// What the overlay covers is drawn right below it.
pub proof fn law_workspace_is_drawn_between_the_layers(s: Windows)
    requires
        s.view is Workspace,
    ensures
        ({
            let all = s.view_items();
            let above = s.layers.foreground.len() as int;
            let below = s.layers.background.len() as int;
            let covering = s.layouts.resolved(s.layouts.active.primary) matches Some(w)
                && is_overlay(w);
            let next: int = if covering {
                above + 2
            } else {
                above + 1
            };
            &&& all.len() == next + below
            &&& forall|i: int|
                0 <= i < above ==> all[i] == DrawItem::Window(
                    Target::Layer(#[trigger] s.layers.foreground[i]),
                )
            &&& all[above] == DrawItem::Layouts
            &&& covering ==> all[above + 1] == DrawItem::Underlay
            &&& forall|i: int|
                0 <= i < below ==> all[next + i] == DrawItem::Window(
                    Target::Layer(#[trigger] s.layers.background[i]),
                )
        }),
{
    lemma_layer_items(s.layers.foreground@);
    lemma_layer_items(s.layers.background@);
}

/// A fullscreen window is drawn below overlays and above nothing, but for what the overlay covers.
pub proof fn law_fullscreen_hides_everything_but_overlays(s: Windows, key: u64)
    requires
        s.view == ActiveView::Fullscreen(key),
    ensures
        ({
            let all = s.view_items();
            let above = s.layers.overlay.len() as int;
            let covering = s.layouts.window(key) matches Some(w) && is_overlay(w);
            &&& !covering ==> all.len() == above + 1
            &&& covering ==> all.len() == above + 2 && all[above + 1] == DrawItem::Underlay
            &&& forall|i: int|
                0 <= i < above ==> all[i] == DrawItem::Window(
                    Target::Layer(#[trigger] s.layers.overlay[i]),
                )
            &&& all[above] == DrawItem::Window(Target::Layout(key))
        }),
        ({
            let all = s.frame_targets();
            let above = s.layers.overlay.len() as int;
            &&& all.len() == above + 1
            &&& forall|i: int|
                0 <= i < above ==> all[i] == FrameTarget::Window(
                    Target::Layer(#[trigger] s.layers.overlay[i]),
                )
            &&& all[above] == FrameTarget::Window(Target::Layout(key))
        }),
{
    lemma_layer_items(s.layers.overlay@);
}

/// The overview and a dragged window are drawn above the layers in the background, which alone
/// get frames.
pub proof fn law_overview_is_drawn_above_the_background(s: Windows)
    ensures
        s.view matches ActiveView::Overview(overview) ==> {
            let all = s.view_items();
            let below = s.layers.background.len() as int;
            &&& all.len() == 1 + below
            &&& all[0] == DrawItem::Overview(overview.id)
            &&& forall|i: int|
                0 <= i < below ==> all[1 + i] == DrawItem::Window(
                    Target::Layer(#[trigger] s.layers.background[i]),
                )
        },
        s.view matches ActiveView::DragAndDrop(dnd) ==> {
            let all = s.view_items();
            let below = s.layers.background.len() as int;
            &&& all.len() == 2 + below
            &&& all[0] == DrawItem::DragAndDrop(dnd.id)
            &&& all[1] == DrawItem::Layouts
            &&& forall|i: int|
                0 <= i < below ==> all[2 + i] == DrawItem::Window(
                    Target::Layer(#[trigger] s.layers.background[i]),
                )
        },
        s.view is Overview || s.view is DragAndDrop ==> {
            let all = s.frame_targets();
            &&& all.len() == s.layers.background.len()
            &&& forall|i: int|
                0 <= i < all.len() ==> all[i] == FrameTarget::Window(
                    Target::Layer(#[trigger] s.layers.background[i]),
                )
        },
{
    lemma_layer_items(s.layers.background@);
}

/// A locked session shows the lock surface and nothing else.
pub proof fn law_lock_is_drawn_alone(s: Windows)
    ensures
        s.view matches ActiveView::Lock(Some(lock)) ==> s.view_items() == seq![
            DrawItem::Window(Target::Lock(lock.surface)),
        ] && s.frame_targets() == seq![FrameTarget::Window(Target::Lock(lock.surface))],
        s.view == ActiveView::Lock(None) ==> s.view_items().len() == 0 && s.frame_targets().len()
            == 0,
{
}

/// The workspace requests frames for all layers and for every visible window.
pub proof fn law_workspace_gets_frames(s: Windows)
    requires
        s.view is Workspace,
    ensures
        s.frame_targets().len() == 1 + s.layouts.visible.len(),
        s.frame_targets()[0] == FrameTarget::Layers,
        forall|i: int|
            0 <= i < s.layouts.visible.len() ==> s.frame_targets()[i + 1] == FrameTarget::Window(
                Target::Layout(#[trigger] s.layouts.visible[i]),
            ),
{
    let visible = s.layouts.visible@;
    lemma_collect_single(visible, layout_frame(), visible.len() as int);
}

/// The touch cursor is centered on the touched position.
pub proof fn law_cursor_is_centered(cursor: Cursor)
    requires
        cursor.fits(),
        cursor.size.w >= 0,
        cursor.size.h >= 0,
    ensures
        ({
            let c = cursor.centered();
            &&& c.x <= cursor.position.x <= c.x + cursor.size.w
            &&& c.y <= cursor.position.y <= c.y + cursor.size.h
            &&& 0 <= (c.x + cursor.size.w - cursor.position.x) - (cursor.position.x - c.x) <= 1
            &&& 0 <= (c.y + cursor.size.h - cursor.position.y) - (cursor.position.y - c.y) <= 1
        }),
{
}

/// Half of a length is rounded towards zero, for negative lengths as well.
pub proof fn law_half_rounds_towards_zero(length: int)
    ensures
        half(-length) == -half(length),
        length >= 0 ==> 0 <= length - 2 * half(length) <= 1,
{
}

/// Every window in the layouts and every layer is listed, in their order.
pub proof fn law_all_windows_are_listed(s: Windows)
    ensures
        s.layout_targets().len() == s.layouts.windows.len(),
        forall|i: int|
            0 <= i < s.layouts.windows.len() ==> s.layout_targets()[i] == Target::Layout(
                (#[trigger] s.layouts.windows[i]).key,
            ),
        s.layer_targets().len() == s.layers.windows.len(),
        forall|i: int|
            0 <= i < s.layers.windows.len() ==> s.layer_targets()[i] == Target::Layer(
                (#[trigger] s.layers.windows[i]).surface,
            ),
        s.pending() matches ActiveView::Lock(Some(lock)) ==> s.all_targets() == seq![
            Target::Lock(lock.surface),
        ] + s.layout_targets() + s.layer_targets(),
        !(s.pending() is Lock) || s.pending() == ActiveView::Lock(None) ==> s.all_targets()
            == s.layout_targets() + s.layer_targets(),
        Windows::lock_targets(s.view).len() <= 1,
        s.view matches ActiveView::Lock(Some(lock)) ==> Windows::lock_targets(s.view) == seq![
            Target::Lock(lock.surface),
        ],
        !(s.view is Lock) ==> Windows::lock_targets(s.view).len() == 0,
{
    let windows = s.layouts.windows@;
    let layers = s.layers.windows@;
    lemma_collect_single(windows, window_target(), windows.len() as int);
    lemma_collect_single(layers, layer_target(), layers.len() as int);
    assert(s.layout_targets() + s.layer_targets() =~= Seq::<Target>::empty() + s.layout_targets()
        + s.layer_targets());
}

/// A frame is drawn if anything that can be seen has changed.
///
/// In fullscreen, only the window itself and the overlays can be seen.
pub proof fn law_visible_damage_is_drawn(s: Windows, at: int)
    ensures
        s.dirty ==> s.is_damaged(),
        (s.view is Workspace || s.view is Overview) && 0 <= at < s.layouts.windows.len()
            && s.layouts.windows[at].dirty ==> s.is_damaged(),
        (s.view is Workspace || s.view is Overview) && 0 <= at < s.layers.windows.len()
            && s.layers.windows[at].dirty ==> s.is_damaged(),
        s.view matches ActiveView::Overview(overview) ==> overview.dirty ==> s.is_damaged(),
        s.view matches ActiveView::Fullscreen(key) ==> (s.layouts.window(key) matches Some(w)
            ==> w.dirty ==> s.is_damaged()),
        s.view is Fullscreen && 0 <= at < s.layers.overlay.len() ==> (s.layers.layer(
            s.layers.overlay[at],
        ) matches Some(w) ==> w.dirty ==> s.is_damaged()),
        s.view matches ActiveView::Lock(Some(lock)) ==> lock.dirty ==> s.is_damaged(),
{
    if 0 <= at < s.layers.overlay.len() {
        assert(s.layer_dirty(s.layers.overlay[at]) ==> s.overlays_dirty());
    }
}

/// No frame is drawn while nothing that can be seen has changed.
pub proof fn law_hidden_damage_is_not_drawn(s: Windows)
    requires
        !s.dirty,
    ensures
        s.view is DragAndDrop ==> !s.is_damaged(),
        s.view == ActiveView::Lock(None) ==> !s.is_damaged(),
        s.view matches ActiveView::Lock(Some(lock)) ==> !lock.dirty ==> !s.is_damaged(),
        s.view is Workspace && (forall|i: int|
            0 <= i < s.layouts.windows.len() ==> !(#[trigger] s.layouts.windows[i]).dirty) && (
        forall|i: int| 0 <= i < s.layers.windows.len() ==> !(#[trigger] s.layers.windows[i]).dirty)
            ==> !s.is_damaged(),
        s.view matches ActiveView::Overview(overview) ==> !overview.dirty && (forall|i: int|
            0 <= i < s.layouts.windows.len() ==> !(#[trigger] s.layouts.windows[i]).dirty) && (
        forall|i: int| 0 <= i < s.layers.windows.len() ==> !(#[trigger] s.layers.windows[i]).dirty)
            ==> !s.is_damaged(),
        s.view matches ActiveView::Fullscreen(key) ==> (s.layouts.window(key) matches Some(w)
            ==> !w.dirty) && (forall|i: int|
            0 <= i < s.layers.overlay.len() ==> (s.layers.layer(
                #[trigger] s.layers.overlay[i],
            ) matches Some(layer) ==> !layer.dirty)) ==> !s.is_damaged(),
{
}

/// The runtime counts whole milliseconds since the creation, and starts over when it is full.
pub proof fn law_runtime_counts_milliseconds(s: Windows, clock: Clock)
    ensures
        clock.mono_ns < s.start_time ==> s.runtime_at(clock) == 0,
        clock.mono_ns >= s.start_time && clock.mono_ns - s.start_time < 0x1_0000_0000 * 1_000_000
            ==> s.runtime_at(clock) * 1_000_000 <= clock.mono_ns - s.start_time < (s.runtime_at(
            clock,
        ) + 1) * 1_000_000,
        ({
            let later = Clock {
                wall_ms: clock.wall_ms,
                mono_ns: (clock.mono_ns + 0x1_0000_0000 * 1_000_000) as u64,
            };
            clock.mono_ns >= s.start_time && clock.mono_ns + 0x1_0000_0000 * 1_000_000 <= u64::MAX
                ==> s.runtime_at(later) == s.runtime_at(clock)
        }),
{
    if clock.mono_ns >= s.start_time {
        let d = clock.mono_ns - s.start_time;
        assert((d + 0x1_0000_0000 * 1_000_000) / 1_000_000 == d / 1_000_000 + 0x1_0000_0000);
        vstd::arithmetic::div_mod::lemma_mod_add_multiples_vanish(d / 1_000_000, 0x1_0000_0000);
    }
}

/// The touch cursor is drawn above everything, at its place and in its size.
///
/// Drawing takes care of all damage known so far.
pub proof fn law_cursor_is_drawn_first(s: Windows, cursor: Cursor)
    ensures
        s.drawing(None) == s.view_items(),
        s.drawing(Some(cursor)).len() == 1 + s.view_items().len(),
        s.drawing(Some(cursor))[0] == (DrawItem::Cursor {
            location: cursor.centered(),
            bounds: Rectangle { loc: cursor.centered(), size: cursor.size },
        }),
        s.drawing(Some(cursor)).skip(1) == s.view_items(),
        !s.with_damage_drawn().dirty,
        s.with_damage_drawn() == (Windows { dirty: s.with_damage_drawn().dirty, ..s }),
{
    assert(s.drawing(Some(cursor)).skip(1) =~= s.view_items());
}

/// Buffers are imported for everything which can be on screen, and presented frames are told to
/// all windows and layers.
pub proof fn law_windows_take_part_in_frames(s: Windows)
    ensures
        s.import_targets() == s.presented_targets() + Windows::lock_targets(s.view),
        s.presented_targets().len() == s.layouts.windows.len() + s.layers.windows.len(),
        s.presented_targets().take(s.layouts.windows.len() as int) == s.layout_targets(),
        s.presented_targets().skip(s.layouts.windows.len() as int) == s.layer_targets(),
        s.popup_hosts() == s.layout_targets(),
        s.view matches ActiveView::Lock(Some(lock)) ==> s.import_targets().contains(
            Target::Lock(lock.surface),
        ),
{
    law_all_windows_are_listed(s);
    let n = s.layouts.windows.len() as int;
    assert(s.presented_targets().take(n) =~= s.layout_targets());
    assert(s.presented_targets().skip(n) =~= s.layer_targets());
    if let ActiveView::Lock(Some(lock)) = s.view {
        assert(s.import_targets().last() == Target::Lock(lock.surface));
    }
}

/// Damage and the IME override are noted, and have to be drawn.
pub proof fn law_noted_damage_is_drawn(s: Windows, ime_override: Option<bool>)
    ensures
        s.with_damage().is_damaged(),
        s.with_damage() == (Windows { dirty: s.with_damage().dirty, ..s }),
        s.with_ime_override(ime_override).is_damaged(),
        s.with_ime_override(ime_override).ime_override == ime_override,
        s.with_ime_override(ime_override) == (Windows {
            dirty: true,
            ime_override: s.with_ime_override(ime_override).ime_override,
            ..s
        }),
{
}

/// A cursor can be drawn if both of its centered coordinates are representable.
pub proof fn law_representable_cursors(cursor: Cursor)
    requires
        cursor.size.w >= 0,
        cursor.size.h >= 0,
    ensures
        cursor.fits() <==> cursor.position.x - cursor.size.w / 2 >= i32::MIN && cursor.position.y
            - cursor.size.h / 2 >= i32::MIN,
{
}

} // verus!
