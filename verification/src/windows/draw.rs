//! What is drawn, in which order, and when.

use vstd::prelude::*;

use crate::action::Target;
use crate::geometry::{Point, Rectangle, Size};
use crate::lists::{collect_all, collected};
use crate::windows::apps::{check_overlay, is_overlay};
use crate::windows::scene::{LayerWindow, Window};
use crate::windows::state::{ActiveView, Clock, Windows};
use crate::windows::transaction::NANOS_PER_MILLI;

verus! {

/// Touch cursor with the size of its texture.
#[derive(Clone, Copy, Debug, PartialEq, Eq, Structural)]
pub struct Cursor {
    /// Touched position in physical coordinates.
    pub position: Point,
    pub size: Size,
}

/// Half of a length, rounded towards zero.
pub open spec fn half(length: int) -> int {
    if length >= 0 {
        length / 2
    } else {
        -((-length) / 2)
    }
}

impl Cursor {
    /// Whether the cursor's location can be represented.
    pub open spec fn fits(&self) -> bool {
        &&& i32::MIN <= self.position.x - half(self.size.w as int) <= i32::MAX
        &&& i32::MIN <= self.position.y - half(self.size.h as int) <= i32::MAX
    }

    /// Location with the texture centered around the touched position.
    pub open spec fn centered(&self) -> Point {
        Point {
            x: (self.position.x - half(self.size.w as int)) as i32,
            y: (self.position.y - half(self.size.h as int)) as i32,
        }
    }
}

/// Halve a length, rounding towards zero.
fn halved(length: i32) -> (r: i32)
    ensures
        r == half(length as int),
{
    if length >= 0 {
        length / 2
    } else if length == i32::MIN {
        -0x4000_0000
    } else {
        -((-length) / 2)
    }
}

impl Cursor {
    /// Check if the cursor's location can be represented.
    pub fn is_representable(&self) -> (r: bool)
        ensures
            r == self.fits(),
    {
        let x: i64 = self.position.x as i64 - halved(self.size.w) as i64;
        let y: i64 = self.position.y as i64 - halved(self.size.h) as i64;
        -0x8000_0000 <= x && x <= 0x7fff_ffff && -0x8000_0000 <= y && y <= 0x7fff_ffff
    }
}

/// One thing to draw, above everything that follows it.
#[derive(Clone, Copy, Debug, PartialEq, Eq, Structural)]
pub enum DrawItem {
    /// Touch cursor.
    Cursor { location: Point, bounds: Rectangle },
    /// A window with everything that belongs to it.
    Window(Target),
    /// Windows of the active layout.
    Layouts,
    /// Windows of the layout below the overlay.
    Underlay,
    /// Drag and drop.
    DragAndDrop(u64),
    /// Overview of all windows.
    Overview(u64),
}

/// Receiver of a frame request.
#[derive(Clone, Copy, Debug, PartialEq, Eq, Structural)]
pub enum FrameTarget {
    Window(Target),
    /// All layer shell windows.
    Layers,
}

/// Drawing of a layer shell window.
pub open spec fn layer_item() -> spec_fn(u64) -> Seq<DrawItem> {
    |surface: u64| seq![DrawItem::Window(Target::Layer(surface))]
}

/// Frame request for a layer shell window.
pub open spec fn layer_frame() -> spec_fn(u64) -> Seq<FrameTarget> {
    |surface: u64| seq![FrameTarget::Window(Target::Layer(surface))]
}

/// Frame request for a window in the layouts.
pub open spec fn layout_frame() -> spec_fn(u64) -> Seq<FrameTarget> {
    |key: u64| seq![FrameTarget::Window(Target::Layout(key))]
}

/// A window in the layouts as a target.
pub open spec fn window_target() -> spec_fn(Window) -> Seq<Target> {
    |w: Window| seq![Target::Layout(w.key)]
}

/// A layer shell window as a target.
pub open spec fn layer_target() -> spec_fn(LayerWindow) -> Seq<Target> {
    |w: LayerWindow| seq![Target::Layer(w.surface)]
}

/// Add layer shell windows to the drawing.
fn draw_layers(layers: &Vec<u64>, out: &mut Vec<DrawItem>)
    ensures
        final(out)@ == old(out)@ + collect_all(layers@, layer_item()),
{
    let ghost start = out@;
    let mut i: usize = 0;
    while i < layers.len()
        invariant
            i <= layers.len(),
            out@ == start + collected(layers@, layer_item(), i as int),
        decreases layers.len() - i,
    {
        out.push(DrawItem::Window(Target::Layer(layers[i])));
        i += 1;
    }
}

/// Request frames for layer shell windows.
fn request_layers(layers: &Vec<u64>, out: &mut Vec<FrameTarget>)
    ensures
        final(out)@ == old(out)@ + collect_all(layers@, layer_frame()),
{
    let ghost start = out@;
    let mut i: usize = 0;
    while i < layers.len()
        invariant
            i <= layers.len(),
            out@ == start + collected(layers@, layer_frame(), i as int),
        decreases layers.len() - i,
    {
        out.push(FrameTarget::Window(Target::Layer(layers[i])));
        i += 1;
    }
}

impl Windows {
    /// Whether an optional window is the overlay.
    pub open spec fn key_is_overlay(&self, key: Option<u64>) -> bool {
        self.layouts.resolved(key) matches Some(w) && is_overlay(w)
    }

    fn check_key_overlay(&self, key: Option<u64>) -> (r: bool)
        ensures
            r == self.key_is_overlay(key),
    {
        match self.layouts.resolve(key) {
            Some(window) => check_overlay(window),
            None => false,
        }
    }

    /// Drawing of the current view, topmost first.
    pub open spec fn view_items(&self) -> Seq<DrawItem> {
        match self.view {
            ActiveView::Workspace => collect_all(self.layers.foreground@, layer_item())
                + seq![DrawItem::Layouts] + (if self.key_is_overlay(self.layouts.active.primary) {
                seq![DrawItem::Underlay]
            } else {
                Seq::empty()
            }) + collect_all(self.layers.background@, layer_item()),
            ActiveView::DragAndDrop(dnd) => seq![DrawItem::DragAndDrop(dnd.id), DrawItem::Layouts]
                + collect_all(self.layers.background@, layer_item()),
            ActiveView::Overview(overview) => seq![DrawItem::Overview(overview.id)] + collect_all(
                self.layers.background@,
                layer_item(),
            ),
            ActiveView::Fullscreen(window) => collect_all(self.layers.overlay@, layer_item())
                + seq![DrawItem::Window(Target::Layout(window))] + (if self.key_is_overlay(
                Some(window),
            ) {
                seq![DrawItem::Underlay]
            } else {
                Seq::empty()
            }),
            ActiveView::Lock(Some(lock)) => seq![DrawItem::Window(Target::Lock(lock.surface))],
            ActiveView::Lock(None) => Seq::empty(),
        }
    }

    /// Drawing of a frame, topmost first.
    pub open spec fn drawing(&self, cursor: Option<Cursor>) -> Seq<DrawItem> {
        match cursor {
            Some(cursor) => seq![
                DrawItem::Cursor {
                    location: cursor.centered(),
                    bounds: Rectangle { loc: cursor.centered(), size: cursor.size },
                },
            ] + self.view_items(),
            None => self.view_items(),
        }
    }

    /// State after everything was drawn.
    pub open spec fn with_damage_drawn(self) -> Windows {
        Windows { dirty: false, ..self }
    }

    /// Get all textures for rendering.
    ///
    /// The touch cursor is above everything. Taking the textures clears the
    /// client-independent damage.
    pub fn textures(&mut self, cursor: Option<Cursor>) -> (r: Vec<DrawItem>)
        requires
            cursor matches Some(cursor) ==> cursor.fits(),
        ensures
            *final(self) == old(self).with_damage_drawn(),
            r@ == old(self).drawing(cursor),
            *final(self) == (Windows { dirty: false, ..*old(self) }),
            r@ == (match cursor {
                Some(cursor) => seq![
                    DrawItem::Cursor {
                        location: cursor.centered(),
                        bounds: (Rectangle { loc: cursor.centered(), size: cursor.size }),
                    },
                ],
                None => Seq::empty(),
            }) + old(self).view_items(),
    {
        let ghost before = *self;
        // Clear global damage.
        self.dirty = false;
        let mut out: Vec<DrawItem> = Vec::new();

        // Render touch location cursor.
        if let Some(cursor) = cursor {
            // Center texture around touch position.
            let location = Point {
                x: cursor.position.x - halved(cursor.size.w),
                y: cursor.position.y - halved(cursor.size.h),
            };
            out.push(
                DrawItem::Cursor { location, bounds: Rectangle { loc: location, size: cursor.size } },
            );
        }
        let ghost start = out@;

        match &self.view {
            ActiveView::Workspace => {
                draw_layers(&self.layers.foreground, &mut out);
                out.push(DrawItem::Layouts);
                // If the active layout is the overlay, render the underlay behind it.
                if self.check_key_overlay(self.layouts.active.primary) {
                    out.push(DrawItem::Underlay);
                }
                draw_layers(&self.layers.background, &mut out);
            },
            ActiveView::DragAndDrop(dnd) => {
                out.push(DrawItem::DragAndDrop(dnd.id));
                out.push(DrawItem::Layouts);
                draw_layers(&self.layers.background, &mut out);
            },
            ActiveView::Overview(overview) => {
                out.push(DrawItem::Overview(overview.id));
                draw_layers(&self.layers.background, &mut out);
            },
            ActiveView::Fullscreen(window) => {
                draw_layers(&self.layers.overlay, &mut out);
                out.push(DrawItem::Window(Target::Layout(*window)));
                // If the fullscreen window is the overlay, render the underlay behind it.
                if self.check_key_overlay(Some(*window)) {
                    out.push(DrawItem::Underlay);
                }
            },
            ActiveView::Lock(Some(lock)) => {
                out.push(DrawItem::Window(Target::Lock(lock.surface)));
            },
            ActiveView::Lock(None) => (),
        }
        assert(out@ == start + before.view_items());
        assert(out@ =~= before.drawing(cursor));
        out
    }

    /// Receivers of frame requests for the current view.
    pub open spec fn frame_targets(&self) -> Seq<FrameTarget> {
        match self.view {
            ActiveView::Fullscreen(window) => collect_all(self.layers.overlay@, layer_frame())
                + seq![FrameTarget::Window(Target::Layout(window))],
            ActiveView::Overview(_) => collect_all(self.layers.background@, layer_frame()),
            ActiveView::DragAndDrop(_) => collect_all(self.layers.background@, layer_frame()),
            ActiveView::Workspace => seq![FrameTarget::Layers] + collect_all(
                self.layouts.visible@,
                layout_frame(),
            ),
            ActiveView::Lock(Some(lock)) => seq![FrameTarget::Window(Target::Lock(lock.surface))],
            ActiveView::Lock(None) => Seq::empty(),
        }
    }

    /// Request new frames for all visible windows.
    pub fn request_frames(&self) -> (r: Vec<FrameTarget>)
        ensures
            r@ == self.frame_targets(),
    {
        let mut out: Vec<FrameTarget> = Vec::new();
        match &self.view {
            ActiveView::Fullscreen(window) => {
                request_layers(&self.layers.overlay, &mut out);
                out.push(FrameTarget::Window(Target::Layout(*window)));
            },
            ActiveView::Overview(_) | ActiveView::DragAndDrop(_) => {
                request_layers(&self.layers.background, &mut out);
            },
            ActiveView::Workspace => {
                out.push(FrameTarget::Layers);
                let ghost start = out@;
                let mut i: usize = 0;
                while i < self.layouts.visible.len()
                    invariant
                        i <= self.layouts.visible.len(),
                        out@ == start + collected(self.layouts.visible@, layout_frame(), i as int),
                    decreases self.layouts.visible.len() - i,
                {
                    out.push(FrameTarget::Window(Target::Layout(self.layouts.visible[i])));
                    i += 1;
                }
            },
            ActiveView::Lock(Some(lock)) => {
                out.push(FrameTarget::Window(Target::Lock(lock.surface)));
            },
            ActiveView::Lock(None) => (),
        }
        assert(out@ == self.frame_targets());
        out
    }

    /// Windows in all layouts.
    pub open spec fn layout_targets(&self) -> Seq<Target> {
        collect_all(self.layouts.windows@, window_target())
    }

    /// All layer shell windows.
    pub open spec fn layer_targets(&self) -> Seq<Target> {
        collect_all(self.layers.windows@, layer_target())
    }

    /// Session lock window of a view.
    pub open spec fn lock_targets(view: ActiveView) -> Seq<Target> {
        match view {
            ActiveView::Lock(Some(lock)) => seq![Target::Lock(lock.surface)],
            _ => Seq::empty(),
        }
    }

    /// Every known window: the pending session lock, the layouts and the layers.
    pub open spec fn all_targets(&self) -> Seq<Target> {
        Self::lock_targets(self.pending()) + self.layout_targets() + self.layer_targets()
    }

    pub(crate) fn push_layouts(&self, out: &mut Vec<Target>)
        ensures
            final(out)@ == old(out)@ + self.layout_targets(),
    {
        let ghost start = out@;
        let mut i: usize = 0;
        while i < self.layouts.windows.len()
            invariant
                i <= self.layouts.windows.len(),
                out@ == start + collected(self.layouts.windows@, window_target(), i as int),
            decreases self.layouts.windows.len() - i,
        {
            out.push(Target::Layout(self.layouts.windows[i].key));
            i += 1;
        }
    }

    pub(crate) fn push_layers(&self, out: &mut Vec<Target>)
        ensures
            final(out)@ == old(out)@ + self.layer_targets(),
    {
        let ghost start = out@;
        let mut i: usize = 0;
        while i < self.layers.windows.len()
            invariant
                i <= self.layers.windows.len(),
                out@ == start + collected(self.layers.windows@, layer_target(), i as int),
            decreases self.layers.windows.len() - i,
        {
            out.push(Target::Layer(self.layers.windows[i].surface));
            i += 1;
        }
    }

    /// List every known window.
    pub fn all_windows(&self) -> (r: Vec<Target>)
        ensures
            r@ == self.all_targets(),
    {
        let mut out: Vec<Target> = Vec::new();
        if let ActiveView::Lock(Some(lock)) = self.pending_view() {
            out.push(Target::Lock(lock.surface));
        }
        self.push_layouts(&mut out);
        self.push_layers(&mut out);
        assert(out@ == self.all_targets());
        out
    }

    /// Windows whose buffers are imported.
    pub open spec fn import_targets(&self) -> Seq<Target> {
        self.layout_targets() + self.layer_targets() + Self::lock_targets(self.view)
    }

    /// Windows which are told about presented frames.
    pub open spec fn presented_targets(&self) -> Seq<Target> {
        self.layout_targets() + self.layer_targets()
    }

    /// Windows which might have popups.
    pub open spec fn popup_hosts(&self) -> Seq<Target> {
        self.layout_targets()
    }

    /// Import pending buffers for all windows.
    ///
    /// Returns the windows in the order of their imports.
    pub fn import_buffers(&self) -> (r: Vec<Target>)
        ensures
            r@ == self.import_targets(),
            r@ == self.layout_targets() + self.layer_targets() + Self::lock_targets(self.view),
    {
        let mut out: Vec<Target> = Vec::new();
        // Import XDG windows/popups.
        self.push_layouts(&mut out);
        // Import layer shell windows.
        self.push_layers(&mut out);
        // Import session lock surface.
        if let ActiveView::Lock(Some(lock)) = &self.view {
            out.push(Target::Lock(lock.surface));
        }
        assert(out@ == self.layout_targets() + self.layer_targets() + Self::lock_targets(
            self.view,
        ));
        out
    }

    /// Mark all rendered clients as presented for `wp_presentation`.
    ///
    /// Returns the windows in the order in which they are told.
    pub fn mark_presented(&self) -> (r: Vec<Target>)
        ensures
            r@ == self.presented_targets(),
            r@ == self.layout_targets() + self.layer_targets(),
    {
        let mut out: Vec<Target> = Vec::new();
        // Update XDG client presentation time.
        self.push_layouts(&mut out);
        // Update layer-shell client presentation time.
        self.push_layers(&mut out);
        assert(out@ == self.layout_targets() + self.layer_targets());
        out
    }

    /// Reap dead XDG popup windows.
    ///
    /// Returns the windows whose popups are checked.
    pub fn refresh_popups(&self) -> (r: Vec<Target>)
        ensures
            r@ == self.popup_hosts(),
            r@ == self.layout_targets(),
    {
        let mut out: Vec<Target> = Vec::new();
        self.push_layouts(&mut out);
        assert(out@ == self.layout_targets());
        out
    }

    /// Move popup location.
    ///
    /// Returns the windows which are asked to move the popup.
    pub fn reposition_popup(&self) -> (r: Vec<Target>)
        ensures
            r@ == self.popup_hosts(),
            r@ == self.layout_targets(),
    {
        let mut out: Vec<Target> = Vec::new();
        self.push_layouts(&mut out);
        assert(out@ == self.layout_targets());
        out
    }

    /// Whether any window in the layouts is damaged.
    pub open spec fn layouts_dirty(&self) -> bool {
        exists|i: int|
            0 <= i < self.layouts.windows.len() && (#[trigger] self.layouts.windows[i]).dirty
    }

    /// Whether any layer shell window is damaged.
    pub open spec fn layers_dirty(&self) -> bool {
        exists|i: int|
            0 <= i < self.layers.windows.len() && (#[trigger] self.layers.windows[i]).dirty
    }

    /// Whether a layer shell window is damaged.
    pub open spec fn layer_dirty(&self, surface: u64) -> bool {
        self.layers.layer(surface) matches Some(w) && w.dirty
    }

    /// Whether any overlay is damaged.
    pub open spec fn overlays_dirty(&self) -> bool {
        exists|i: int|
            0 <= i < self.layers.overlay.len() && self.layer_dirty(
                #[trigger] self.layers.overlay[i],
            )
    }

    /// Whether a redraw is required.
    pub open spec fn is_damaged(&self) -> bool {
        self.dirty || match self.view {
            ActiveView::Overview(overview) => overview.dirty || self.layouts_dirty()
                || self.layers_dirty(),
            ActiveView::Workspace => self.layouts_dirty() || self.layers_dirty(),
            ActiveView::Fullscreen(key) => (self.layouts.window(key) matches Some(w) && w.dirty)
                || self.overlays_dirty(),
            ActiveView::Lock(lock) => lock matches Some(lock) && lock.dirty,
            ActiveView::DragAndDrop(_) => false,
        }
    }

    fn check_layouts_dirty(&self) -> (r: bool)
        ensures
            r == self.layouts_dirty(),
    {
        let mut i: usize = 0;
        while i < self.layouts.windows.len()
            invariant
                i <= self.layouts.windows.len(),
                forall|j: int| 0 <= j < i ==> !(#[trigger] self.layouts.windows[j]).dirty,
            decreases self.layouts.windows.len() - i,
        {
            if self.layouts.windows[i].dirty {
                assert(self.layouts.windows[i as int].dirty);
                return true;
            }
            i += 1;
        }
        false
    }

    fn check_layers_dirty(&self) -> (r: bool)
        ensures
            r == self.layers_dirty(),
    {
        let mut i: usize = 0;
        while i < self.layers.windows.len()
            invariant
                i <= self.layers.windows.len(),
                forall|j: int| 0 <= j < i ==> !(#[trigger] self.layers.windows[j]).dirty,
            decreases self.layers.windows.len() - i,
        {
            if self.layers.windows[i].dirty {
                assert(self.layers.windows[i as int].dirty);
                return true;
            }
            i += 1;
        }
        false
    }

    fn check_overlays_dirty(&self) -> (r: bool)
        ensures
            r == self.overlays_dirty(),
    {
        let mut i: usize = 0;
        while i < self.layers.overlay.len()
            invariant
                i <= self.layers.overlay.len(),
                forall|j: int|
                    0 <= j < i ==> !self.layer_dirty(#[trigger] self.layers.overlay[j]),
            decreases self.layers.overlay.len() - i,
        {
            let dirty = match self.layers.find(self.layers.overlay[i]) {
                Some(window) => window.dirty,
                None => false,
            };
            if dirty {
                assert(self.layer_dirty(self.layers.overlay[i as int]));
                return true;
            }
            i += 1;
        }
        false
    }

    /// Check if any window was damaged since the last redraw.
    pub fn damaged(&self) -> (r: bool)
        ensures
            r == self.is_damaged(),
    {
        if self.dirty {
            return true;
        }
        match &self.view {
            ActiveView::Overview(overview) => overview.dirty || self.check_layouts_dirty()
                || self.check_layers_dirty(),
            ActiveView::Workspace => self.check_layouts_dirty() || self.check_layers_dirty(),
            ActiveView::Fullscreen(key) => {
                let dirty = match self.layouts.find(*key) {
                    Some(window) => window.dirty,
                    None => false,
                };
                dirty || self.check_overlays_dirty()
            },
            ActiveView::Lock(lock) => match lock {
                Some(lock) => lock.dirty,
                None => false,
            },
            ActiveView::DragAndDrop(_) => false,
        }
    }

    /// State with everything to be drawn.
    pub open spec fn with_damage(self) -> Windows {
        Windows { dirty: true, ..self }
    }

    /// State with another override of the IME.
    pub open spec fn with_ime_override(self, ime_override: Option<bool>) -> Windows {
        Windows { ime_override: ime_override, dirty: true, ..self }
    }

    /// Mark the entire screen as dirty.
    pub fn set_dirty(&mut self)
        ensures
            *final(self) == old(self).with_damage(),
            *final(self) == (Windows { dirty: true, ..*old(self) }),
    {
        self.dirty = true;
    }

    /// IME force enable/disable status.
    ///
    /// This is only responsible for determining the gesture handle color.
    pub fn set_ime_override(&mut self, ime_override: Option<bool>)
        ensures
            *final(self) == old(self).with_ime_override(ime_override),
            *final(self) == (Windows { ime_override: ime_override, dirty: true, ..*old(self) }),
    {
        self.ime_override = ime_override;
        self.dirty = true;
    }

    /// Milliseconds since the creation, as far as they fit.
    pub open spec fn runtime_at(&self, clock: Clock) -> u32 {
        if clock.mono_ns >= self.start_time {
            (((clock.mono_ns - self.start_time) / NANOS_PER_MILLI as int) % 0x1_0000_0000) as u32
        } else {
            0
        }
    }

    /// Application runtime.
    ///
    /// The milliseconds start over after the largest 32 bit number.
    pub fn runtime(&self, clock: Clock) -> (r: u32)
        ensures
            r == self.runtime_at(clock),
    {
        if clock.mono_ns >= self.start_time {
            let millis: u64 = (clock.mono_ns - self.start_time) / NANOS_PER_MILLI;
            (millis % 0x1_0000_0000) as u32
        } else {
            0
        }
    }
}

} // verus!
