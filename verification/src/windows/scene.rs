//! The windows as the window manager sees them.
//!
//! Clients live elsewhere. What decides about them is held here by value, with
//! surfaces and windows standing for themselves by number.

use vstd::prelude::*;

use crate::geometry::{FloatBits, Rectangle, Size};
use crate::lists::{first, first_index};
use crate::text::{clone_opt, clone_or_empty};
use crate::text::or_empty;

verus! {

/// Handle of a window's shell surface.
#[derive(Clone, Copy, Debug, PartialEq, Eq, Structural)]
pub enum SurfaceHandle {
    /// XDG toplevel, by its Wayland surface.
    Xdg(u64),
    /// X11 window, by its window ID.
    X11(u32),
}

/// State behind an X11 handle.
#[derive(Clone, Copy, Debug, PartialEq, Eq, Structural)]
pub struct X11State {
    /// X11 window ID.
    pub window: u32,
    pub alive: bool,
    /// Associated Wayland surface, missing until XWayland has announced it.
    pub wl_surface: Option<u64>,
}

/// Window in a layout.
#[derive(Debug, PartialEq, Eq)]
pub struct Window {
    /// Identity of the window.
    pub key: u64,
    pub surface: SurfaceHandle,
    pub title: Option<String>,
    /// App ID announced by the client.
    pub xdg_app_id: Option<String>,
    /// App ID stored with the window.
    pub app_id: Option<String>,
    pub process_group: Option<i32>,
    pub alive: bool,
    pub dirty: bool,
    pub transaction_done: bool,
    /// Surfaces belonging to the window, its popups and its subsurfaces.
    pub surfaces: Vec<u64>,
    pub bounds: Rectangle,
}

impl Window {
    /// App ID announced by the client, or else the one stored with the window.
    pub open spec fn final_id(self) -> Option<String> {
        if self.xdg_app_id is Some {
            self.xdg_app_id
        } else {
            self.app_id
        }
    }

    /// Get the announced App ID with a fallback to the stored one.
    pub fn preferred_id(&self) -> (r: &Option<String>)
        ensures
            *r == self.final_id(),
    {
        match &self.xdg_app_id {
            Some(_) => &self.xdg_app_id,
            None => &self.app_id,
        }
    }

    /// Get the window's title, or the empty string.
    pub fn title_or_empty(&self) -> (r: String)
        ensures
            r@ == or_empty(self.title),
            self.title matches Some(t) ==> r == t,
    {
        clone_or_empty(&self.title)
    }
}

/// Stacking layer of a layer shell window.
#[derive(Clone, Copy, Debug, PartialEq, Eq, Structural)]
pub enum Layer {
    Background,
    Bottom,
    Top,
    Overlay,
}

/// Layer shell window.
#[derive(Debug, PartialEq, Eq)]
pub struct LayerWindow {
    /// Wayland surface of the layer.
    pub surface: u64,
    pub title: Option<String>,
    pub xdg_app_id: Option<String>,
    pub app_id: Option<String>,
    pub layer: Layer,
    pub alive: bool,
    pub dirty: bool,
    pub transaction_done: bool,
    pub deny_focus: bool,
    pub surfaces: Vec<u64>,
    pub bounds: Rectangle,
}

impl LayerWindow {
    /// App ID announced by the client, or else the layer's namespace.
    pub open spec fn final_id(self) -> Option<String> {
        if self.xdg_app_id is Some {
            self.xdg_app_id
        } else {
            self.app_id
        }
    }

    /// Get the announced App ID with a fallback to the stored one.
    pub fn preferred_id(&self) -> (r: &Option<String>)
        ensures
            *r == self.final_id(),
    {
        match &self.xdg_app_id {
            Some(_) => &self.xdg_app_id,
            None => &self.app_id,
        }
    }
}

/// Session lock window.
#[derive(Debug, PartialEq, Eq)]
pub struct LockWindow {
    pub surface: u64,
    pub app_id: Option<String>,
    pub dirty: bool,
    pub transaction_done: bool,
    pub surfaces: Vec<u64>,
    pub bounds: Rectangle,
}

/// Popup which has not been placed below its parent yet.
#[derive(Clone, Copy, Debug, PartialEq, Eq, Structural)]
pub struct PopupWindow {
    pub surface: u64,
    /// Surface of the parent, missing if the client has set none.
    pub parent: Option<u64>,
}

/// One or two windows shown together.
#[derive(Clone, Copy, Debug, PartialEq, Eq, Structural)]
pub struct Layout {
    pub id: u64,
    pub primary: Option<u64>,
    pub secondary: Option<u64>,
}

impl Layout {
    /// Number of windows in the layout.
    pub open spec fn count(self) -> nat {
        (if self.primary is Some {
            1nat
        } else {
            0
        }) + (if self.secondary is Some {
            1nat
        } else {
            0
        })
    }

    /// Count the windows in the layout.
    pub fn window_count(&self) -> (r: usize)
        ensures
            r == self.count(),
    {
        let primary: usize = if self.primary.is_some() {
            1
        } else {
            0
        };
        let secondary: usize = if self.secondary.is_some() {
            1
        } else {
            0
        };
        primary + secondary
    }
}

/// Place of a window within the layouts.
#[derive(Clone, Copy, Debug, PartialEq, Eq, Structural)]
pub struct LayoutPosition {
    pub index: usize,
    pub secondary: bool,
}

/// All layouts with their windows.
#[derive(Debug, PartialEq, Eq)]
pub struct Layouts {
    /// Windows of all layouts.
    pub windows: Vec<Window>,
    /// Windows which left the layouts while something still refers to them.
    pub loose: Vec<Window>,
    pub layouts: Vec<Layout>,
    /// Layout on screen.
    pub active: Layout,
    /// Layout on screen after the pending transaction.
    pub pending_active: Layout,
    /// Windows on screen.
    pub visible: Vec<u64>,
    /// Layouts to return to, most recent last.
    pub parent_layouts: Vec<u64>,
    /// Focused window. It might not exist anymore.
    pub focus: Option<u64>,
    /// State of the X11 windows.
    pub x11: Vec<X11State>,
}

/// Condition on windows to have a key.
pub open spec fn has_key(key: u64) -> spec_fn(Window) -> bool {
    |w: Window| w.key == key
}

/// Condition on layouts to have an ID.
pub open spec fn has_id(id: u64) -> spec_fn(Layout) -> bool {
    |l: Layout| l.id == id
}

/// Condition on X11 states to belong to a window ID.
pub open spec fn has_window(window: u32) -> spec_fn(X11State) -> bool {
    |x: X11State| x.window == window
}

/// Find a window by its key.
fn find_key(windows: &Vec<Window>, key: u64) -> (r: Option<&Window>)
    ensures
        match r {
            Some(w) => first(windows@, has_key(key)) == Some(*w),
            None => first(windows@, has_key(key)) is None,
        },
{
    let mut i: usize = 0;
    while i < windows.len()
        invariant
            i <= windows.len(),
            first_index(windows@, has_key(key), 0) == first_index(
                windows@,
                has_key(key),
                i as int,
            ),
        decreases windows.len() - i,
    {
        if windows[i].key == key {
            return Some(&windows[i]);
        }
        i += 1;
    }
    None
}

impl Layouts {
    /// Window with a key, if it still exists.
    pub open spec fn window(&self, key: u64) -> Option<Window> {
        match first(self.windows@, has_key(key)) {
            Some(w) => Some(w),
            None => first(self.loose@, has_key(key)),
        }
    }

    /// Existing window behind an optional key.
    pub open spec fn resolved(&self, key: Option<u64>) -> Option<Window> {
        match key {
            Some(key) => self.window(key),
            None => None,
        }
    }

    /// State of an X11 window.
    pub open spec fn x11_state(&self, window: u32) -> Option<X11State> {
        first(self.x11@, has_window(window))
    }

    /// Wayland surface behind a handle.
    pub open spec fn wl_surface(&self, handle: SurfaceHandle) -> Option<u64> {
        match handle {
            SurfaceHandle::Xdg(surface) => Some(surface),
            SurfaceHandle::X11(window) => match self.x11_state(window) {
                Some(state) => state.wl_surface,
                None => None,
            },
        }
    }

    /// Whether two handles refer to the same surface.
    ///
    /// A destroyed X11 window is not even the same as itself.
    pub open spec fn same_surface(&self, a: SurfaceHandle, b: SurfaceHandle) -> bool {
        a == b && match a {
            SurfaceHandle::Xdg(_) => true,
            SurfaceHandle::X11(window) => self.x11_state(window) matches Some(state)
                && state.alive,
        }
    }

    /// Find a window by its key.
    pub fn find(&self, key: u64) -> (r: Option<&Window>)
        ensures
            match r {
                Some(w) => self.window(key) == Some(*w),
                None => self.window(key) is None,
            },
    {
        match find_key(&self.windows, key) {
            Some(w) => Some(w),
            None => find_key(&self.loose, key),
        }
    }

    /// Find the window behind an optional key.
    pub fn resolve(&self, key: Option<u64>) -> (r: Option<&Window>)
        ensures
            match r {
                Some(w) => self.resolved(key) == Some(*w),
                None => self.resolved(key) is None,
            },
    {
        match key {
            Some(key) => self.find(key),
            None => None,
        }
    }

    /// Find the state of an X11 window.
    pub fn find_x11(&self, window: u32) -> (r: Option<X11State>)
        ensures
            r == self.x11_state(window),
    {
        let mut i: usize = 0;
        while i < self.x11.len()
            invariant
                i <= self.x11.len(),
                first_index(self.x11@, has_window(window), 0) == first_index(
                    self.x11@,
                    has_window(window),
                    i as int,
                ),
            decreases self.x11.len() - i,
        {
            if self.x11[i].window == window {
                return Some(self.x11[i]);
            }
            i += 1;
        }
        None
    }

    /// Get the Wayland surface behind a handle.
    pub fn maybe_surface(&self, handle: SurfaceHandle) -> (r: Option<u64>)
        ensures
            r == self.wl_surface(handle),
    {
        match handle {
            SurfaceHandle::Xdg(surface) => Some(surface),
            SurfaceHandle::X11(window) => match self.find_x11(window) {
                Some(state) => state.wl_surface,
                None => None,
            },
        }
    }

    /// Check if two handles refer to the same surface.
    pub fn is_same_surface(&self, a: SurfaceHandle, b: SurfaceHandle) -> (r: bool)
        ensures
            r == self.same_surface(a, b),
    {
        a == b && match a {
            SurfaceHandle::Xdg(_) => true,
            SurfaceHandle::X11(window) => match self.find_x11(window) {
                Some(state) => state.alive,
                None => false,
            },
        }
    }

    /// Condition on windows to show a Wayland surface.
    pub open spec fn shows(&self, surface: u64) -> spec_fn(Window) -> bool {
        |w: Window| self.wl_surface(w.surface) == Some(surface)
    }

    /// Condition on windows to have a surface.
    pub open spec fn has_surface(&self, handle: SurfaceHandle) -> spec_fn(Window) -> bool {
        |w: Window| self.same_surface(w.surface, handle)
    }

    /// Window in the layouts which shows a surface.
    pub open spec fn surface_window(&self, surface: u64) -> Option<Window> {
        first(self.windows@, self.shows(surface))
    }

    /// Find the window in the layouts which shows a surface.
    pub fn find_window(&self, surface: u64) -> (r: Option<&Window>)
        ensures
            match r {
                Some(w) => self.surface_window(surface) == Some(*w),
                None => self.surface_window(surface) is None,
            },
    {
        let mut i: usize = 0;
        while i < self.windows.len()
            invariant
                i <= self.windows.len(),
                first_index(self.windows@, self.shows(surface), 0) == first_index(
                    self.windows@,
                    self.shows(surface),
                    i as int,
                ),
            decreases self.windows.len() - i,
        {
            if self.maybe_surface(self.windows[i].surface) == Some(surface) {
                return Some(&self.windows[i]);
            }
            i += 1;
        }
        None
    }

    /// Window in the layouts with the same surface as a handle.
    pub open spec fn handle_window(&self, handle: SurfaceHandle) -> Option<Window> {
        first(self.windows@, self.has_surface(handle))
    }

    /// Find the window in the layouts with the same surface as a handle.
    pub fn find_handle(&self, handle: SurfaceHandle) -> (r: Option<&Window>)
        ensures
            match r {
                Some(w) => self.handle_window(handle) == Some(*w),
                None => self.handle_window(handle) is None,
            },
    {
        let mut i: usize = 0;
        while i < self.windows.len()
            invariant
                i <= self.windows.len(),
                first_index(self.windows@, self.has_surface(handle), 0) == first_index(
                    self.windows@,
                    self.has_surface(handle),
                    i as int,
                ),
            decreases self.windows.len() - i,
        {
            if self.is_same_surface(self.windows[i].surface, handle) {
                return Some(&self.windows[i]);
            }
            i += 1;
        }
        None
    }

    /// Index of the layout with an ID.
    pub open spec fn index_of(&self, id: u64) -> Option<int> {
        first_index(self.layouts@, has_id(id), 0)
    }

    /// Find the index of the layout with an ID.
    pub fn index_of_layout(&self, id: u64) -> (r: Option<usize>)
        ensures
            match r {
                Some(i) => self.index_of(id) == Some(i as int) && i < self.layouts.len(),
                None => self.index_of(id) is None,
            },
    {
        let mut i: usize = 0;
        while i < self.layouts.len()
            invariant
                i <= self.layouts.len(),
                first_index(self.layouts@, has_id(id), 0) == first_index(
                    self.layouts@,
                    has_id(id),
                    i as int,
                ),
            decreases self.layouts.len() - i,
        {
            if self.layouts[i].id == id {
                return Some(i);
            }
            i += 1;
        }
        None
    }

    /// Window at a place.
    pub open spec fn key_at(&self, position: LayoutPosition) -> Option<u64> {
        if position.index < self.layouts.len() {
            if position.secondary {
                self.layouts[position.index as int].secondary
            } else {
                self.layouts[position.index as int].primary
            }
        } else {
            None
        }
    }

    /// Get the window at a place.
    pub fn window_at(&self, position: LayoutPosition) -> (r: Option<u64>)
        ensures
            r == self.key_at(position),
    {
        if position.index < self.layouts.len() {
            if position.secondary {
                self.layouts[position.index].secondary
            } else {
                self.layouts[position.index].primary
            }
        } else {
            None
        }
    }

    /// Whether an optional window shows a surface.
    pub open spec fn key_shows(&self, key: Option<u64>, surface: u64) -> bool {
        self.resolved(key) matches Some(w) && self.wl_surface(w.surface) == Some(surface)
    }

    /// Place of the first window from a layout on which shows a surface.
    pub open spec fn place_from(&self, surface: u64, from: int) -> Option<LayoutPosition>
        decreases self.layouts.len() - from,
    {
        if from >= self.layouts.len() {
            None
        } else if self.key_shows(self.layouts[from].primary, surface) {
            Some(LayoutPosition { index: from as usize, secondary: false })
        } else if self.key_shows(self.layouts[from].secondary, surface) {
            Some(LayoutPosition { index: from as usize, secondary: true })
        } else {
            self.place_from(surface, from + 1)
        }
    }

    fn is_shown_by(&self, key: Option<u64>, surface: u64) -> (r: bool)
        ensures
            r == self.key_shows(key, surface),
    {
        match self.resolve(key) {
            Some(w) => self.maybe_surface(w.surface) == Some(surface),
            None => false,
        }
    }

    /// Find the place of the window which shows a surface.
    pub fn position(&self, surface: u64) -> (r: Option<LayoutPosition>)
        ensures
            r == self.place_from(surface, 0),
    {
        let mut i: usize = 0;
        while i < self.layouts.len()
            invariant
                i <= self.layouts.len(),
                self.place_from(surface, 0) == self.place_from(surface, i as int),
            decreases self.layouts.len() - i,
        {
            if self.is_shown_by(self.layouts[i].primary, surface) {
                return Some(LayoutPosition { index: i, secondary: false });
            }
            if self.is_shown_by(self.layouts[i].secondary, surface) {
                return Some(LayoutPosition { index: i, secondary: true });
            }
            i += 1;
        }
        None
    }
}

/// All layer shell windows.
#[derive(Debug, PartialEq, Eq)]
pub struct Layers {
    pub windows: Vec<LayerWindow>,
    /// Surfaces of the windows above the layouts, in drawing order.
    pub foreground: Vec<u64>,
    /// Surfaces of the windows below the layouts, in drawing order.
    pub background: Vec<u64>,
    /// Surfaces of the windows above fullscreen windows, in drawing order.
    pub overlay: Vec<u64>,
    /// Focused layer surface.
    pub focus: Option<SurfaceFocus>,
}

/// Focused Wayland surface with its App ID.
#[derive(Debug, PartialEq, Eq)]
pub struct SurfaceFocus {
    pub surface: u64,
    pub app_id: Option<String>,
}

impl Clone for SurfaceFocus {
    fn clone(&self) -> (r: Self)
        ensures
            r == *self,
    {
        SurfaceFocus { surface: self.surface, app_id: clone_opt(&self.app_id) }
    }
}

/// Condition on layer windows to have a surface.
pub open spec fn is_layer(surface: u64) -> spec_fn(LayerWindow) -> bool {
    |w: LayerWindow| w.surface == surface
}

impl Layers {
    /// Layer window with a surface.
    pub open spec fn layer(&self, surface: u64) -> Option<LayerWindow> {
        first(self.windows@, is_layer(surface))
    }

    /// Find the layer window with a surface.
    pub fn find(&self, surface: u64) -> (r: Option<&LayerWindow>)
        ensures
            match r {
                Some(w) => self.layer(surface) == Some(*w),
                None => self.layer(surface) is None,
            },
    {
        let mut i: usize = 0;
        while i < self.windows.len()
            invariant
                i <= self.windows.len(),
                first_index(self.windows@, is_layer(surface), 0) == first_index(
                    self.windows@,
                    is_layer(surface),
                    i as int,
                ),
            decreases self.windows.len() - i,
        {
            if self.windows[i].surface == surface {
                return Some(&self.windows[i]);
            }
            i += 1;
        }
        None
    }
}

/// Output orientation, by its number.
#[derive(Clone, Copy, Debug, PartialEq, Eq, Structural)]
pub struct Orientation {
    pub number: u8,
}

/// Output state used for one frame.
#[derive(Clone, Copy, Debug, PartialEq, Eq, Structural)]
pub struct Canvas {
    pub orientation: Orientation,
    pub scale: FloatBits,
    /// Logical size of the output.
    pub size: Size,
}

/// Output with its current canvas.
#[derive(Clone, Copy, Debug, PartialEq, Eq, Structural)]
pub struct Output {
    pub canvas: Canvas,
}

/// Resolution and refresh rate in millihertz.
#[derive(Clone, Copy, Debug, PartialEq, Eq, Structural)]
pub struct Mode {
    pub size: Size,
    pub refresh: i32,
}

/// Description of a client.
#[derive(Debug, PartialEq, Eq)]
pub struct ClientInfo {
    pub title: String,
    pub app_id: String,
    pub pid: Option<i32>,
}

} // verus!
