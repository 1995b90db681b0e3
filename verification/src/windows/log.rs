//! Descriptions of the scene for the log.

use vstd::prelude::*;

use crate::action::Action;
use crate::text::{clone_or_empty, or_empty};
use crate::windows::scene::{LayerWindow, Layout, SurfaceHandle, Window};
use crate::windows::state::{ActiveView, Windows};

verus! {

/// Kind of a view.
#[derive(Clone, Copy, Debug, PartialEq, Eq, Structural)]
pub enum ViewKind {
    Workspace,
    Overview,
    DragAndDrop,
    Fullscreen,
    Lock,
}

impl ViewKind {
    /// Name of the kind.
    pub open spec fn name(self) -> Seq<char> {
        match self {
            ViewKind::Workspace => "Workspace"@,
            ViewKind::Overview => "Overview"@,
            ViewKind::DragAndDrop => "DragAndDrop"@,
            ViewKind::Fullscreen => "Fullscreen"@,
            ViewKind::Lock => "Lock"@,
        }
    }

    /// Get the name of the kind.
    pub fn text(self) -> (r: String)
        ensures
            r@ == self.name(),
    {
        match self {
            ViewKind::Workspace => "Workspace".to_string(),
            ViewKind::Overview => "Overview".to_string(),
            ViewKind::DragAndDrop => "DragAndDrop".to_string(),
            ViewKind::Fullscreen => "Fullscreen".to_string(),
            ViewKind::Lock => "Lock".to_string(),
        }
    }
}

/// Kind of a view.
pub open spec fn kind_of(view: ActiveView) -> ViewKind {
    match view {
        ActiveView::Workspace => ViewKind::Workspace,
        ActiveView::Overview(_) => ViewKind::Overview,
        ActiveView::DragAndDrop(_) => ViewKind::DragAndDrop,
        ActiveView::Fullscreen(_) => ViewKind::Fullscreen,
        ActiveView::Lock(_) => ViewKind::Lock,
    }
}

/// Get the kind of a view.
pub fn view_kind(view: &ActiveView) -> (r: ViewKind)
    ensures
        r == kind_of(*view),
{
    match view {
        ActiveView::Workspace => ViewKind::Workspace,
        ActiveView::Overview(_) => ViewKind::Overview,
        ActiveView::DragAndDrop(_) => ViewKind::DragAndDrop,
        ActiveView::Fullscreen(_) => ViewKind::Fullscreen,
        ActiveView::Lock(_) => ViewKind::Lock,
    }
}

/// Titles in a layout.
#[derive(Debug, PartialEq, Eq)]
pub struct LayoutTitles {
    pub active: bool,
    pub primary: String,
    pub secondary: String,
}

/// Names of a layer shell window.
#[derive(Debug, PartialEq, Eq)]
pub struct LayerNames {
    pub alive: bool,
    pub title: String,
    pub app_id: String,
}

/// Stack of everything which might be on screen.
#[derive(Debug, PartialEq, Eq)]
pub struct SceneStack {
    pub view: ViewKind,
    pub active: u64,
    pub layouts: Vec<LayoutTitles>,
    pub layers: Vec<LayerNames>,
    /// Title and App ID of the focused window.
    pub focus: Option<(String, String)>,
}

/// Description of a window.
#[derive(Debug, PartialEq, Eq)]
pub struct WindowInfo {
    pub alive: bool,
    pub x11: bool,
    pub title: String,
    pub xdg_id: String,
    pub app_id: String,
}

/// Description of a layout.
#[derive(Debug, PartialEq, Eq)]
pub struct LayoutInfo {
    pub active: bool,
    pub id: u64,
    pub primary: Option<WindowInfo>,
    pub secondary: Option<WindowInfo>,
}

/// Tree of all windows.
#[derive(Debug, PartialEq, Eq)]
pub struct WindowTree {
    pub view: ViewKind,
    pub active: u64,
    pub parents: Vec<u64>,
    pub layouts: Vec<LayoutInfo>,
    pub layers: Vec<LayerNames>,
    /// Title and App ID of the focused window.
    pub focus: Option<(String, String)>,
}

/// Whether names are those of a layer shell window.
pub open spec fn names_layer(names: LayerNames, w: LayerWindow) -> bool {
    &&& names.alive == w.alive
    &&& names.title@ == or_empty(w.title)
    &&& names.app_id@ == or_empty(w.final_id())
}

/// Whether a description is that of an optional window.
pub open spec fn describes_window(info: Option<WindowInfo>, w: Option<Window>) -> bool {
    match (info, w) {
        (Some(info), Some(w)) => {
            &&& info.alive == w.alive
            &&& info.x11 == (w.surface is X11)
            &&& info.title@ == or_empty(w.title)
            &&& info.xdg_id@ == or_empty(w.xdg_app_id)
            &&& info.app_id@ == or_empty(w.app_id)
        },
        (None, None) => true,
        _ => false,
    }
}

/// Title of an optional window.
pub open spec fn title_of(w: Option<Window>) -> Seq<char> {
    match w {
        Some(w) => or_empty(w.title),
        None => Seq::empty(),
    }
}

/// Whether a description of the focus is exact.
pub open spec fn describes_focus(
    focus: Option<(String, String)>,
    names: Option<(Seq<char>, Seq<char>)>,
) -> bool {
    match focus {
        Some((title, app_id)) => names == Some((title@, app_id@)),
        None => names is None,
    }
}

fn copy_title(w: Option<&Window>) -> (r: String)
    ensures
        match w {
            Some(w) => r@ == title_of(Some(*w)),
            None => r@ == title_of(None),
        },
{
    match w {
        Some(w) => w.title_or_empty(),
        None => String::new(),
    }
}

fn describe_window(w: Option<&Window>) -> (r: Option<WindowInfo>)
    ensures
        match w {
            Some(w) => describes_window(r, Some(*w)),
            None => describes_window(r, None),
        },
{
    match w {
        Some(w) => Some(
            WindowInfo {
                alive: w.alive,
                x11: match w.surface {
                    SurfaceHandle::X11(_) => true,
                    SurfaceHandle::Xdg(_) => false,
                },
                title: w.title_or_empty(),
                xdg_id: clone_or_empty(&w.xdg_app_id),
                app_id: clone_or_empty(&w.app_id),
            },
        ),
        None => None,
    }
}

impl Windows {
    /// Whether titles are those of a layout.
    pub open spec fn titles_layout(&self, titles: LayoutTitles, layout: Layout) -> bool {
        &&& titles.active == (layout.id == self.layouts.active.id)
        &&& titles.primary@ == title_of(self.layouts.resolved(layout.primary))
        &&& titles.secondary@ == title_of(self.layouts.resolved(layout.secondary))
    }

    /// Whether a description is that of a layout.
    pub open spec fn describes_layout(&self, info: LayoutInfo, layout: Layout) -> bool {
        &&& info.active == (layout.id == self.layouts.active.id)
        &&& info.id == layout.id
        &&& describes_window(info.primary, self.layouts.resolved(layout.primary))
        &&& describes_window(info.secondary, self.layouts.resolved(layout.secondary))
    }

    /// Whether names are those of all layer shell windows.
    pub open spec fn names_layers(&self, names: Seq<LayerNames>) -> bool {
        &&& names.len() == self.layers.windows.len()
        &&& forall|i: int|
            0 <= i < names.len() ==> names_layer(#[trigger] names[i], self.layers.windows[i])
    }

    fn collect_layers(&self) -> (r: Vec<LayerNames>)
        ensures
            self.names_layers(r@),
    {
        let mut r: Vec<LayerNames> = Vec::new();
        let mut i: usize = 0;
        while i < self.layers.windows.len()
            invariant
                i <= self.layers.windows.len(),
                r.len() == i,
                forall|j: int|
                    0 <= j < i ==> names_layer(#[trigger] r@[j], self.layers.windows[j]),
            decreases self.layers.windows.len() - i,
        {
            let layer = &self.layers.windows[i];
            r.push(
                LayerNames {
                    alive: layer.alive,
                    title: clone_or_empty(&layer.title),
                    app_id: clone_or_empty(layer.preferred_id()),
                },
            );
            i += 1;
        }
        r
    }

    /// Whether a description is that of the scene.
    pub open spec fn describes_scene(&self, scene: SceneStack) -> bool {
        &&& scene.view == kind_of(self.pending())
        &&& scene.active == self.layouts.active.id
        &&& scene.layouts.len() == self.layouts.layouts.len()
        &&& forall|i: int|
            0 <= i < scene.layouts.len() ==> self.titles_layout(
                #[trigger] scene.layouts@[i],
                self.layouts.layouts[i],
            )
        &&& self.names_layers(scene.layers@)
        &&& describes_focus(scene.focus, self.focused_names())
    }

    /// Describe the scene.
    pub fn log_scene_stack(&self) -> (r: SceneStack)
        ensures
            self.describes_scene(r),
    {
        let mut layouts: Vec<LayoutTitles> = Vec::new();
        let mut i: usize = 0;
        while i < self.layouts.layouts.len()
            invariant
                i <= self.layouts.layouts.len(),
                layouts.len() == i,
                forall|j: int|
                    0 <= j < i ==> self.titles_layout(
                        #[trigger] layouts@[j],
                        self.layouts.layouts[j],
                    ),
            decreases self.layouts.layouts.len() - i,
        {
            let layout = self.layouts.layouts[i];
            layouts.push(
                LayoutTitles {
                    active: layout.id == self.layouts.active.id,
                    primary: copy_title(self.layouts.resolve(layout.primary)),
                    secondary: copy_title(self.layouts.resolve(layout.secondary)),
                },
            );
            i += 1;
        }
        SceneStack {
            view: view_kind(self.pending_view()),
            active: self.layouts.active.id,
            layouts,
            layers: self.collect_layers(),
            focus: self.active_window_info(),
        }
    }

    /// Describe the focus graph.
    pub fn log_focus_graph(&self) -> (r: SceneStack)
        ensures
            self.describes_scene(r),
    {
        self.log_scene_stack()
    }

    /// Describe the window tree.
    pub fn log_window_tree(&self) -> (r: WindowTree)
        ensures
            self.describes_tree(r),
            r.view == kind_of(self.view),
            r.active == self.layouts.active.id,
            r.parents@ == self.layouts.parent_layouts@,
            r.layouts.len() == self.layouts.layouts.len(),
            forall|i: int|
                0 <= i < r.layouts.len() ==> self.describes_layout(
                    #[trigger] r.layouts@[i],
                    self.layouts.layouts[i],
                ),
            self.names_layers(r.layers@),
            describes_focus(r.focus, self.focused_names()),
    {
        let mut parents: Vec<u64> = Vec::new();
        let mut i: usize = 0;
        while i < self.layouts.parent_layouts.len()
            invariant
                i <= self.layouts.parent_layouts.len(),
                parents@ == self.layouts.parent_layouts@.take(i as int),
            decreases self.layouts.parent_layouts.len() - i,
        {
            parents.push(self.layouts.parent_layouts[i]);
            i += 1;
        }
        assert(parents@ =~= self.layouts.parent_layouts@);
        let mut layouts: Vec<LayoutInfo> = Vec::new();
        let mut i: usize = 0;
        while i < self.layouts.layouts.len()
            invariant
                i <= self.layouts.layouts.len(),
                layouts.len() == i,
                forall|j: int|
                    0 <= j < i ==> self.describes_layout(
                        #[trigger] layouts@[j],
                        self.layouts.layouts[j],
                    ),
            decreases self.layouts.layouts.len() - i,
        {
            let layout = self.layouts.layouts[i];
            layouts.push(
                LayoutInfo {
                    active: layout.id == self.layouts.active.id,
                    id: layout.id,
                    primary: describe_window(self.layouts.resolve(layout.primary)),
                    secondary: describe_window(self.layouts.resolve(layout.secondary)),
                },
            );
            i += 1;
        }
        WindowTree {
            view: view_kind(&self.view),
            active: self.layouts.active.id,
            parents,
            layouts,
            layers: self.collect_layers(),
            focus: self.active_window_info(),
        }
    }

    /// Whether a description is that of the window tree.
    pub open spec fn describes_tree(&self, tree: WindowTree) -> bool {
        &&& tree.view == kind_of(self.view)
        &&& tree.active == self.layouts.active.id
        &&& tree.parents@ == self.layouts.parent_layouts@
        &&& tree.layouts.len() == self.layouts.layouts.len()
        &&& forall|i: int|
            0 <= i < tree.layouts.len() ==> self.describes_layout(
                #[trigger] tree.layouts@[i],
                self.layouts.layouts[i],
            )
        &&& self.names_layers(tree.layers@)
        &&& describes_focus(tree.focus, self.focused_names())
    }

    /// Trace changes of the scene in the log, or stop doing so.
    pub fn set_trace_scene_enabled(&mut self, enabled: bool, out: &mut Vec<Action>)
        ensures
            *final(self) == (Windows { trace_scene_enabled: enabled, ..*old(self) }),
            final(out)@ == (if enabled {
                old(out)@.push(Action::LogScene)
            } else {
                old(out)@
            }),
    {
        self.trace_scene_enabled = enabled;
        if enabled {
            out.push(Action::LogScene);
        }
    }
}

} // verus!
