//! What is learned from launched applications, and what the log tells of windows.

use vstd::prelude::*;

use crate::action::Action;
use crate::text::or_empty;
use crate::windows::launch::learned;
use crate::windows::log::{
    describes_window, kind_of, names_layer, LayerNames, LayoutInfo, SceneStack, ViewKind,
    WindowInfo, WindowTree,
};
use crate::windows::scene::{LayerWindow, Layout, Window};
use crate::windows::state::{ActiveView, Windows};

verus! {

/// A noted launch is remembered with everything that is known of it, until a window shows up.
pub proof fn law_launches_are_remembered(
    s: Windows,
    command: String,
    command_key: Option<String>,
    card_id: Option<String>,
    pgid: Option<i32>,
    now: u64,
    pid: i32,
)
    ensures
        ({
            let t = s.with_launch(command, command_key, card_id, pgid, now);
            &&& t.last_launch matches Some(launch) && launch.command == command && launch.time
                == now
            &&& t.pending_launch matches Some(ctx) && ctx.command == command && ctx.command_key
                == command_key && ctx.card_id == card_id && ctx.time == now && ctx.pid is None
                && ctx.pgid == pgid
            &&& t.launch_group() == pgid
            &&& t == (Windows {
                last_launch: t.last_launch,
                pending_launch: t.pending_launch,
                ..s
            })
            &&& t.with_process(pid).launch_group() == Some(pid)
        }),
        s.pending_launch is None ==> s.with_process(pid) == s && s.launch_group() is None,
        s.pending_launch matches Some(ctx) ==> {
            let t = s.with_process(pid);
            &&& t.pending_launch matches Some(new) && new.pid == Some(pid) && new.pgid == Some(pid)
                && new.command == ctx.command && new.command_key == ctx.command_key && new.card_id
                == ctx.card_id && new.time == ctx.time
            &&& t == (Windows { pending_launch: t.pending_launch, ..s })
        },
{
}

/// A new window is shown and focused, and gets the process group of its launch.
///
/// The launch is over then. Everything else stays as it was.
pub proof fn law_new_windows_are_focused(
    s: Windows,
    after: Windows,
    window: Window,
    view: ActiveView,
)
    requires
        s.window_added(after, window, view),
    ensures
        after.view == view,
        after.layouts.focus == Some(window.key),
        after.layouts.loose.len() == s.layouts.loose.len() + 1,
        after.layouts.loose@.last().key == window.key,
        after.layouts.loose@.last().surface == window.surface,
        s.pending_launch matches Some(ctx) ==> after.layouts.loose@.last().process_group == ctx.pgid,
        s.pending_launch is None ==> after.layouts.loose@.last().process_group is None,
        after.pending_launch is None,
        after.last_launch is None,
        after.layouts.windows == s.layouts.windows,
        after.layouts.layouts == s.layouts.layouts,
        after.layers == s.layers,
        after.transaction == s.transaction,
        after.timer == s.timer,
        after.activated == s.activated,
{
}

/// The App ID of a new window is learned for the command and the card it was launched with, and
/// for nothing else.
pub proof fn law_new_windows_are_learned(
    s: Windows,
    after: Windows,
    window: Window,
    view: ActiveView,
    name: Seq<char>,
)
    requires
        s.window_added(after, window, view),
    ensures
        s.pending_launch matches Some(ctx) ==> {
            &&& ctx.command_key matches Some(key) ==> after.command_map@.contains_pair(
                key@,
                or_empty(window.final_id()),
            )
            &&& ctx.card_id matches Some(card) ==> after.card_map@.contains_pair(
                card@,
                or_empty(window.final_id()),
            )
            &&& (ctx.command_key matches Some(key) ==> key@ != name) ==> (
            after.command_map@.contains_key(name) == s.command_map@.contains_key(name) && (
            s.command_map@.contains_key(name) ==> after.command_map@[name] == s.command_map@[name]))
            &&& (ctx.card_id matches Some(card) ==> card@ != name) ==> (
            after.card_map@.contains_key(name) == s.card_map@.contains_key(name) && (
            s.card_map@.contains_key(name) ==> after.card_map@[name] == s.card_map@[name]))
        },
        s.pending_launch is None ==> after.command_map == s.command_map && after.card_map
            == s.card_map,
{
}

/// New windows are shown in fullscreen, but for the overlay.
pub proof fn law_only_the_overlay_opens_in_the_workspace(window: Window)
    ensures
        window.title is Some && window.title->0@ == "JollyPad-Overlay"@ ==> Windows::first_view(
            window,
        ) == ActiveView::Workspace,
        !(window.title is Some && window.title->0@ == "JollyPad-Overlay"@) ==> Windows::first_view(
            window,
        ) == ActiveView::Fullscreen(window.key),
{
    reveal_strlit("JollyPad-Overlay");
    assert(or_empty(None).len() == 0);
}

/// The window of a launch is reported with its names and with the time since the launch, and the
/// learned names are stored.
///
/// Nothing is reported without a launch.
pub proof fn law_launches_are_reported(s: Windows, window: Window, x11: bool, now: u64)
    ensures
        s.last_launch is None ==> s.launch_report(window, x11, now).len() == 0,
        s.last_launch matches Some(launch) ==> {
            let report = s.launch_report(window, x11, now);
            &&& report.len() == 1
            &&& report[0] matches Action::LogLaunch {
                x11: from_x11,
                title,
                xdg_app_id,
                app_id,
                final_id,
                elapsed_ms,
                command,
            } && from_x11 == x11 && title == window.title && xdg_app_id == window.xdg_app_id
                && app_id == window.app_id && (window.xdg_app_id is Some ==> final_id
                == window.xdg_app_id) && (window.xdg_app_id is None ==> final_id == window.app_id)
                && command == launch.command && (now < launch.time ==> elapsed_ms == 0) && (now
                >= launch.time ==> elapsed_ms * 1_000_000 <= now - launch.time < (elapsed_ms + 1)
                * 1_000_000)
        },
        s.pending_launch is Some ==> s.mapping_storage() == seq![Action::SaveMappings],
        s.pending_launch is None ==> s.mapping_storage().len() == 0,
{
}

/// Views of different kinds are told apart, by name as well.
pub proof fn law_kinds_of_views(a: ActiveView, b: ActiveView)
    ensures
        kind_of(a) is Workspace <==> a is Workspace,
        kind_of(a) is Overview <==> a is Overview,
        kind_of(a) is DragAndDrop <==> a is DragAndDrop,
        kind_of(a) is Fullscreen <==> a is Fullscreen,
        kind_of(a) is Lock <==> a is Lock,
        ViewKind::Workspace.name() == "Workspace"@,
        ViewKind::Overview.name() == "Overview"@,
        ViewKind::DragAndDrop.name() == "DragAndDrop"@,
        ViewKind::Fullscreen.name() == "Fullscreen"@,
        ViewKind::Lock.name() == "Lock"@,
{
}

/// The description of a window tells its state and its names, each in its own place.
pub proof fn law_windows_are_described(info: WindowInfo, w: Window)
    ensures
        describes_window(Some(info), Some(w)) <==> {
            &&& info.alive == w.alive
            &&& info.x11 == w.surface is X11
            &&& w.title matches Some(t) ==> info.title@ == t@
            &&& w.title is None ==> info.title@.len() == 0
            &&& w.xdg_app_id matches Some(t) ==> info.xdg_id@ == t@
            &&& w.xdg_app_id is None ==> info.xdg_id@.len() == 0
            &&& w.app_id matches Some(t) ==> info.app_id@ == t@
            &&& w.app_id is None ==> info.app_id@.len() == 0
        },
        !describes_window(None, Some(w)),
        !describes_window(Some(info), None),
        describes_window(None, None),
{
    assert(forall|s: Seq<char>| #[trigger] s.len() == 0 ==> s =~= Seq::<char>::empty());
}

/// Layers are described by their state, their title and their App ID.
pub proof fn law_layers_are_described(names: LayerNames, w: LayerWindow)
    requires
        names_layer(names, w),
    ensures
        names.alive == w.alive,
        w.title matches Some(t) ==> names.title@ == t@,
        w.title is None ==> names.title@.len() == 0,
        w.xdg_app_id matches Some(t) ==> names.app_id@ == t@,
        w.xdg_app_id is None ==> (w.app_id matches Some(t) ==> names.app_id@ == t@),
{
}

/// The scene is that of the view which comes next, with all layouts and layers in their order.
pub proof fn law_scenes_are_described(s: Windows, scene: SceneStack, at: int, key: u64, w: Window)
    requires
        s.describes_scene(scene),
    ensures
        scene.view == kind_of(s.pending()),
        scene.active == s.layouts.active.id,
        scene.layouts.len() == s.layouts.layouts.len(),
        scene.layers.len() == s.layers.windows.len(),
        0 <= at < s.layouts.layouts.len() ==> {
            let layout = s.layouts.layouts[at];
            let titles = scene.layouts[at];
            &&& titles.active <==> layout.id == s.layouts.active.id
            &&& layout.primary == Some(key) && s.layouts.window(key) == Some(w)
                ==> titles.primary@ == or_empty(w.title)
            &&& layout.secondary == Some(key) && s.layouts.window(key) == Some(w)
                ==> titles.secondary@ == or_empty(w.title)
            &&& layout.primary is None ==> titles.primary@.len() == 0
            &&& layout.secondary is None ==> titles.secondary@.len() == 0
        },
        0 <= at < s.layers.windows.len() ==> names_layer(scene.layers[at], s.layers.windows[at]),
        s.layouts.focus == Some(key) && s.layouts.window(key) == Some(w) ==> (
        scene.focus matches Some((title, app_id)) && title@ == or_empty(w.title) && app_id@
            == or_empty(w.final_id())),
        s.layouts.focus is None ==> scene.focus is None,
{
    if 0 <= at < s.layouts.layouts.len() {
        assert(s.titles_layout(scene.layouts@[at], s.layouts.layouts[at]));
    }
    if 0 <= at < s.layers.windows.len() {
        assert(names_layer(scene.layers@[at], s.layers.windows[at]));
    }
}

/// Layouts are described with both of their windows.
pub proof fn law_layouts_are_described(s: Windows, info: LayoutInfo, layout: Layout)
    requires
        s.describes_layout(info, layout),
    ensures
        info.id == layout.id,
        info.active <==> layout.id == s.layouts.active.id,
        describes_window(info.primary, s.layouts.resolved(layout.primary)),
        describes_window(info.secondary, s.layouts.resolved(layout.secondary)),
{
}

/// A new window gets a layout, after an XDG window was told its states, and its launch is noted
/// at the end.
pub proof fn law_new_windows_get_a_layout(s: Windows, window: Window, now: u64)
    ensures
        ({
            let all = s.window_creation(window, false, now);
            &&& all.len() >= 2
            &&& all[0] == Action::PrepareToplevel { window: window.key }
            &&& all[1] == Action::CreateLayout { window: window.key }
            &&& all.skip(2) == s.launch_report(window, false, now) + s.mapping_storage()
        }),
        ({
            let all = s.window_creation(window, true, now);
            &&& all.len() >= 1
            &&& all[0] == Action::CreateLayout { window: window.key }
            &&& all.skip(1) == s.launch_report(window, true, now) + s.mapping_storage()
        }),
{
    assert(s.window_creation(window, false, now).skip(2) =~= s.launch_report(window, false, now)
        + s.mapping_storage());
    assert(s.window_creation(window, true, now).skip(1) =~= s.launch_report(window, true, now)
        + s.mapping_storage());
}

/// The window tree is that of the view on screen, with all parents, layouts and layers in order.
pub proof fn law_trees_are_described(s: Windows, tree: WindowTree, at: int, key: u64, w: Window)
    requires
        s.describes_tree(tree),
    ensures
        tree.view == kind_of(s.view),
        tree.active == s.layouts.active.id,
        tree.parents@ == s.layouts.parent_layouts@,
        tree.layouts.len() == s.layouts.layouts.len(),
        tree.layers.len() == s.layers.windows.len(),
        0 <= at < tree.layouts.len() ==> tree.layouts[at].id == s.layouts.layouts[at].id && (
        tree.layouts[at].active <==> s.layouts.layouts[at].id == s.layouts.active.id)
            && describes_window(
            tree.layouts[at].primary,
            s.layouts.resolved(s.layouts.layouts[at].primary),
        ) && describes_window(
            tree.layouts[at].secondary,
            s.layouts.resolved(s.layouts.layouts[at].secondary),
        ),
        0 <= at < tree.layers.len() ==> names_layer(tree.layers[at], s.layers.windows[at]),
        s.layouts.focus == Some(key) && s.layouts.window(key) == Some(w) ==> (
        tree.focus matches Some((title, app_id)) && title@ == or_empty(w.title) && app_id@
            == or_empty(w.final_id())),
        s.layouts.focus is None ==> tree.focus is None,
{
    if 0 <= at < tree.layouts.len() {
        assert(s.describes_layout(tree.layouts@[at], s.layouts.layouts[at]));
    }
    if 0 <= at < tree.layers.len() {
        assert(names_layer(tree.layers@[at], s.layers.windows[at]));
    }
}

} // verus!
