use catacomb::action::{Action, Area, Signal, Target};
use catacomb::app_id::{Accepted, AppIdMatcher, Patterns};
use catacomb::geometry::{FloatBits, Point, Rectangle, Size};
use catacomb::string_map::StringMap;
use catacomb::trials::Trials;
use catacomb::windows::clients::{
    AdoptionStep, Commit, LayerCommit, PopupCommit, PopupCommitStep,
};
use catacomb::windows::draw::{Cursor, DrawItem, FrameTarget};
use catacomb::windows::focus::SWITCH_DELAY;
use catacomb::windows::input::{
    DragMovement, DragState, DropZone, GestureState, HandleGesture, HandleZone, Hits, LayerHit,
};
use catacomb::windows::log::ViewKind;
use catacomb::windows::scene::{
    Canvas, Layer, LayerWindow, Layers, Layout, LayoutPosition, Layouts, LockWindow, Mode,
    Orientation, Output, PopupWindow, SurfaceFocus, SurfaceHandle, Window, X11State,
};
use catacomb::windows::start_transaction;
use catacomb::windows::state::{
    ActiveView, Clock, DragActionType, DragAndDrop, LaunchCtx, Overview, PendingResume,
    PendingSuspend, Transaction, TransactionTimer, WindowScale,
};
use catacomb::windows::surface::{FloatPoint, InputSurface, InputSurfaceKind};
use catacomb::windows::transaction::{AppliedTransaction, TransactionStep};
use catacomb::windows::Windows;

const NOW: Clock = Clock { wall_ms: 5000, mono_ns: 1_000_000_000 };

fn text(s: &str) -> Option<String> {
    Some(s.to_string())
}

fn area(w: i32, h: i32) -> Rectangle {
    Rectangle { loc: Point { x: 0, y: 0 }, size: Size { w, h } }
}

/// XDG window whose surface is its key plus 100.
fn window(key: u64, title: &str, app_id: &str) -> Window {
    Window {
        key,
        surface: SurfaceHandle::Xdg(key + 100),
        title: text(title),
        xdg_app_id: text(app_id),
        app_id: text(app_id),
        process_group: None,
        alive: true,
        dirty: false,
        transaction_done: true,
        surfaces: vec![key + 100, key + 200],
        bounds: area(key as i32, 1),
    }
}

fn layer(surface: u64, layer: Layer, app_id: &str) -> LayerWindow {
    LayerWindow {
        surface,
        title: None,
        xdg_app_id: None,
        app_id: text(app_id),
        layer,
        alive: true,
        dirty: false,
        transaction_done: true,
        deny_focus: false,
        surfaces: vec![surface],
        bounds: area(7, 7),
    }
}

fn lock_window(surface: u64) -> LockWindow {
    LockWindow {
        surface,
        app_id: text("lock"),
        dirty: false,
        transaction_done: false,
        surfaces: vec![surface],
        bounds: area(9, 9),
    }
}

fn layout(id: u64, primary: u64) -> Layout {
    Layout { id, primary: Some(primary), secondary: None }
}

fn overview(id: u64) -> Overview {
    Overview {
        id,
        opened: true,
        dirty: false,
        drag_action: DragActionType::Undecided,
        drag_done: false,
    }
}

fn canvas() -> Canvas {
    Canvas {
        orientation: Orientation { number: 0 },
        scale: FloatBits { bits: 1f64.to_bits() },
        size: Size { w: 1280, h: 800 },
    }
}

/// Two layouts: a game with key 1 and the home screen with key 2.
fn state() -> Windows {
    let layouts = Layouts {
        windows: vec![window(1, "Game", "org.game"), window(2, "JollyPad-Desktop", "jolly-home")],
        loose: Vec::new(),
        layouts: vec![layout(10, 1), layout(20, 2)],
        active: layout(10, 1),
        pending_active: layout(10, 1),
        visible: vec![1],
        parent_layouts: Vec::new(),
        focus: Some(1),
        x11: Vec::new(),
    };
    let layers = Layers {
        windows: Vec::new(),
        foreground: Vec::new(),
        background: Vec::new(),
        overlay: Vec::new(),
        focus: None,
    };
    Windows::new(
        Output { canvas: canvas() },
        layouts,
        layers,
        Orientation { number: 0 },
        StringMap::new(),
        StringMap::new(),
        Clock { wall_ms: 1, mono_ns: 0 },
    )
}

/// Verdicts which accept exactly the pattern itself.
fn literal(w: &Windows, extra: &[&str]) -> Patterns {
    let mut bases = w.patterns();
    bases.extend(extra.iter().map(|s| s.to_string()));
    let mut accepted = Vec::new();
    for base in &bases {
        for id in w.identifiers() {
            if id.as_ref() == Some(base) {
                accepted.push(Accepted { base: base.clone(), id });
            }
        }
    }
    Patterns { valid: bases, accepted }
}

fn matcher(base: &str) -> AppIdMatcher {
    AppIdMatcher { base: base.to_string() }
}

fn position(index: usize, secondary: bool) -> Option<LayoutPosition> {
    Some(LayoutPosition { index, secondary })
}

fn set_active(index: usize) -> Action {
    Action::SetActive { position: position(index, false), clear_parents: true }
}

#[test]
fn transaction_start_is_kept() {
    let mut timer = TransactionTimer { start: 0 };
    start_transaction(&mut timer, 17);
    assert_eq!(timer.start, 17);
    start_transaction(&mut timer, 18);
    assert_eq!(timer.start, 17);
}

#[test]
fn new_state_is_dirty_and_orientation_locked() {
    let w = state();
    assert!(w.damaged());
    assert!(w.orientation_locked());
    assert_eq!(w.view, ActiveView::Workspace);
    assert_eq!(*w.canvas(), canvas());
    assert_eq!(w.runtime(Clock { wall_ms: 0, mono_ns: 2_500_000 }), 2);
}

#[test]
fn runtime_starts_over() {
    let mut w = state();
    let millis = (1u64 << 32) + 3;
    assert_eq!(w.runtime(Clock { wall_ms: 0, mono_ns: millis * 1_000_000 }), 3);
    w.start_time = 10;
    assert_eq!(w.runtime(Clock { wall_ms: 0, mono_ns: 5 }), 0);
}

#[test]
fn app_is_focused_by_id_and_by_title() {
    let mut w = state();
    w.layers.focus = Some(SurfaceFocus { surface: 5, app_id: None });
    let patterns = literal(&w, &["jolly-home", "Game", "other"]);
    let mut out = Vec::new();
    assert!(w.focus_app(&matcher("jolly-home"), &patterns, 5, &mut out));
    assert_eq!(out, vec![set_active(1)]);
    assert_eq!(w.layers.focus, None);
    out.clear();
    assert!(w.focus_app(&matcher("Game"), &patterns, 5, &mut out));
    assert_eq!(out, vec![set_active(0)]);
    out.clear();
    assert!(!w.focus_app(&matcher("other"), &patterns, 5, &mut out));
    assert!(out.is_empty());
}

#[test]
fn secondary_windows_are_focused() {
    let mut w = state();
    w.layouts.layouts[0].secondary = Some(2);
    let patterns = literal(&w, &["jolly-home"]);
    assert_eq!(w.find_app(&matcher("jolly-home"), &patterns), position(0, true));
}

#[test]
fn missing_app_id_can_be_accepted() {
    let mut w = state();
    w.layouts.windows[1].xdg_app_id = None;
    w.layouts.windows[1].app_id = None;
    let patterns = Patterns {
        valid: vec!["any".to_string()],
        accepted: vec![Accepted { base: "any".to_string(), id: None }],
    };
    assert_eq!(w.find_app(&matcher("any"), &patterns), position(1, false));
}

#[test]
fn overlay_is_focused_above_its_parent() {
    let mut w = state();
    w.layouts.windows[1].title = text("JollyPad-Overlay");
    w.view = ActiveView::Fullscreen(1);
    let patterns = literal(&w, &["JollyPad-Overlay"]);
    let mut out = Vec::new();
    assert!(w.focus_app(&matcher("JollyPad-Overlay"), &patterns, 5, &mut out));
    assert_eq!(out, vec![
        Action::PushActiveToParent,
        Action::SetActive { position: position(1, false), clear_parents: false },
        Action::ResizePendingActive,
    ]);
    assert_eq!(w.transaction, Some(Transaction { view: Some(ActiveView::Workspace) }));
    assert_eq!(w.timer.start, 5);
    assert_eq!(w.view, ActiveView::Fullscreen(1));
}

#[test]
fn mapped_commands_and_cards_are_focused() {
    let mut w = state();
    w.command_map.insert("game".into(), "org.game".into());
    w.card_map.insert("card".into(), "jolly-home".into());
    let patterns = literal(&w, &[]);
    let mut out = Vec::new();
    assert!(w.focus_mapped_command("game", &patterns, 5, &mut out));
    assert!(w.focus_mapped_card("card", &patterns, 5, &mut out));
    assert_eq!(out, vec![set_active(0), set_active(1)]);
    assert!(!w.focus_mapped_command("unknown", &patterns, 5, &mut out));
    let nothing = Patterns { valid: Vec::new(), accepted: Vec::new() };
    assert!(!w.focus_mapped_card("card", &nothing, 5, &mut out));
    assert_eq!(out.len(), 2);
}

#[test]
fn active_app_is_toggled_to_its_parent() {
    let mut w = state();
    w.layouts.parent_layouts = vec![10, 20];
    w.view = ActiveView::Fullscreen(1);
    let patterns = literal(&w, &["org.game"]);
    let mut out = Vec::new();
    assert!(w.toggle_app(&matcher("org.game"), &patterns, 5, &mut out));
    assert_eq!(out, vec![Action::ResizePendingActive, set_active(1)]);
    assert_eq!(w.transaction, Some(Transaction { view: Some(ActiveView::Workspace) }));
}

#[test]
fn active_app_is_toggled_to_home_or_first_layout() {
    let mut w = state();
    let mut out = Vec::new();
    let patterns = literal(&w, &["org.game"]);
    assert!(w.toggle_app(&matcher("org.game"), &patterns, 5, &mut out));
    assert_eq!(out, vec![set_active(0)]);
    out.clear();
    w.set_system_role("home".into(), matcher("jolly-home"));
    w.layouts.parent_layouts = vec![99];
    let patterns = literal(&w, &["org.game"]);
    assert!(w.toggle_app(&matcher("org.game"), &patterns, 5, &mut out));
    assert_eq!(out, vec![set_active(1)]);
    assert_eq!(w.transaction, None);
}

#[test]
fn last_layout_is_toggled_to_nothing() {
    let mut w = state();
    w.layouts.layouts = vec![layout(10, 1)];
    let patterns = literal(&w, &["Game"]);
    let mut out = Vec::new();
    assert!(w.toggle_app(&matcher("Game"), &patterns, 5, &mut out));
    assert_eq!(out, vec![Action::SetActive { position: None, clear_parents: true }]);
}

#[test]
fn inactive_app_is_toggled_into_focus() {
    let mut w = state();
    w.layouts.focus = None;
    let patterns = literal(&w, &["org.game", "other"]);
    let mut out = Vec::new();
    assert!(w.toggle_app(&matcher("org.game"), &patterns, 5, &mut out));
    assert_eq!(out, vec![set_active(0)]);
    out.clear();
    assert!(!w.toggle_app(&matcher("other"), &patterns, 5, &mut out));
    assert!(out.is_empty());
}

#[test]
fn nothing_is_active_without_focus() {
    let mut w = state();
    w.layouts.focus = None;
    w.set_focus(None, Some(3), None);
    let ids = [None, text(""), text("None"), text("JollyPad-Desktop"), text("jolly-home")];
    let accepted = ids.into_iter().map(|id| Accepted { base: ".*".into(), id }).collect();
    let patterns = Patterns { valid: vec![".*".into()], accepted };
    let mut out = Vec::new();
    assert!(w.toggle_app(&matcher(".*"), &patterns, 5, &mut out));
    assert_eq!(out, vec![set_active(1)]);
    assert_eq!(w.layers.focus, None);
    w.layouts.windows.pop();
    out.clear();
    assert!(!w.toggle_app(&matcher(".*"), &patterns, 5, &mut out));
    assert!(out.is_empty());
}

#[test]
fn overlay_returns_to_the_layout_it_covers() {
    let mut w = state();
    w.layouts.windows.push(window(3, "JollyPad-Overlay", "overlay"));
    w.layouts.layouts.push(layout(30, 3));
    w.layouts.active = layout(20, 2);
    w.set_system_role("home".into(), matcher("org.game"));
    let patterns = literal(&w, &["overlay"]);
    let mut out = Vec::new();
    assert!(w.focus_app(&matcher("overlay"), &patterns, 5, &mut out));
    assert_eq!(out[0], Action::PushActiveToParent);

    w.layouts.parent_layouts.push(20);
    w.layouts.active = layout(30, 3);
    w.layouts.focus = Some(3);
    out.clear();
    assert!(w.toggle_app(&matcher("overlay"), &patterns, 5, &mut out));
    assert_eq!(out, vec![set_active(1)]);
}

#[test]
fn dead_x11_window_leads_home() {
    let mut w = state();
    w.layouts.windows[0].surface = SurfaceHandle::X11(77);
    w.view = ActiveView::Fullscreen(1);
    let patterns = literal(&w, &[]);
    let mut out = Vec::new();
    w.mark_dead_x11(77, &patterns, 5, &mut out);
    assert_eq!(out, vec![Action::Kill { window: 1 }, set_active(1)]);
    assert_eq!(w.transaction, Some(Transaction { view: Some(ActiveView::Workspace) }));
    assert_eq!(w.timer.start, 5);
    out.clear();
    w.mark_dead_x11(78, &patterns, 6, &mut out);
    assert!(out.is_empty());
    assert_eq!(w.timer.start, 5);
}

#[test]
fn home_is_the_first_layout_without_known_names() {
    let mut w = state();
    w.layouts.windows[1] = window(2, "Editor", "org.editor");
    let patterns = literal(&w, &[]);
    assert_eq!(w.find_home_place(&patterns), position(0, false));
    w.layouts.layouts.clear();
    assert_eq!(w.find_home_place(&patterns), None);
}

#[test]
fn windows_are_described() {
    let mut w = state();
    assert_eq!(w.active_window_info(), Some(("Game".into(), "org.game".into())));
    w.layouts.windows[0].xdg_app_id = None;
    w.layouts.windows[0].app_id = text("stored");
    w.layouts.windows[0].process_group = Some(42);
    let clients = w.clients_info();
    assert_eq!(clients.len(), 2);
    assert_eq!(clients[0].app_id, "stored");
    assert_eq!(clients[0].pid, Some(42));
    w.layouts.focus = Some(99);
    assert_eq!(w.active_window_info(), None);
}

#[test]
fn windows_are_closed_by_any_name() {
    let w = state();
    let patterns = literal(&w, &["JollyPad-Desktop", "org.game", "no"]);
    let mut out = Vec::new();
    assert!(w.close_app(&matcher("JollyPad-Desktop"), &patterns, &mut out));
    assert!(w.close_app(&matcher("org.game"), &patterns, &mut out));
    assert!(!w.close_app(&matcher("no"), &patterns, &mut out));
    assert_eq!(out, vec![Action::Kill { window: 2 }, Action::Kill { window: 1 }]);
}

#[test]
fn launched_windows_are_learned() {
    let mut w = state();
    w.note_launch_context("sh game".into(), text("game"), text("card"), None, NOW);
    w.update_pending_pgid(321);
    assert_eq!(
        w.pending_launch,
        Some(LaunchCtx {
            command: "sh game".into(),
            command_key: text("game"),
            card_id: text("card"),
            time: NOW.mono_ns,
            pid: Some(321),
            pgid: Some(321),
        })
    );
    let mut out = Vec::new();
    let later = Clock { mono_ns: NOW.mono_ns + 2_500_000, ..NOW };
    w.add(window(3, "New", "org.new"), later, &mut out);
    assert_eq!(out, vec![
        Action::PrepareToplevel { window: 3 },
        Action::CreateLayout { window: 3 },
        Action::LogLaunch {
            x11: false,
            title: text("New"),
            xdg_app_id: text("org.new"),
            app_id: text("org.new"),
            final_id: text("org.new"),
            elapsed_ms: 2,
            command: "sh game".into(),
        },
        Action::SaveMappings,
    ]);
    assert_eq!(w.command_map.get("game").unwrap(), "org.new");
    assert_eq!(w.card_map.get("card").unwrap(), "org.new");
    assert_eq!(w.view, ActiveView::Fullscreen(3));
    assert_eq!(w.layouts.focus, Some(3));
    assert_eq!(w.layouts.loose[0].process_group, Some(321));
    assert_eq!(w.pending_launch, None);
    assert_eq!(w.last_launch, None);

    // Once the window is in a layout, its command focuses it.
    let added = w.layouts.loose.pop().unwrap();
    w.layouts.windows.push(added);
    w.layouts.layouts.push(layout(30, 3));
    let patterns = literal(&w, &[]);
    out.clear();
    assert!(w.focus_mapped_command("game", &patterns, 5, &mut out));
    assert_eq!(out, vec![set_active(2)]);
}

#[test]
fn windows_without_launch_are_not_learned() {
    let mut w = state();
    w.update_pending_pgid(1);
    assert_eq!(w.pending_launch, None);
    let mut out = Vec::new();
    w.add(window(3, "JollyPad-Overlay", "overlay"), NOW, &mut out);
    assert_eq!(out.len(), 2);
    assert_eq!(w.view, ActiveView::Workspace);
    out.clear();
    w.note_launch("x".into(), NOW);
    let mut new = window(4, "JollyPad-Overlay", "overlay");
    new.xdg_app_id = None;
    w.add_x11(new, Clock { wall_ms: 0, mono_ns: 0 }, &mut out);
    assert_eq!(out, vec![
        Action::CreateLayout { window: 4 },
        Action::LogLaunch {
            x11: true,
            title: text("JollyPad-Overlay"),
            xdg_app_id: None,
            app_id: text("overlay"),
            final_id: text("overlay"),
            elapsed_ms: 0,
            command: "x".into(),
        },
        Action::SaveMappings,
    ]);
    assert_eq!(w.view, ActiveView::Fullscreen(4));
    assert!(w.command_map.entries.is_empty());
}

#[test]
fn layers_are_created() {
    let w = state();
    let mut out = Vec::new();
    w.add_layer(Layer::Top, 5, "bar".into(), &mut out);
    assert_eq!(out, vec![Action::CreateLayer {
        layer: Layer::Top,
        surface: 5,
        namespace: "bar".into()
    }]);
}

#[test]
fn views_change_with_transactions() {
    let mut w = state();
    w.dirty = false;
    w.set_view(ActiveView::Fullscreen(1), 7);
    assert_eq!(w.view, ActiveView::Workspace);
    assert_eq!(*w.pending_view(), ActiveView::Fullscreen(1));
    w.set_view(ActiveView::Overview(overview(1)), 8);
    assert_eq!(w.view, ActiveView::Overview(overview(1)));
    assert_eq!(*w.pending_view(), w.view);
    assert!(!w.dirty);
    assert_eq!(w.timer.start, 7);
    w.transaction = None;
    w.set_view(ActiveView::Overview(overview(2)), 8);
    assert!(w.dirty);
}

#[test]
fn locked_session_stays_locked() {
    let mut w = state();
    w.lock(7);
    assert_eq!(*w.pending_view(), ActiveView::Lock(None));
    let patterns = literal(&w, &["org.game"]);
    let mut out = Vec::new();
    w.set_view(ActiveView::Workspace, 8);
    w.fullscreen(101, 8, &mut out);
    w.toggle_app(&matcher("org.game"), &patterns, 8, &mut out);
    w.set_view(ActiveView::Overview(overview(1)), 8);
    assert_eq!(*w.pending_view(), ActiveView::Lock(None));
    assert_eq!(w.transaction_timeout(), 100);
    w.unlock(9);
    assert_eq!(*w.pending_view(), ActiveView::Workspace);
    assert_eq!(w.transaction_timeout(), 1000);
    assert_eq!(w.timer.start, 7);
}

#[test]
fn new_windows_keep_a_pending_lock() {
    let mut w = state();
    w.lock(7);
    w.add(window(5, "New", "org.new"), NOW, &mut Vec::new());
    assert_eq!(w.view, ActiveView::Fullscreen(5));
    assert_eq!(*w.pending_view(), ActiveView::Lock(None));
}

#[test]
fn dead_windows_keep_a_pending_lock() {
    let mut w = state();
    w.layouts.windows[0].surface = SurfaceHandle::X11(77);
    w.lock(7);
    let patterns = literal(&w, &[]);
    w.mark_dead_x11(77, &patterns, 8, &mut Vec::new());
    w.reap_layer(3, 8, &mut Vec::new());
    assert_eq!(*w.pending_view(), ActiveView::Lock(None));
    assert_eq!(w.timer.start, 7);
}

#[test]
fn lock_surface_replaces_the_pending_lock() {
    let mut w = state();
    let mut out = Vec::new();
    w.set_lock_surface(lock_window(9), &mut out);
    assert!(out.is_empty());
    w.lock(7);
    w.set_lock_surface(lock_window(9), &mut out);
    assert_eq!(out, vec![Action::SetDimensions { target: Target::Lock(9), area: Area::Output }]);
    assert_eq!(*w.pending_view(), ActiveView::Lock(Some(lock_window(9))));
    w.transaction = None;
    w.view = ActiveView::Lock(None);
    w.set_lock_surface(lock_window(8), &mut out);
    assert_eq!(w.view, ActiveView::Lock(Some(lock_window(8))));
}

#[test]
fn only_the_lock_is_shown_when_locked() {
    let mut w = state();
    w.view = ActiveView::Lock(Some(lock_window(9)));
    assert_eq!(w.textures(None), vec![DrawItem::Window(Target::Lock(9))]);
    assert_eq!(w.request_frames(), vec![FrameTarget::Window(Target::Lock(9))]);
    let patterns = literal(&w, &[]);
    let mut out = Vec::new();
    let focus = w.focus(&patterns, NOW, &mut out);
    assert_eq!(focus, Some(SurfaceFocus { surface: 9, app_id: text("lock") }));
    assert!(out.is_empty());
    w.view = ActiveView::Lock(None);
    assert_eq!(w.textures(None), Vec::new());
    assert_eq!(w.request_frames(), Vec::new());
    assert_eq!(w.focus(&patterns, NOW, &mut out), None);
}

#[test]
fn workspace_is_drawn_from_top_to_bottom() {
    let mut w = state();
    w.layers.foreground = vec![5, 6];
    w.layers.background = vec![7];
    w.layers.overlay = vec![6];
    let layers = |s| DrawItem::Window(Target::Layer(s));
    assert_eq!(w.textures(None), vec![layers(5), layers(6), DrawItem::Layouts, layers(7)]);
    assert!(!w.dirty);
    w.layouts.windows[0].title = text("JollyPad-Overlay");
    assert_eq!(w.textures(None), vec![
        layers(5),
        layers(6),
        DrawItem::Layouts,
        DrawItem::Underlay,
        layers(7)
    ]);
    w.view = ActiveView::Fullscreen(1);
    assert_eq!(w.textures(None), vec![
        layers(6),
        DrawItem::Window(Target::Layout(1)),
        DrawItem::Underlay
    ]);
    w.view = ActiveView::DragAndDrop(DragAndDrop { id: 3, window: 1 });
    assert_eq!(w.textures(None), vec![DrawItem::DragAndDrop(3), DrawItem::Layouts, layers(7)]);
    w.view = ActiveView::Overview(overview(4));
    assert_eq!(w.textures(None), vec![DrawItem::Overview(4), layers(7)]);
}

#[test]
fn cursor_is_centered() {
    let mut w = state();
    let cursor = Cursor { position: Point { x: 100, y: -5 }, size: Size { w: 31, h: -31 } };
    let items = w.textures(Some(cursor));
    let location = Point { x: 85, y: 10 };
    assert_eq!(items[0], DrawItem::Cursor {
        location,
        bounds: Rectangle { loc: location, size: Size { w: 31, h: -31 } }
    });
    assert_eq!(items[1], DrawItem::Layouts);
}

#[test]
fn cursor_has_to_be_representable() {
    let cursor = |x, w| Cursor { position: Point { x, y: 0 }, size: Size { w, h: 0 } };
    assert!(cursor(5, 4).is_representable());
    assert!(cursor(i32::MIN, 1).is_representable());
    assert!(!cursor(i32::MIN, 2).is_representable());
    assert!(!cursor(i32::MAX, -2).is_representable());
}

#[test]
fn frames_are_requested_for_visible_windows() {
    let mut w = state();
    w.layers.overlay = vec![6];
    w.layers.background = vec![7];
    assert_eq!(w.request_frames(), vec![
        FrameTarget::Layers,
        FrameTarget::Window(Target::Layout(1))
    ]);
    w.view = ActiveView::Fullscreen(1);
    assert_eq!(w.request_frames(), vec![
        FrameTarget::Window(Target::Layer(6)),
        FrameTarget::Window(Target::Layout(1))
    ]);
    w.view = ActiveView::Overview(overview(1));
    assert_eq!(w.request_frames(), vec![FrameTarget::Window(Target::Layer(7))]);
}

#[test]
fn every_window_is_listed() {
    let mut w = state();
    w.layers.windows = vec![layer(5, Layer::Top, "bar")];
    w.lock(7);
    w.set_lock_surface(lock_window(9), &mut Vec::new());
    let layouts = [Target::Layout(1), Target::Layout(2)];
    assert_eq!(w.all_windows(), vec![Target::Lock(9), layouts[0], layouts[1], Target::Layer(5)]);
    assert_eq!(w.import_buffers(), vec![layouts[0], layouts[1], Target::Layer(5)]);
    assert_eq!(w.mark_presented(), vec![layouts[0], layouts[1], Target::Layer(5)]);
    assert_eq!(w.refresh_popups(), layouts.to_vec());
    assert_eq!(w.reposition_popup(), layouts.to_vec());
    w.view = ActiveView::Lock(Some(lock_window(8)));
    assert_eq!(w.import_buffers().last(), Some(&Target::Lock(8)));
}

#[test]
fn damage_depends_on_the_view() {
    let mut w = state();
    w.dirty = false;
    assert!(!w.damaged());
    w.layers.windows = vec![layer(5, Layer::Overlay, "bar")];
    w.layers.windows[0].dirty = true;
    assert!(w.damaged());
    w.view = ActiveView::Fullscreen(1);
    assert!(!w.damaged());
    w.layers.overlay = vec![5];
    assert!(w.damaged());
    w.view = ActiveView::DragAndDrop(DragAndDrop { id: 1, window: 1 });
    assert!(!w.damaged());
    w.view = ActiveView::Lock(Some(lock_window(9)));
    assert!(!w.damaged());
    w.layers.windows.clear();
    w.view = ActiveView::Overview(Overview { dirty: true, ..overview(1) });
    assert!(w.damaged());
    w.view = ActiveView::Overview(overview(1));
    assert!(!w.damaged());
    w.set_dirty();
    assert!(w.damaged());
    w.dirty = false;
    w.set_ime_override(Some(true));
    assert!(w.damaged());
    assert_eq!(w.ime_override, Some(true));
}

fn activation(surface: u64, activated: bool) -> Action {
    Action::SetActivated { surface: SurfaceHandle::Xdg(surface), activated }
}

#[test]
fn focus_switch_stops_and_continues_processes() {
    let mut w = state();
    w.layouts.windows[0].process_group = Some(11);
    w.layouts.windows[1].process_group = Some(22);
    let patterns = literal(&w, &[]);
    let mut out = Vec::new();
    let focus = w.focus(&patterns, NOW, &mut out);
    assert_eq!(focus, Some(SurfaceFocus { surface: 101, app_id: text("org.game") }));
    assert_eq!(out, vec![
        Action::SetUrgent { window: 1, urgent: false },
        activation(101, true),
        Action::SendSignal { pgid: 11, signal: Signal::Continue },
        Action::CorkAudio { app_id: text("org.game"), cork: false },
        Action::ControlMedia { app_id: text("org.game"), pause: false },
    ]);
    assert_eq!(w.activated, Some(SurfaceHandle::Xdg(101)));

    // Nothing happens until the focus changes.
    out.clear();
    w.focus(&patterns, NOW, &mut out);
    assert_eq!(out, vec![Action::SetUrgent { window: 1, urgent: false }]);

    out.clear();
    w.set_focus(Some(2), None, None);
    w.focus(&patterns, NOW, &mut out);
    assert_eq!(out, vec![
        Action::SetUrgent { window: 2, urgent: false },
        activation(101, false),
        Action::CorkAudio { app_id: text("org.game"), cork: true },
        Action::ControlMedia { app_id: text("org.game"), pause: true },
        activation(102, true),
        Action::SendSignal { pgid: 22, signal: Signal::Continue },
        Action::CorkAudio { app_id: text("jolly-home"), cork: false },
        Action::ControlMedia { app_id: text("jolly-home"), pause: false },
    ]);
    let time = NOW.mono_ns + SWITCH_DELAY;
    assert_eq!(w.pending_suspend, Some(PendingSuspend { pgid: 11, time }));
}

#[test]
fn returning_in_time_cancels_the_suspend() {
    let mut w = state();
    w.layouts.windows[0].process_group = Some(11);
    w.activated = Some(SurfaceHandle::Xdg(102));
    w.pending_suspend = Some(PendingSuspend { pgid: 11, time: 7 });
    let patterns = literal(&w, &[]);
    w.focus(&patterns, NOW, &mut Vec::new());
    assert_eq!(w.pending_suspend, None);
}

#[test]
fn resume_is_delayed_after_the_home_screen() {
    let mut w = state();
    w.layouts.windows[0].process_group = Some(11);
    w.set_system_role("home".into(), matcher("jolly-home"));
    w.active_role = text("home");
    w.activated = Some(SurfaceHandle::Xdg(102));
    let patterns = literal(&w, &[]);
    let mut out = Vec::new();
    w.focus(&patterns, NOW, &mut out);
    assert_eq!(out, vec![
        Action::SetUrgent { window: 1, urgent: false },
        activation(102, false),
        activation(101, true),
    ]);
    let time = NOW.mono_ns + SWITCH_DELAY;
    let pending = PendingResume { pgid: 11, time, app_id: text("org.game") };
    assert_eq!(w.pending_resume, Some(pending));
    assert_eq!(w.active_role, None);

    // Going back to the home screen is not delayed.
    w.layouts.windows[1].process_group = Some(22);
    w.active_role = text("nav");
    w.set_focus(Some(2), None, None);
    out.clear();
    w.focus(&patterns, NOW, &mut out);
    assert!(out.contains(&Action::SendSignal { pgid: 22, signal: Signal::Continue }));
    assert_eq!(w.active_role, text("home"));
    assert_eq!(w.pending_resume, None);
}

#[test]
fn resume_is_delayed_after_a_system_layer() {
    let mut w = state();
    w.layouts.windows[0].process_group = Some(11);
    w.layers.windows = vec![layer(5, Layer::Top, "bar")];
    w.set_system_role("nav".into(), matcher("bar"));
    w.activated = Some(SurfaceHandle::Xdg(5));
    let patterns = literal(&w, &[]);
    w.focus(&patterns, NOW, &mut Vec::new());
    assert_eq!(w.pending_resume.as_ref().map(|p| p.pgid), Some(11));
}

#[test]
fn focused_layer_takes_the_focus_and_its_role() {
    let mut w = state();
    w.layouts.windows[0].process_group = Some(11);
    w.activated = Some(SurfaceHandle::Xdg(101));
    w.layers.windows = vec![layer(5, Layer::Top, "bar")];
    w.set_system_role("nav".into(), matcher("bar"));
    w.set_focus(Some(1), Some(5), text("bar"));
    let patterns = literal(&w, &[]);
    let mut out = Vec::new();
    let focus = w.focus(&patterns, NOW, &mut out);
    assert_eq!(focus, Some(SurfaceFocus { surface: 5, app_id: text("bar") }));
    assert_eq!(w.active_role, text("nav"));
    assert_eq!(w.activated, None);
    assert_eq!(out[0], activation(101, false));
    assert_eq!(w.pending_suspend.map(|p| p.pgid), Some(11));
    assert_eq!(w.layouts.focus, Some(1));
}

#[test]
fn perished_focus_falls_back_to_the_primary_window() {
    let mut w = state();
    w.layouts.focus = Some(99);
    let patterns = literal(&w, &[]);
    let mut out = Vec::new();
    let focus = w.focus(&patterns, NOW, &mut out);
    assert_eq!(focus.map(|f| f.surface), Some(101));
    assert_eq!(w.layouts.focus, Some(1));
    w.layouts.focus = Some(99);
    w.layouts.pending_active.primary = None;
    assert_eq!(w.focus(&patterns, NOW, &mut out), None);
    assert_eq!(w.layouts.focus, None);
}

#[test]
fn destroyed_x11_window_is_activated_again() {
    let mut w = state();
    w.layouts.windows[0].surface = SurfaceHandle::X11(77);
    w.layouts.windows[0].process_group = Some(11);
    w.layouts.x11 = vec![X11State { window: 77, alive: true, wl_surface: Some(101) }];
    let patterns = literal(&w, &[]);
    let mut out = Vec::new();
    w.focus(&patterns, NOW, &mut out);
    assert_eq!(out.len(), 5);
    out.clear();
    w.focus(&patterns, NOW, &mut out);
    assert_eq!(out.len(), 1);
    out.clear();
    w.layouts.x11[0].alive = false;
    w.focus(&patterns, NOW, &mut out);
    let surface = SurfaceHandle::X11(77);
    assert_eq!(out.len(), 6);
    assert_eq!(out[1], Action::SetActivated { surface, activated: false });
    assert_eq!(out[2], Action::SetActivated { surface, activated: true });
}

#[test]
fn x11_window_without_surface_has_no_focus() {
    let mut w = state();
    w.layouts.windows[0].surface = SurfaceHandle::X11(77);
    let patterns = literal(&w, &[]);
    assert_eq!(w.focus(&patterns, NOW, &mut Vec::new()), None);
    assert_eq!(w.activated, Some(SurfaceHandle::X11(77)));
}

#[test]
fn due_processes_are_stopped_before_others_continue() {
    let mut w = state();
    w.pending_suspend = Some(PendingSuspend { pgid: 1, time: 10 });
    w.pending_resume = Some(PendingResume { pgid: 2, time: 20, app_id: text("x") });
    let mut out = Vec::new();
    w.update_pending_state(Clock { wall_ms: 0, mono_ns: 9 }, &mut out);
    assert!(out.is_empty());
    w.update_pending_state(Clock { wall_ms: 0, mono_ns: 20 }, &mut out);
    assert_eq!(out, vec![
        Action::SendSignal { pgid: 1, signal: Signal::Stop },
        Action::SendSignal { pgid: 2, signal: Signal::Continue },
        Action::CorkAudio { app_id: text("x"), cork: false },
        Action::ControlMedia { app_id: text("x"), pause: false },
    ]);
    assert_eq!(w.pending_suspend, None);
    assert_eq!(w.pending_resume, None);
}

#[test]
fn transaction_waits_for_its_participants() {
    let mut w = state();
    w.layouts.windows[0].transaction_done = false;
    w.set_view(ActiveView::Fullscreen(2), 5000);
    let mut out = Vec::new();
    let clock = Clock { wall_ms: 5400, mono_ns: 50 };
    assert_eq!(w.update_transaction(clock, &mut out), TransactionStep::Wait(600_000_000));
    assert!(out.is_empty());
    w.pending_resume = Some(PendingResume { pgid: 2, time: 150, app_id: None });
    assert_eq!(w.update_transaction(clock, &mut out), TransactionStep::Wait(100));
    // At the very end of its time, the transaction is still waited for.
    let clock = Clock { wall_ms: 6000, mono_ns: 150 };
    assert_eq!(w.update_transaction(clock, &mut out), TransactionStep::Wait(0));
    assert_eq!(out, vec![
        Action::SendSignal { pgid: 2, signal: Signal::Continue },
        Action::CorkAudio { app_id: None, cork: false },
    ]);
    assert_eq!(w.pending_resume, None);
}

#[test]
fn transaction_is_completed_in_time() {
    let mut w = state();
    w.dirty = false;
    w.trace_scene_enabled = true;
    w.layouts.windows[0].transaction_done = false;
    w.layers.windows = vec![layer(5, Layer::Top, "bar")];
    w.layers.windows[0].transaction_done = false;
    w.set_view(ActiveView::Fullscreen(2), 5000);
    let mut out = Vec::new();
    let clock = Clock { wall_ms: 6001, mono_ns: 0 };
    let applied = AppliedTransaction { completed: true, layout_count: 1, layer_count: 1 };
    assert_eq!(w.update_transaction(clock, &mut out), TransactionStep::Apply(applied));
    assert_eq!(out, vec![
        Action::IgnoreTransactions { target: Target::Layout(1) },
        Action::IgnoreTransactions { target: Target::Layer(5) },
        Action::LogSwitch { from: ViewKind::Workspace, to: ViewKind::Fullscreen, elapsed_ms: 1001 },
        Action::LogScene,
        Action::ApplyLayouts,
        Action::ApplyLayers,
    ]);
    assert_eq!(w.view, ActiveView::Fullscreen(2));
    assert_eq!(w.transaction, None);
    assert_eq!(w.timer.start, 0);
    assert!(w.dirty);
}

#[test]
fn lock_waits_for_its_surface() {
    let mut w = state();
    w.lock(5000);
    let mut out = Vec::new();
    let clock = Clock { wall_ms: 5100, mono_ns: 0 };
    assert_eq!(w.update_transaction(clock, &mut out), TransactionStep::Wait(0));
    w.set_lock_surface(lock_window(9), &mut out);
    assert_eq!(w.update_transaction(clock, &mut out), TransactionStep::Wait(0));
    out.clear();
    let clock = Clock { wall_ms: 5101, mono_ns: 0 };
    assert!(matches!(w.update_transaction(clock, &mut out), TransactionStep::Apply(_)));
    assert_eq!(out.last(), Some(&Action::ApplyTransaction { target: Target::Lock(9) }));
    assert_eq!(w.view, ActiveView::Lock(Some(lock_window(9))));
}

#[test]
fn dead_fullscreen_window_is_left_for_its_parent() {
    let mut w = state();
    w.view = ActiveView::Fullscreen(1);
    w.layouts.windows[0].alive = false;
    w.layouts.parent_layouts = vec![20];
    let patterns = literal(&w, &[]);
    let mut out = Vec::new();
    w.fix_view_after_reap(&patterns, &mut out);
    assert_eq!(w.view, ActiveView::Workspace);
    assert_eq!(out, vec![set_active(1)]);
}

#[test]
fn vanished_fullscreen_window_is_left_for_home() {
    let mut w = state();
    w.view = ActiveView::Fullscreen(1);
    let gone = w.layouts.windows.remove(0);
    w.layouts.loose.push(gone);
    w.layouts.parent_layouts = vec![99];
    let patterns = literal(&w, &[]);
    let mut out = Vec::new();
    w.fix_view_after_reap(&patterns, &mut out);
    assert_eq!(out, vec![set_active(1)]);

    let mut w = state();
    w.view = ActiveView::Fullscreen(1);
    out.clear();
    w.fix_view_after_reap(&patterns, &mut out);
    assert_eq!(w.view, ActiveView::Fullscreen(1));
    assert!(out.is_empty());
}

#[test]
fn reaping_without_transaction_updates_everything() {
    let mut w = state();
    w.dirty = false;
    let mut out = Vec::new();
    let step = w.update_transaction(NOW, &mut out);
    let applied = AppliedTransaction { completed: false, layout_count: 1, layer_count: 0 };
    assert_eq!(step, TransactionStep::Apply(applied));
    assert_eq!(out, vec![Action::ApplyLayouts, Action::ApplyLayers]);
    let patterns = literal(&w, &[]);
    w.output.canvas.orientation = Orientation { number: 1 };
    w.view = ActiveView::Overview(overview(1));
    w.layouts.layouts.clear();
    out.clear();
    w.reap_view(applied, false, &patterns, &mut out);
    assert!(w.dirty);
    assert_eq!(w.canvas.orientation, Orientation { number: 1 });
    assert_eq!(w.view, ActiveView::Workspace);
    w.pending_resume = Some(PendingResume { pgid: 2, time: NOW.mono_ns + 5, app_id: None });
    assert_eq!(w.finish_transaction(applied, NOW), Some(5));
}

#[test]
fn vanished_windows_lead_to_a_redraw() {
    let mut w = state();
    w.dirty = false;
    let applied = AppliedTransaction { completed: true, layout_count: 1, layer_count: 0 };
    assert_eq!(w.finish_transaction(applied, NOW), None);
    assert!(!w.dirty);
    w.layouts.active.primary = None;
    w.finish_transaction(applied, NOW);
    assert!(w.dirty);
    w.dirty = false;
    w.layouts.active.primary = Some(1);
    w.layers.windows = vec![layer(5, Layer::Top, "bar")];
    w.finish_transaction(applied, NOW);
    assert!(w.dirty);
    w.dirty = false;
    let patterns = literal(&w, &[]);
    w.reap_view(applied, true, &patterns, &mut Vec::new());
    assert!(w.dirty);
}

#[test]
fn canvas_with_negative_zero_scale_is_not_redrawn() {
    let mut w = state();
    w.dirty = false;
    w.canvas.scale = FloatBits { bits: 0f64.to_bits() };
    w.output.canvas.scale = FloatBits { bits: (-0f64).to_bits() };
    let applied = AppliedTransaction { completed: true, layout_count: 1, layer_count: 0 };
    w.finish_transaction(applied, NOW);
    assert!(!w.dirty);
    assert_eq!(w.canvas.scale.bits, (-0f64).to_bits());
    w.output.canvas.scale = FloatBits { bits: f64::NAN.to_bits() };
    w.finish_transaction(applied, NOW);
    assert!(w.dirty);
}

#[test]
fn all_windows_are_resized() {
    let mut w = state();
    w.layers.windows = vec![layer(5, Layer::Overlay, "a"), layer(6, Layer::Top, "b")];
    let mut out = Vec::new();
    w.resize_all(&mut out);
    assert_eq!(out, vec![
        Action::ResizeLayout { index: 0 },
        Action::ResizeLayout { index: 1 },
        Action::UpdateDimensions { layer: 5, fullscreen: false },
        Action::UpdateDimensions { layer: 6, fullscreen: false },
    ]);
    w.view = ActiveView::Fullscreen(1);
    out.clear();
    w.resize_all(&mut out);
    assert_eq!(out, vec![
        Action::SetDimensions { target: Target::Layout(1), area: Area::AvailableFullscreen },
        Action::ResizeLayout { index: 1 },
        Action::UpdateDimensions { layer: 5, fullscreen: true },
        Action::UpdateDimensions { layer: 6, fullscreen: false },
    ]);
    w.view = ActiveView::Lock(Some(lock_window(9)));
    out.clear();
    w.resize_all(&mut out);
    assert_eq!(out[0], Action::SetDimensions { target: Target::Lock(9), area: Area::Output });
    assert_eq!(out.len(), 5);
}

#[test]
fn visible_windows_are_resized() {
    let mut w = state();
    w.layers.windows = vec![layer(5, Layer::Overlay, "a")];
    w.layers.overlay = vec![5];
    let mut out = Vec::new();
    w.view = ActiveView::Fullscreen(1);
    w.resize_visible(&mut out);
    w.view = ActiveView::Lock(None);
    w.resize_visible(&mut out);
    w.view = ActiveView::Lock(Some(lock_window(9)));
    w.resize_visible(&mut out);
    assert_eq!(out, vec![
        Action::SetDimensions { target: Target::Layout(1), area: Area::AvailableFullscreen },
        Action::UpdateDimensions { layer: 5, fullscreen: true },
        Action::ResizePendingActive,
        Action::UpdateDimensions { layer: 5, fullscreen: false },
        Action::SetDimensions { target: Target::Lock(9), area: Area::Output },
    ]);
}

#[test]
fn orientation_is_remembered_during_its_lock() {
    let mut w = state();
    let turned = |number| Orientation { number };
    let mut out = Vec::new();
    let portrait = Size { w: 800, h: 1280 };
    w.update_orientation(turned(2), portrait, 5, &mut out);
    assert!(out.is_empty());
    assert_eq!(w.output.canvas.orientation, turned(0));
    assert_eq!(w.output.canvas, canvas());
    w.unlock_orientation(portrait, 5, &mut out);
    assert_eq!(w.output.canvas.orientation, turned(2));
    assert_eq!(w.output.canvas.size, portrait);
    assert_eq!(w.parent_geometry(999).size, portrait);
    assert_eq!(*w.canvas(), canvas());
    assert_eq!(out, vec![
        Action::SetOrientation(turned(2)),
        Action::UpdateTransform { target: Target::Layout(1), orientation: turned(2) },
        Action::UpdateTransform { target: Target::Layout(2), orientation: turned(2) },
        Action::ResizeLayout { index: 0 },
        Action::ResizeLayout { index: 1 },
    ]);
    assert_eq!(w.timer.start, 5);
    w.lock_orientation(Some(turned(3)), canvas().size, 6, &mut out);
    assert_eq!(w.output.canvas.size, canvas().size);
    assert!(w.orientation_locked());
    assert_eq!(w.output.canvas.orientation, turned(3));
    assert_eq!(w.unlocked_orientation, turned(2));
    w.lock_orientation(None, portrait, 6, &mut Vec::new());
    assert_eq!(w.output.canvas.orientation, turned(3));
    assert_eq!(w.output.canvas.size, canvas().size);
}

#[test]
fn output_is_scaled() {
    let mut w = state();
    let scale = FloatBits { bits: 2f64.to_bits() };
    let mut out = Vec::new();
    w.set_scale(scale, Size { w: 640, h: 400 }, 5, &mut out);
    assert_eq!(w.output.canvas.scale, scale);
    assert_eq!(w.output.canvas.size, Size { w: 640, h: 400 });
    assert_eq!(w.transaction, Some(Transaction { view: None }));
    assert_eq!(out[0], Action::SetOutputScale(scale));
    assert_eq!(out[1], Action::UpdateScale { target: Target::Layout(1), scale });
    assert_eq!(out.len(), 5);
}

#[test]
fn windows_need_surfaces_for_resizing() {
    let mut w = state();
    assert!(w.can_resize_all());
    w.layouts.windows[0].surface = SurfaceHandle::X11(77);
    assert!(!w.can_resize_all());
    w.layouts.x11 = vec![X11State { window: 77, alive: true, wl_surface: Some(101) }];
    assert!(w.can_resize_all());
    w.view = ActiveView::Fullscreen(99);
    assert!(!w.can_resize_all());

    // The second window does not matter below the fullscreen one.
    w.layouts.windows[1].surface = SurfaceHandle::X11(78);
    w.layouts.layouts = vec![Layout { id: 10, primary: Some(1), secondary: Some(2) }];
    w.view = ActiveView::Fullscreen(1);
    assert!(w.can_resize_all());
    w.view = ActiveView::Workspace;
    assert!(!w.can_resize_all());
}

#[test]
fn output_mode_fills_the_windows() {
    let mut w = state();
    w.dirty = false;
    w.layouts.layouts[0].secondary = Some(2);
    let mode = Mode { size: Size { w: 1920, h: 1080 }, refresh: 60_000 };
    let new = Canvas { size: mode.size, ..canvas() };
    let mut out = Vec::new();
    w.update_mode(mode, new, &mut out);
    let fill = |key| Action::SetDimensions {
        target: Target::Layout(key),
        area: Area::Fixed(area(1920, 1080)),
    };
    assert_eq!(out, vec![Action::SetOutputMode(mode), fill(1), fill(2), fill(2)]);
    assert_eq!(*w.canvas(), new);
    assert!(w.dirty);
    w.set_output(Output { canvas: canvas() });
    assert_eq!(*w.canvas(), canvas());
}

#[test]
fn window_scales_are_replaced() {
    let mut w = state();
    let scale = |value: f64| FloatBits { bits: value.to_bits() };
    let mut out = Vec::new();
    w.add_window_scale(matcher("a"), WindowScale::Fixed(scale(2.)), &mut out);
    w.add_window_scale(matcher("b"), WindowScale::Additive(scale(1.)), &mut out);
    w.add_window_scale(matcher("a"), WindowScale::Divisive(scale(3.)), &mut out);
    assert_eq!(w.window_scales.len(), 2);
    assert_eq!(w.window_scales[0].app_id.base(), "b");
    assert_eq!(w.window_scales[1].scale, WindowScale::Divisive(scale(3.)));
    assert_eq!(out.len(), 6);
    assert_eq!(out[0], Action::SetWindowScale { target: Target::Layout(1) });
    w.add_window_scale(matcher("a"), WindowScale::Multiplicative(scale(1.)), &mut out);
    w.add_window_scale(matcher("b"), WindowScale::Subtractive(scale(-0.)), &mut out);
    assert!(w.window_scales.is_empty());
    w.add_window_scale(matcher("a"), WindowScale::Additive(scale(f64::NAN)), &mut out);
    w.add_window_scale(matcher("b"), WindowScale::Fixed(scale(0.)), &mut out);
    assert_eq!(w.window_scales.len(), 2);
}

#[test]
fn fullscreen_is_entered_and_left() {
    let mut w = state();
    let mut out = Vec::new();
    w.fullscreen(999, 5, &mut out);
    assert!(out.is_empty());
    w.fullscreen(102, 5, &mut out);
    assert_eq!(out, vec![
        Action::SetFullscreen { window: 2, fullscreen: true },
        Action::SetDimensions { target: Target::Layout(2), area: Area::AvailableFullscreen },
    ]);
    out.clear();
    w.unfullscreen(None, 6, &mut out);
    assert!(out.is_empty());
    w.view = ActiveView::Fullscreen(2);
    w.unfullscreen(Some(101), 6, &mut out);
    assert!(out.is_empty());
    w.unfullscreen(Some(102), 6, &mut out);
    assert_eq!(out, vec![
        Action::SetFullscreen { window: 2, fullscreen: false },
        Action::ResizePendingActive,
    ]);
    assert_eq!(*w.pending_view(), ActiveView::Workspace);
    out.clear();
    w.reap_xdg(103, 7, &mut out);
    assert_eq!(out, vec![Action::ReapLayouts(SurfaceHandle::Xdg(103))]);
}

#[test]
fn dead_layers_are_reaped() {
    let mut w = state();
    w.layers.windows = vec![layer(5, Layer::Top, "bar")];
    w.layers.focus = Some(SurfaceFocus { surface: 5, app_id: None });
    let mut out = Vec::new();
    w.reap_layer(6, 7, &mut out);
    assert!(out.is_empty());
    assert!(w.layers.focus.is_some());
    w.reap_layer(5, 8, &mut out);
    assert_eq!(out, vec![Action::ResetExclusive { layer: 5 }]);
    assert!(w.layers.focus.is_none());
    assert_eq!(w.timer.start, 7);
    out.clear();
    w.exclusive_changed(false, &mut out);
    assert!(out.is_empty());
    w.exclusive_changed(true, &mut out);
    assert_eq!(out[0], Action::ResizePendingActive);
}

#[test]
fn commits_find_their_window() {
    let mut w = state();
    w.layers.windows = vec![layer(5, Layer::Top, "bar")];
    w.lock(7);
    w.set_lock_surface(lock_window(9), &mut Vec::new());
    assert_eq!(w.surface_commit(9), Commit::Window(Target::Lock(9)));
    assert_eq!(w.surface_commit(102), Commit::Window(Target::Layout(2)));
    assert_eq!(w.find_xdg(102), Some(2));
    assert_eq!(w.find_xdg(5), None);
    w.view = ActiveView::Fullscreen(1);
    let layer = LayerCommit { surface: 5, fullscreen_active: true };
    let hosts = || Trials::new(vec![Target::Layout(1), Target::Layout(2), Target::Layer(5)]);
    assert_eq!(w.surface_commit(5), Commit::Popup {
        adoption: None,
        commit: PopupCommit { hosts: hosts(), layer: Some(layer) },
    });

    // The layer comes last, unless a window has the popup.
    let mut commit = PopupCommit { hosts: hosts(), layer: Some(layer) };
    assert_eq!(commit.step(), PopupCommitStep::Ask(Target::Layout(1)));
    commit.answered(false);
    assert_eq!(commit.step(), PopupCommitStep::Ask(Target::Layout(2)));
    commit.answered(true);
    assert_eq!(commit.step(), PopupCommitStep::Done);
    let mut commit = PopupCommit { hosts: hosts(), layer: Some(layer) };
    commit.answered(false);
    commit.answered(false);
    commit.answered(false);
    assert_eq!(commit.step(), PopupCommitStep::Layer(layer));
}

#[test]
fn popups_are_offered_to_visible_windows() {
    let mut w = state();
    w.layers.windows = vec![layer(5, Layer::Top, "bar")];
    w.add_popup(PopupWindow { surface: 50, parent: Some(101) });
    w.add_popup(PopupWindow { surface: 51, parent: None });
    w.add_popup(PopupWindow { surface: 52, parent: Some(5) });
    assert_eq!(w.orphan_surface_commit(99), None);
    let mut adoption = w.orphan_surface_commit(50).unwrap();
    assert_eq!(w.orphan_popups.iter().map(|p| p.surface).collect::<Vec<_>>(), vec![52, 51]);
    let offer = |host| AdoptionStep::Offer { host, parent: 101 };
    assert_eq!(adoption.step(), offer(Target::Layout(1)));
    adoption.refuse();
    assert_eq!(adoption.step(), offer(Target::Layer(5)));
    adoption.refuse();
    assert_eq!(adoption.step(), AdoptionStep::Dismiss);
}

#[test]
fn popup_without_parent_is_dismissed() {
    let mut w = state();
    w.add_popup(PopupWindow { surface: 51, parent: None });
    match w.surface_commit(51) {
        Commit::Popup { adoption: Some(adoption), .. } => {
            assert_eq!(adoption.step(), AdoptionStep::Dismiss);
        },
        other => panic!("{other:?}"),
    }
    assert!(w.orphan_popups.is_empty());
}

#[test]
fn windows_are_raised_and_urgent() {
    let mut w = state();
    w.layouts.layouts[0].secondary = Some(2);
    let mut out = Vec::new();
    w.raise(102, &mut out);
    w.raise(1, &mut out);
    w.set_urgent(101, true, &mut out);
    w.set_urgent(1, true, &mut out);
    assert_eq!(out, vec![
        Action::SetActive { position: position(0, true), clear_parents: false },
        Action::SetUrgent { window: 1, urgent: true },
    ]);
}

#[test]
fn surfaces_have_parents() {
    let mut w = state();
    w.layers.windows = vec![layer(5, Layer::Top, "bar")];
    assert_eq!(w.parent_geometry(202), area(2, 1));
    assert_eq!(w.parent_geometry(5), area(7, 7));
    assert_eq!(w.parent_geometry(6), area(1280, 800));
    assert!(w.surface_visible(201));
    assert!(!w.surface_visible(202));
    assert!(w.surface_visible(5));
    w.view = ActiveView::Lock(Some(lock_window(9)));
    assert!(w.surface_visible(9));
    assert_eq!(w.parent_geometry(9), area(9, 9));
}

fn drag(vertical: bool, position: Option<LayoutPosition>) -> DragState {
    DragState { vertical, position, outside: false, at_edge: false, at_edge_scrolled: false }
}

#[test]
fn overview_is_touched_dragged_and_left() {
    let mut w = state();
    let mut out = Vec::new();
    assert!(!w.on_touch_start(position(0, false), &mut out));
    w.view = ActiveView::Overview(Overview {
        drag_action: DragActionType::Cycle,
        drag_done: true,
        ..overview(3)
    });
    assert!(w.on_touch_start(position(1, false), &mut out));
    assert_eq!(out, vec![Action::StartHold {
        overview: 3,
        position: LayoutPosition { index: 1, secondary: false }
    }]);
    assert_eq!(w.view, ActiveView::Overview(overview(3)));

    out.clear();
    w.dirty = false;
    assert_eq!(w.on_drag(drag(true, None), &mut out), DragMovement::Still);
    assert_eq!(w.on_drag(drag(true, position(1, false)), &mut out), DragMovement::Pull);
    assert_eq!(w.on_drag(drag(false, None), &mut out), DragMovement::Pull);
    assert!(w.dirty);
    assert_eq!(out[2], Action::CancelHold { overview: 3 });
    let closing = Overview { drag_action: DragActionType::Close(2), ..overview(3) };
    assert_eq!(w.view, ActiveView::Overview(closing));
    w.on_drag_release(DropZone::Elsewhere, overview(4), 5, &mut out);
    assert_eq!(w.view, ActiveView::Overview(Overview { drag_done: true, ..closing }));

    w.view = ActiveView::Overview(overview(3));
    assert_eq!(w.on_drag(drag(false, None), &mut out), DragMovement::Scroll);
    out.clear();
    let edge = DragState { at_edge_scrolled: true, ..drag(false, None) };
    assert_eq!(w.on_drag(edge, &mut out), DragMovement::Scroll);
    assert_eq!(out, vec![Action::CancelVelocity, Action::CancelHold { overview: 3 }]);
    w.view = ActiveView::Overview(closing);
    out.clear();
    w.on_drag(edge, &mut out);
    assert_eq!(out, vec![Action::CancelHold { overview: 3 }]);
    w.on_drag(DragState { at_edge: true, ..edge }, &mut out);
    assert_eq!(out[1], Action::CancelVelocity);

    out.clear();
    w.view = ActiveView::Workspace;
    let everything = DragState { at_edge: true, outside: true, ..edge };
    assert_eq!(w.on_drag(everything, &mut out), DragMovement::Ignored);
    assert!(out.is_empty());
}

#[test]
fn taps_open_windows_and_toggle_the_ime() {
    let mut w = state();
    let patterns = literal(&w, &[]);
    let mut toggle = true;
    let mut out = Vec::new();
    w.on_tap(false, None, &mut toggle, &patterns, NOW, &mut out);
    assert!(!toggle);
    w.on_tap(true, None, &mut toggle, &patterns, NOW, &mut out);
    assert!(!toggle);
    w.layouts.focus = None;
    w.on_tap(true, None, &mut toggle, &patterns, NOW, &mut out);
    assert!(toggle);
    out.clear();
    w.view = ActiveView::Overview(overview(3));
    w.on_tap(true, position(1, false), &mut toggle, &patterns, NOW, &mut out);
    assert_eq!(out, vec![Action::CancelHold { overview: 3 }, set_active(1)]);
    assert_eq!(*w.pending_view(), ActiveView::Workspace);
    assert!(toggle);
    w.transaction = None;
    w.view = ActiveView::Fullscreen(1);
    out.clear();
    w.on_tap(true, position(1, false), &mut toggle, &patterns, NOW, &mut out);
    assert!(out.is_empty());
}

#[test]
fn double_taps_cycle_through_layouts() {
    let mut w = state();
    let mut out = Vec::new();
    w.on_double_tap(true, HandleZone::Right, &mut out);
    w.on_double_tap(true, HandleZone::Middle, &mut out);
    w.on_double_tap(true, HandleZone::Left, &mut out);
    w.on_double_tap(false, HandleZone::Left, &mut out);
    w.view = ActiveView::Fullscreen(1);
    w.on_double_tap(true, HandleZone::Left, &mut out);
    assert_eq!(out, vec![
        Action::CycleActive { forward: true },
        Action::CycleActive { forward: false },
    ]);
}

#[test]
fn windows_are_dragged_and_dropped() {
    let mut w = state();
    w.start_dnd(LayoutPosition { index: 0, secondary: false }, 8, 5);
    assert_eq!(*w.pending_view(), ActiveView::Workspace);
    w.view = ActiveView::Overview(overview(3));
    w.start_dnd(LayoutPosition { index: 7, secondary: false }, 8, 5);
    assert_eq!(*w.pending_view(), ActiveView::Overview(overview(3)));
    w.start_dnd(LayoutPosition { index: 1, secondary: false }, 8, 5);
    let dnd = ActiveView::DragAndDrop(DragAndDrop { id: 8, window: 2 });
    assert_eq!(*w.pending_view(), dnd);

    w.transaction = None;
    w.view = dnd;
    w.dirty = false;
    let mut out = Vec::new();
    assert_eq!(w.on_drag(drag(true, None), &mut out), DragMovement::Window { clamped: false });
    assert!(w.dirty);
    assert!(out.is_empty());

    // The window stays on the screen.
    let outside = DragState { outside: true, ..drag(true, None) };
    assert_eq!(w.on_drag(outside, &mut out), DragMovement::Window { clamped: true });
    assert_eq!(out, vec![Action::CancelVelocity]);
    out.clear();
    w.on_drag_release(DropZone::Secondary, overview(4), 5, &mut out);
    let place = LayoutPosition { index: 1, secondary: false };
    assert_eq!(out, vec![Action::SetSecondary(place)]);
    assert_eq!(*w.pending_view(), ActiveView::Workspace);
    w.transaction = None;
    w.on_drag_release(DropZone::Primary, overview(4), 5, &mut out);
    assert_eq!(out[1], Action::SetPrimary(place));
    w.transaction = None;
    w.on_drag_release(DropZone::Elsewhere, overview(4), 5, &mut out);
    assert_eq!(w.view, ActiveView::Overview(overview(4)));
    assert_eq!(out.len(), 2);
}

#[test]
fn gestures_open_and_close_the_overview() {
    let mut w = state();
    let idle = GestureState { in_overview: false, threshold_passed: false, touching: true };
    let mut out = Vec::new();
    w.on_gesture(HandleGesture::Vertical, idle, overview(1), 5, &mut out);
    assert_eq!(w.view, ActiveView::Workspace);
    let inside = GestureState { in_overview: true, ..idle };
    w.on_gesture(HandleGesture::Horizontal, inside, overview(1), 5, &mut out);
    assert_eq!(w.view, ActiveView::Workspace);
    let opening = Overview { opened: false, ..overview(1) };
    w.on_gesture(HandleGesture::Vertical, inside, opening, 5, &mut out);
    assert_eq!(w.view, ActiveView::Overview(opening));
    let passed = GestureState { threshold_passed: true, ..inside };
    w.on_gesture(HandleGesture::Vertical, passed, overview(2), 5, &mut out);
    assert_eq!(w.view, ActiveView::Overview(opening));
    w.on_gesture_done(HandleGesture::Vertical, passed, overview(2), 5, &mut out);
    assert_eq!(w.view, ActiveView::Overview(overview(1)));
    assert!(out.is_empty());
    w.on_gesture_done(HandleGesture::Vertical, inside, overview(2), 5, &mut out);
    assert_eq!(w.view, ActiveView::Overview(overview(2)));
    let released = GestureState { touching: false, ..passed };
    w.on_gesture(HandleGesture::Vertical, released, overview(3), 5, &mut out);
    assert_eq!(out, vec![
        Action::CancelVelocity,
        Action::SetActive { position: None, clear_parents: true },
    ]);
    assert_eq!(*w.pending_view(), ActiveView::Workspace);

    w.transaction = None;
    w.view = ActiveView::Overview(opening);
    w.on_gesture_done(HandleGesture::Vertical, idle, overview(2), 5, &mut Vec::new());
    assert_eq!(*w.pending_view(), ActiveView::Workspace);
}

#[test]
fn gestures_leave_fullscreen() {
    let mut w = state();
    w.view = ActiveView::Fullscreen(1);
    let idle = GestureState { in_overview: false, threshold_passed: true, touching: false };
    let mut out = Vec::new();
    w.on_gesture_done(HandleGesture::Vertical, idle, overview(1), 5, &mut out);
    assert_eq!(w.transaction, None);
    let inside = GestureState { in_overview: true, ..idle };
    w.on_gesture_done(HandleGesture::Vertical, inside, overview(1), 5, &mut out);
    assert_eq!(*w.pending_view(), ActiveView::Workspace);
    assert_eq!(out, vec![
        Action::SetFullscreen { window: 1, fullscreen: false },
        Action::ResizePendingActive,
    ]);
}

fn input(surface: u64) -> InputSurface {
    let zero = FloatBits { bits: 0 };
    InputSurface::new(surface, FloatPoint { x: zero, y: zero }, zero)
}

fn hits() -> Hits {
    Hits {
        overlay: Some(LayerHit { layer: 5, surface: input(1) }),
        fullscreen: Some(input(2)),
        lock: Some(input(3)),
        foreground: Some(LayerHit { layer: 6, surface: input(4) }),
        layouts: Some(input(5)),
        background: Some(LayerHit { layer: 5, surface: input(6) }),
    }
}

#[test]
fn touches_reach_the_topmost_surface() {
    let mut w = state();
    w.layers.windows = vec![layer(5, Layer::Overlay, "a"), layer(6, Layer::Top, "b")];
    w.layers.windows[1].deny_focus = true;
    let hit = w.surface_at(hits()).unwrap();
    assert_eq!((hit.surface, hit.toplevel), (4, None));
    let hit = w.surface_at(Hits { foreground: None, ..hits() }).unwrap();
    assert_eq!(hit.surface, 5);
    let hit = w.surface_at(Hits { foreground: None, layouts: None, ..hits() }).unwrap();
    assert_eq!(hit.toplevel, Some(InputSurfaceKind::Layer((5, text("a")))));

    w.view = ActiveView::Fullscreen(1);
    let hit = w.surface_at(hits()).unwrap();
    assert_eq!(hit.surface, 1);
    let mut hit = w.surface_at(Hits { overlay: None, ..hits() }).unwrap();
    assert_eq!(hit.surface, 2);
    let kind = hit.toplevel.as_mut().unwrap();
    assert_eq!(kind.take_app_id(), text("org.game"));
    assert_eq!(*kind, InputSurfaceKind::Layout((1, None)));

    w.view = ActiveView::Lock(Some(lock_window(9)));
    assert_eq!(w.surface_at(hits()).unwrap().surface, 3);
    w.view = ActiveView::Lock(None);
    assert!(w.surface_at(hits()).is_none());
    w.view = ActiveView::Overview(overview(1));
    assert!(w.surface_at(hits()).is_none());
}

#[test]
fn scene_is_described() {
    let mut w = state();
    w.layers.windows = vec![layer(5, Layer::Top, "bar")];
    w.layouts.parent_layouts = vec![20];
    w.layouts.windows[1].surface = SurfaceHandle::X11(77);
    w.set_view(ActiveView::Fullscreen(1), 5);
    let scene = w.log_focus_graph();
    assert_eq!(scene.view, ViewKind::Fullscreen);
    assert_eq!(scene.active, 10);
    assert!(scene.layouts[0].active && !scene.layouts[1].active);
    assert_eq!(scene.layouts[1].primary, "JollyPad-Desktop");
    assert_eq!(scene.layouts[1].secondary, "");
    assert_eq!(scene.layers[0].app_id, "bar");
    assert_eq!(scene.focus, Some(("Game".into(), "org.game".into())));
    let tree = w.log_window_tree();
    assert_eq!(tree.view, ViewKind::Workspace);
    assert_eq!(tree.parents, vec![20]);
    assert!(tree.layouts[1].primary.as_ref().unwrap().x11);
    assert!(tree.layouts[1].secondary.is_none());
    assert_eq!(tree.view.text(), "Workspace");
    let mut out = Vec::new();
    w.set_trace_scene_enabled(false, &mut out);
    w.set_trace_scene_enabled(true, &mut out);
    assert_eq!(out, vec![Action::LogScene]);
    assert!(w.trace_scene_enabled);
}

#[test]
fn identifiers_are_listed() {
    let mut w = state();
    w.layers.windows = vec![layer(5, Layer::Top, "bar")];
    let ids = w.identifiers();
    for id in [None, text(""), text("Game"), text("org.game"), text("bar")] {
        assert!(ids.contains(&id));
    }
    assert!(!ids.contains(&text("other")));
    w.set_system_role("home".into(), matcher("h"));
    w.command_map.insert("c".into(), "d".into());
    assert_eq!(w.patterns(), vec!["h".to_string(), "d".to_string()]);
    assert_eq!(w.system_role("home").unwrap().base(), "h");
    assert!(w.system_role("nav").is_none());
}

#[test]
fn invalid_patterns_are_rejected() {
    let patterns = Patterns { valid: vec!["ok".into()], accepted: Vec::new() };
    assert!(AppIdMatcher::try_from("ok".into(), &patterns).is_ok());
    let error = AppIdMatcher::try_from("(".into(), &patterns).unwrap_err();
    assert_eq!(error.base, "(");
}
