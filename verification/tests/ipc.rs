use catacomb::action::{Action, Key, Target};
use catacomb::app_id::{Accepted, AppIdMatcher, Patterns};
use catacomb::geometry::{FloatBits, Point, Rectangle, Size};
use catacomb::ipc::{
    find_problem, find_role_request, message_patterns, reply_text, Catacomb, CliToggle, GestureBindingAction, GestureSector,
    IpcMessage, KeyTrigger, Keysym, MessageProblem, Modifiers, RoleRequest,
};
use catacomb::startup::{log_directives, log_directory, log_file};
use catacomb::string_map::StringMap;
use catacomb::windows::scene::{
    Canvas, Layers, Layout, LayoutPosition, Layouts, Orientation, Output, SurfaceHandle, Window,
};
use catacomb::windows::state::{ActiveView, Clock, WindowScale};
use catacomb::windows::Windows;

const NOW: Clock = Clock { wall_ms: 5000, mono_ns: 1_000_000_000 };
const SCALED: Size = Size { w: 640, h: 400 };
const CLASSIC: &str = "^(JollyPad-Desktop|jolly-home|JollyPad-Launcher)$";

fn text(s: &str) -> Option<String> {
    Some(s.to_string())
}

fn sector(number: u8) -> GestureSector {
    GestureSector { number }
}

/// State with a game in its only layout.
fn state() -> Catacomb {
    let window = Window {
        key: 1,
        surface: SurfaceHandle::Xdg(101),
        title: text("Game"),
        xdg_app_id: text("org.game"),
        app_id: text("org.game"),
        process_group: Some(42),
        alive: true,
        dirty: false,
        transaction_done: true,
        surfaces: vec![101],
        bounds: Rectangle { loc: Point { x: 0, y: 0 }, size: Size { w: 1, h: 1 } },
    };
    let layout = || Layout { id: 10, primary: Some(1), secondary: None };
    let layouts = Layouts {
        windows: vec![window],
        loose: Vec::new(),
        layouts: vec![layout()],
        active: layout(),
        pending_active: layout(),
        visible: vec![1],
        parent_layouts: Vec::new(),
        focus: Some(1),
        x11: Vec::new(),
    };
    let layers = Layers {
        windows: Vec::new(),
        foreground: Vec::new(),
        background: Vec::new(),
        overlay: Vec::new(),
        focus: None,
    };
    let canvas = Canvas {
        orientation: Orientation { number: 0 },
        scale: FloatBits { bits: 1f64.to_bits() },
        size: Size { w: 1280, h: 800 },
    };
    let windows = Windows::new(
        Output { canvas },
        layouts,
        layers,
        Orientation { number: 0 },
        StringMap::new(),
        StringMap::new(),
        Clock { wall_ms: 1, mono_ns: 0 },
    );
    Catacomb {
        windows,
        user_gestures: Vec::new(),
        key_bindings: Vec::new(),
        input_log_enabled: false,
        display_on: true,
        draw_cursor: false,
    }
}

/// Verdicts where every pattern but "(" is valid and accepts itself.
fn patterns() -> Patterns {
    let valid = ["org.game", "Game", "other", "a", "b", "JollyPad-Overlay", CLASSIC];
    let accepted = ["org.game", "Game"]
        .iter()
        .map(|base| Accepted { base: base.to_string(), id: text(base) })
        .collect();
    Patterns { valid: valid.iter().map(|base| base.to_string()).collect(), accepted }
}

/// Handle a message which is not answered.
fn handle(state: &mut Catacomb, message: IpcMessage) -> Vec<Action> {
    let mut out = Vec::new();
    assert_eq!(state.handle_message(message, &patterns(), SCALED, NOW, &mut out), None);
    out
}

fn ask(state: &mut Catacomb, message: IpcMessage) -> IpcMessage {
    let mut out = Vec::new();
    let reply = state.handle_message(message, &patterns(), SCALED, NOW, &mut out);
    assert!(out.is_empty());
    reply.unwrap()
}

fn set_active(index: usize) -> Action {
    let position = Some(LayoutPosition { index, secondary: false });
    Action::SetActive { position, clear_parents: true }
}

fn exec_or_focus(command: &str, hint: &str, card: &str) -> IpcMessage {
    IpcMessage::ExecOrFocus { command: command.into(), app_id_hint: text(hint), card_id: text(card) }
}

#[test]
fn orientation_is_locked_and_unlocked() {
    let mut s = state();
    let lock = Some(Orientation { number: 2 });
    let message = IpcMessage::Orientation { lock, unlock: false };
    assert_eq!(handle(&mut s, message), vec![Action::LockOrientation(lock)]);
    let message = IpcMessage::Orientation { lock, unlock: true };
    assert_eq!(handle(&mut s, message), vec![Action::UnlockOrientation]);
}

#[test]
fn invalid_patterns_are_ignored() {
    let mut s = state();
    let app_id = || "(".to_string();
    let messages = vec![
        IpcMessage::Focus { app_id: app_id() },
        IpcMessage::ToggleWindow { app_id: app_id() },
        IpcMessage::SystemRole { role: "home".into(), app_id: app_id() },
        IpcMessage::Scale {
            scale: WindowScale::Fixed(FloatBits { bits: 1 }),
            app_id: Some(app_id()),
        },
        IpcMessage::BindGesture {
            app_id: app_id(),
            start: sector(0),
            end: sector(1),
            program: "p".into(),
            arguments: Vec::new(),
        },
        IpcMessage::BindKey {
            app_id: app_id(),
            mods: None,
            trigger: KeyTrigger { number: 0 },
            keys: Vec::new(),
            program: "p".into(),
            arguments: Vec::new(),
        },
    ];
    for message in messages {
        assert!(handle(&mut s, message).is_empty());
    }
    assert!(s.windows.system_role("home").is_none());
    assert!(s.windows.window_scales.is_empty());
    assert!(s.user_gestures.is_empty() && s.key_bindings.is_empty());
}

#[test]
fn applications_are_focused() {
    let mut s = state();
    let message = IpcMessage::Focus { app_id: "other".into() };
    assert_eq!(handle(&mut s, message), vec![Action::FocusApp { app_id: "other".into() }]);
}

#[test]
fn running_applications_are_not_launched_again() {
    let mut s = state();
    let focused = vec![set_active(0), Action::Unstall];
    assert_eq!(handle(&mut s, exec_or_focus("sh -c game", "org.game", "c")), focused);
    let launched = handle(&mut s, exec_or_focus("game", "other", "card"));
    assert_eq!(launched, vec![Action::Spawn { command: "game".into() }]);
    let launch = s.windows.pending_launch.as_ref().unwrap();
    assert_eq!(launch.command, "game");
    assert_eq!(launch.command_key, text("game"));
    assert_eq!(launch.card_id, text("card"));
    assert_eq!(launch.time, NOW.mono_ns);

    s.windows.card_map.insert("card".into(), "Game".into());
    assert_eq!(handle(&mut s, exec_or_focus("game", "(", "card")), focused);
    s.windows.command_map.insert("game".into(), "org.game".into());
    assert_eq!(handle(&mut s, exec_or_focus("game", "(", "unknown")), focused);
}

#[test]
fn home_is_focused_by_its_role() {
    let mut s = state();
    let focus = || IpcMessage::FocusRole { role: "home".into() };
    assert_eq!(handle(&mut s, focus()), vec![Action::FocusApp { app_id: CLASSIC.into() }]);
    handle(&mut s, IpcMessage::SystemRole { role: "home".into(), app_id: "a".into() });
    assert_eq!(handle(&mut s, focus()), vec![Action::FocusApp { app_id: "a".into() }]);
    assert!(handle(&mut s, IpcMessage::FocusRole { role: "nav".into() }).is_empty());
    let mut out = Vec::new();
    let nothing = Patterns { valid: Vec::new(), accepted: Vec::new() };
    state().handle_message(focus(), &nothing, SCALED, NOW, &mut out);
    assert!(out.is_empty());
}

#[test]
fn windows_are_toggled() {
    let mut s = state();
    let toggled = handle(&mut s, IpcMessage::ToggleWindow { app_id: "org.game".into() });
    let last = Action::SetActive { position: None, clear_parents: true };
    assert_eq!(toggled, vec![last, Action::Unstall]);
    assert!(handle(&mut s, IpcMessage::ToggleWindow { app_id: "other".into() }).is_empty());
}

#[test]
fn roles_act() {
    let request = |role: &str, action: &str, payload: Option<&str>| {
        find_role_request(&role.into(), &action.into(), &payload.map(|p| p.to_string()))
    };
    assert_eq!(request("nav", "toggle", None), RoleRequest::ToggleOverlay);
    assert_eq!(request("overlay", "toggle", None), RoleRequest::ToggleOverlay);
    assert_eq!(request("overlay", "back", None), RoleRequest::ToggleOverlay);
    assert_eq!(request("nav", "back", None), RoleRequest::Ignore);
    assert_eq!(request("home", "focus", None), RoleRequest::FocusHome);
    assert_eq!(request("home", "back", None), RoleRequest::FocusHome);
    assert_eq!(request("home", "select", None), RoleRequest::Press(Key::Return));
    assert_eq!(request("home", "toggle", None), RoleRequest::Ignore);
    for (direction, key) in
        [("up", Key::Up), ("down", Key::Down), ("left", Key::Left), ("right", Key::Right)]
    {
        assert_eq!(request("home", "navigate", Some(direction)), RoleRequest::Press(key));
    }
    assert_eq!(request("home", "navigate", Some("in")), RoleRequest::Ignore);
    assert_eq!(request("home", "navigate", None), RoleRequest::Ignore);
}

#[test]
fn role_actions_press_keys_and_focus_home() {
    let mut s = state();
    let message = |role: &str, action: &str| IpcMessage::RoleAction {
        role: role.into(),
        action: action.into(),
        payload: text("up"),
    };
    let stroke = |key| {
        vec![
            Action::SimulateKey { key, pressed: true },
            Action::SimulateKey { key, pressed: false },
        ]
    };
    assert_eq!(handle(&mut s, message("home", "select")), stroke(Key::Return));
    assert_eq!(handle(&mut s, message("home", "navigate")), stroke(Key::Up));
    assert!(handle(&mut s, message("home", "focus")).is_empty());
    handle(&mut s, IpcMessage::SystemRole { role: "home".into(), app_id: "a".into() });
    let focused = vec![Action::FocusApp { app_id: "a".into() }];
    assert_eq!(handle(&mut s, message("home", "focus")), focused);
    assert!(handle(&mut s, message("nav", "toggle")).is_empty());
    assert!(handle(&mut s, message("tray", "toggle")).is_empty());
}

#[test]
fn switches_are_set() {
    let mut s = state();
    handle(&mut s, IpcMessage::LogInput { state: CliToggle::On });
    handle(&mut s, IpcMessage::Cursor { state: CliToggle::On });
    assert!(s.input_log_enabled && s.draw_cursor);
    handle(&mut s, IpcMessage::LogInput { state: CliToggle::Off });
    handle(&mut s, IpcMessage::Cursor { state: CliToggle::Off });
    assert!(!s.input_log_enabled && !s.draw_cursor);
    let logged = handle(&mut s, IpcMessage::TraceScene { state: CliToggle::On });
    assert_eq!(logged, vec![Action::LogScene]);
    assert!(s.windows.trace_scene_enabled);
    assert!(handle(&mut s, IpcMessage::TraceScene { state: CliToggle::Off }).is_empty());
    assert!(!s.windows.trace_scene_enabled);
}

#[test]
fn logs_are_written() {
    let mut s = state();
    assert_eq!(handle(&mut s, IpcMessage::DumpFocusGraph), vec![Action::LogFocusGraph]);
    assert_eq!(handle(&mut s, IpcMessage::DumpWindows), vec![Action::LogWindowTree]);
}

#[test]
fn commands_are_run() {
    let mut s = state();
    let message = IpcMessage::Exec { command: "sh x".into() };
    assert_eq!(handle(&mut s, message), vec![Action::Spawn { command: "sh x".into() }]);
    let launch = s.windows.pending_launch.as_ref().unwrap();
    assert_eq!(launch.command_key, None);
}

#[test]
fn questions_are_answered() {
    let mut s = state();
    let active = IpcMessage::ActiveWindow { title: "Game".into(), app_id: "org.game".into() };
    assert_eq!(ask(&mut s, IpcMessage::GetActiveWindow), active);
    match ask(&mut s, IpcMessage::GetClients) {
        IpcMessage::Clients { clients } => {
            assert_eq!(clients.len(), 1);
            assert_eq!(clients[0].pid, Some(42));
        },
        other => panic!("{other:?}"),
    }
    s.windows.layouts.focus = None;
    let nothing = IpcMessage::ActiveWindow { title: String::new(), app_id: String::new() };
    assert_eq!(ask(&mut s, IpcMessage::GetActiveWindow), nothing);
    let on = ask(&mut s, IpcMessage::Dpms { state: None });
    assert_eq!(reply_text(&on), text("on"));
    s.display_on = false;
    let off = ask(&mut s, IpcMessage::Dpms { state: None });
    assert_eq!(reply_text(&off), text("off"));
    assert_eq!(reply_text(&nothing), None);
}

#[test]
fn replies_are_ignored() {
    let mut s = state();
    assert!(handle(&mut s, IpcMessage::DpmsReply { state: CliToggle::Off }).is_empty());
    assert!(handle(&mut s, IpcMessage::Clients { clients: Vec::new() }).is_empty());
    let active = IpcMessage::ActiveWindow { title: String::new(), app_id: String::new() };
    assert!(handle(&mut s, active).is_empty());
    assert!(s.display_on);
}

#[test]
fn display_is_switched() {
    let mut s = state();
    let message = IpcMessage::Dpms { state: Some(CliToggle::Off) };
    assert_eq!(handle(&mut s, message), vec![Action::SetDisplayStatus { on: false }]);
    assert!(s.display_on);
}

#[test]
fn scales_are_changed() {
    let mut s = state();
    let two = FloatBits { bits: 2f64.to_bits() };
    let scale = WindowScale::Fixed(two);
    let done = handle(&mut s, IpcMessage::Scale { scale, app_id: None });
    assert_eq!(done[0], Action::SetOutputScale(two));
    assert_eq!(done.last(), Some(&Action::Unstall));
    assert_eq!(s.windows.output.canvas.scale, two);
    assert_eq!(s.windows.output.canvas.size, SCALED);
    let done = handle(&mut s, IpcMessage::Scale { scale, app_id: text("a") });
    assert_eq!(done, vec![Action::SetWindowScale { target: Target::Layout(1) }]);
    assert_eq!(s.windows.window_scales[0].scale, scale);
    let scale = WindowScale::Additive(two);
    assert!(handle(&mut s, IpcMessage::Scale { scale, app_id: None }).is_empty());
}

#[test]
fn patterns_of_messages_are_listed() {
    let listed = |message| message_patterns(&message);
    assert_eq!(listed(IpcMessage::Focus { app_id: "a".into() }), vec!["a"]);
    assert_eq!(listed(IpcMessage::FocusRole { role: "home".into() }), vec![CLASSIC]);
    let toggle = IpcMessage::RoleAction {
        role: "nav".into(),
        action: "toggle".into(),
        payload: None,
    };
    assert_eq!(listed(toggle), vec!["JollyPad-Overlay"]);
    let launch = |app_id_hint| IpcMessage::ExecOrFocus {
        command: "x".into(),
        app_id_hint,
        card_id: None,
    };
    assert_eq!(listed(launch(text("b"))), vec!["b"]);
    assert!(listed(launch(None)).is_empty());
    assert!(listed(IpcMessage::GetClients).is_empty());
}

#[test]
fn problems_of_messages_are_found() {
    let problem = |message| find_problem(&message, &patterns());
    let invalid = Some(MessageProblem::InvalidAppId);
    assert_eq!(problem(IpcMessage::Focus { app_id: "(".into() }), invalid);
    assert_eq!(problem(IpcMessage::Focus { app_id: "a".into() }), None);
    assert_eq!(problem(IpcMessage::RoleAction {
        role: "nav".into(),
        action: "toggle".into(),
        payload: None,
    }), None);
    let scale = |scale| IpcMessage::Scale { scale, app_id: None };
    let one = FloatBits { bits: 1f64.to_bits() };
    assert_eq!(problem(scale(WindowScale::Fixed(one))), None);
    let relative = Some(MessageProblem::RelativeScale);
    assert_eq!(problem(scale(WindowScale::Additive(one))), relative);
    let bind = |app_id: &str, key| IpcMessage::BindGestureKey {
        app_id: app_id.into(),
        start: sector(0),
        end: sector(1),
        mods: None,
        key,
    };
    assert_eq!(problem(bind("a", Keysym::Xkb(5))), None);
    assert_eq!(problem(bind("a", Keysym::Custom(5))), Some(MessageProblem::CustomKeysym));
    assert_eq!(problem(bind("(", Keysym::Custom(5))), invalid);
}

#[test]
fn gestures_are_bound_and_unbound() {
    let mut s = state();
    let bind = |end| IpcMessage::BindGesture {
        app_id: "a".into(),
        start: sector(0),
        end: sector(end),
        program: "p".into(),
        arguments: vec!["x".to_string()],
    };
    let bind_key = |key| IpcMessage::BindGestureKey {
        app_id: "b".into(),
        start: sector(0),
        end: sector(1),
        mods: None,
        key,
    };
    handle(&mut s, bind(1));
    handle(&mut s, bind(2));
    handle(&mut s, bind(1));
    handle(&mut s, bind_key(Keysym::Xkb(9)));
    handle(&mut s, bind_key(Keysym::Custom(9)));
    assert_eq!(s.user_gestures.len(), 4);
    let command = GestureBindingAction::Cmd(("p".into(), vec!["x".to_string()]));
    assert_eq!(s.user_gestures[0].action, command);
    let key = GestureBindingAction::Key((9, Modifiers { bits: 0 }));
    assert_eq!(s.user_gestures[3].action, key);
    let unbind =
        |app_id: &str| IpcMessage::UnbindGesture { app_id: app_id.into(), start: sector(0), end: sector(1) };
    handle(&mut s, unbind("a"));
    assert_eq!(s.user_gestures.len(), 2);
    assert_eq!(s.user_gestures[0].end, sector(2));
    handle(&mut s, unbind("b"));
    assert_eq!(s.user_gestures.len(), 1);
}

#[test]
fn keys_are_bound_and_unbound() {
    let mut s = state();
    let bind = |mods, key| IpcMessage::BindKey {
        app_id: "a".into(),
        mods,
        trigger: KeyTrigger { number: 1 },
        keys: vec![Keysym::Xkb(key)],
        program: "p".into(),
        arguments: Vec::new(),
    };
    let shift = Some(Modifiers { bits: 1 });
    handle(&mut s, bind(None, 1));
    handle(&mut s, bind(shift, 1));
    handle(&mut s, bind(None, 2));
    assert_eq!(s.key_bindings[1].mods, Modifiers { bits: 1 });
    assert_eq!(s.key_bindings[0].app_id, AppIdMatcher { base: "a".into() });
    let unbind = |app_id: &str, mods, keys: Vec<Keysym>| IpcMessage::UnbindKey {
        app_id: app_id.into(),
        mods,
        keys,
    };
    handle(&mut s, unbind("b", None, vec![Keysym::Xkb(1)]));
    handle(&mut s, unbind("a", None, Vec::new()));
    handle(&mut s, unbind("a", None, vec![Keysym::Custom(1)]));
    assert_eq!(s.key_bindings.len(), 3);
    handle(&mut s, unbind("a", None, vec![Keysym::Xkb(1)]));
    assert_eq!(s.key_bindings.len(), 2);
    handle(&mut s, unbind("a", shift, vec![Keysym::Xkb(1)]));
    assert_eq!(s.key_bindings.len(), 1);
    assert_eq!(s.key_bindings[0].keys, vec![Keysym::Xkb(2)]);
}

#[test]
fn keyboard_is_configured() {
    let mut s = state();
    let message = IpcMessage::KeyboardConfig {
        model: None,
        layout: text("de"),
        variant: None,
        options: text("caps"),
    };
    assert_eq!(handle(&mut s, message), vec![Action::SetKeyboard {
        model: String::new(),
        layout: "de".into(),
        variant: String::new(),
        options: text("caps"),
        rules: String::new(),
    }]);
}

#[test]
fn messages_do_not_unlock() {
    let mut s = state();
    s.windows.lock(4000);
    handle(&mut s, IpcMessage::ToggleWindow { app_id: "org.game".into() });
    handle(&mut s, exec_or_focus("x", "Game", "c"));
    assert_eq!(*s.windows.pending_view(), ActiveView::Lock(None));
}

#[test]
fn logs_are_kept_with_the_users_state() {
    assert_eq!(log_directory(text("/s"), text("/h")), vec!["/s", "jollypad", "logs"]);
    let below_home = vec!["/h", ".local", "state", "jollypad", "logs"];
    assert_eq!(log_directory(None, text("/h")), below_home);
    assert_eq!(log_directory(None, None), vec!["/tmp", "jollypad", "logs"]);
    assert_eq!(log_file(), "jollypad-catacomb.log");
    assert_eq!(log_directives(text("debug")), "debug");
    assert!(log_directives(None).starts_with("info,catacomb=info,"));
}
