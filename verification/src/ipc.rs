//! IPC messages.

use vstd::prelude::*;

use crate::action::{Action, Key};
use crate::app_id::{AppIdMatcher, Patterns};
use crate::command::command_key;
use crate::command::normalize_command_key;
use crate::geometry::Size;
use crate::lists::{collect_all, collected, lemma_collected};
use crate::text::{clone_opt, clone_or_empty, opt_text_is, text_is};
use crate::text::{opt_view, or_empty, views};
use crate::windows::output::window_scaling;
use crate::windows::scene::{ClientInfo, Orientation};
use crate::windows::state::{Clock, WindowScale, Windows};

verus! {

/// Two-state switch.
#[derive(Clone, Copy, Debug, PartialEq, Eq, Structural)]
pub enum CliToggle {
    On,
    Off,
}

/// Region of the screen where a gesture starts or ends, by its number.
#[derive(Clone, Copy, Debug, PartialEq, Eq, Structural)]
pub struct GestureSector {
    pub number: u8,
}

/// Event which triggers a key binding, by its number.
#[derive(Clone, Copy, Debug, PartialEq, Eq, Structural)]
pub struct KeyTrigger {
    pub number: u8,
}

/// Keyboard modifiers as a bit set.
#[derive(Clone, Copy, Debug, PartialEq, Eq, Structural)]
pub struct Modifiers {
    pub bits: u8,
}

/// Key on the keyboard, or a function of the compositor in its place.
#[derive(Clone, Copy, Debug, PartialEq, Eq, Structural)]
pub enum Keysym {
    /// Real key, by its keysym.
    Xkb(u32),
    /// Function like enabling the virtual keyboard, by its number.
    Custom(u32),
}

/// Message to or from the compositor.
#[derive(Debug, PartialEq, Eq)]
pub enum IpcMessage {
    Orientation { lock: Option<Orientation>, unlock: bool },
    Focus { app_id: String },
    ExecOrFocus { command: String, app_id_hint: Option<String>, card_id: Option<String> },
    FocusRole { role: String },
    ToggleWindow { app_id: String },
    SystemRole { role: String, app_id: String },
    LogInput { state: CliToggle },
    DumpFocusGraph,
    TraceScene { state: CliToggle },
    RoleAction { role: String, action: String, payload: Option<String> },
    Exec { command: String },
    GetActiveWindow,
    GetClients,
    Scale { scale: WindowScale, app_id: Option<String> },
    BindGesture {
        app_id: String,
        start: GestureSector,
        end: GestureSector,
        program: String,
        arguments: Vec<String>,
    },
    BindGestureKey {
        app_id: String,
        start: GestureSector,
        end: GestureSector,
        mods: Option<Modifiers>,
        key: Keysym,
    },
    UnbindGesture { app_id: String, start: GestureSector, end: GestureSector },
    BindKey {
        app_id: String,
        mods: Option<Modifiers>,
        trigger: KeyTrigger,
        keys: Vec<Keysym>,
        program: String,
        arguments: Vec<String>,
    },
    UnbindKey { app_id: String, mods: Option<Modifiers>, keys: Vec<Keysym> },
    KeyboardConfig {
        model: Option<String>,
        layout: Option<String>,
        variant: Option<String>,
        options: Option<String>,
    },
    Dpms { state: Option<CliToggle> },
    DpmsReply { state: CliToggle },
    Cursor { state: CliToggle },
    DumpWindows,
    ActiveWindow { title: String, app_id: String },
    Clients { clients: Vec<ClientInfo> },
}

/// What a gesture does.
#[derive(Debug, PartialEq, Eq)]
pub enum GestureBindingAction {
    /// Run a program with its arguments.
    Cmd((String, Vec<String>)),
    /// Press a key with modifiers.
    Key((u32, Modifiers)),
}

/// Gesture set up by the user.
#[derive(Debug, PartialEq, Eq)]
pub struct GestureBinding {
    pub app_id: AppIdMatcher,
    pub start: GestureSector,
    pub end: GestureSector,
    pub action: GestureBindingAction,
}

/// Key binding set up by the user.
#[derive(Debug, PartialEq, Eq)]
pub struct KeyBinding {
    pub app_id: AppIdMatcher,
    pub mods: Modifiers,
    pub trigger: KeyTrigger,
    pub keys: Vec<Keysym>,
    pub program: String,
    pub arguments: Vec<String>,
}

/// Compositor state which is changed by messages.
pub struct Catacomb {
    pub windows: Windows,
    pub user_gestures: Vec<GestureBinding>,
    pub key_bindings: Vec<KeyBinding>,
    pub input_log_enabled: bool,
    pub display_on: bool,
    pub draw_cursor: bool,
}

/// Whether a gesture differs from what is about to be removed.
pub open spec fn other_gesture(
    app_id: Seq<char>,
    start: GestureSector,
    end: GestureSector,
) -> spec_fn(GestureBinding) -> Seq<GestureBinding> {
    |g: GestureBinding|
        if g.app_id.base@ != app_id || g.start != start || g.end != end {
            seq![g]
        } else {
            Seq::empty()
        }
}

/// Whether a key binding differs from what is about to be removed.
pub open spec fn other_binding(app_id: Seq<char>, mods: Modifiers, keys: Seq<Keysym>) -> spec_fn(
    KeyBinding,
) -> Seq<KeyBinding> {
    |b: KeyBinding|
        if b.app_id.base@ != app_id || b.keys@ != keys || b.mods != mods {
            seq![b]
        } else {
            Seq::empty()
        }
}

/// Modifiers which might be missing.
pub open spec fn mods_or_none(mods: Option<Modifiers>) -> Modifiers {
    match mods {
        Some(mods) => mods,
        None => Modifiers { bits: 0 },
    }
}

fn unwrap_mods(mods: Option<Modifiers>) -> (r: Modifiers)
    ensures
        r == mods_or_none(mods),
{
    match mods {
        Some(mods) => mods,
        None => Modifiers { bits: 0 },
    }
}

fn same_keys(a: &Vec<Keysym>, b: &Vec<Keysym>) -> (r: bool)
    ensures
        r == (a@ == b@),
{
    if a.len() != b.len() {
        return false;
    }
    let mut i: usize = 0;
    while i < a.len()
        invariant
            i <= a.len(),
            a.len() == b.len(),
            forall|j: int| 0 <= j < i ==> a@[j] == b@[j],
        decreases a.len() - i,
    {
        if a[i] != b[i] {
            assert(a@[i as int] != b@[i as int]);
            return false;
        }
        i += 1;
    }
    assert(a@ =~= b@);
    true
}

/// Whether the last of the requested work is focusing a pattern.
pub open spec fn focus_requested(start: Seq<Action>, end: Seq<Action>, base: Seq<char>) -> bool {
    &&& end.len() == start.len() + 1
    &&& end.drop_last() == start
    &&& end.last() matches Action::FocusApp { app_id } && app_id@ == base
}

/// Press and release of a key.
pub open spec fn key_stroke(key: Key) -> Seq<Action> {
    seq![
        Action::SimulateKey { key, pressed: true },
        Action::SimulateKey { key, pressed: false },
    ]
}

fn stroke_key(key: Key, out: &mut Vec<Action>)
    ensures
        final(out)@ == old(out)@ + key_stroke(key),
{
    out.push(Action::SimulateKey { key, pressed: true });
    out.push(Action::SimulateKey { key, pressed: false });
}

/// Key for a direction.
pub open spec fn direction_key(payload: Option<Seq<char>>) -> Option<Key> {
    match payload {
        Some(direction) => if direction == "up"@ {
            Some(Key::Up)
        } else if direction == "down"@ {
            Some(Key::Down)
        } else if direction == "left"@ {
            Some(Key::Left)
        } else if direction == "right"@ {
            Some(Key::Right)
        } else {
            None
        },
        None => None,
    }
}

fn find_direction(payload: &Option<String>) -> (r: Option<Key>)
    ensures
        r == direction_key(opt_view(*payload)),
{
    if opt_text_is(payload, "up") {
        Some(Key::Up)
    } else if opt_text_is(payload, "down") {
        Some(Key::Down)
    } else if opt_text_is(payload, "left") {
        Some(Key::Left)
    } else if opt_text_is(payload, "right") {
        Some(Key::Right)
    } else {
        None
    }
}

/// What an application does in its role.
#[derive(Clone, Copy, Debug, PartialEq, Eq, Structural)]
pub enum RoleRequest {
    /// Show or hide the overlay.
    ToggleOverlay,
    /// Focus the home screen.
    FocusHome,
    /// Press a key.
    Press(Key),
    /// Nothing is done by the compositor.
    Ignore,
}

/// Meaning of an action in a role.
pub open spec fn role_request(
    role: Seq<char>,
    action: Seq<char>,
    payload: Option<Seq<char>>,
) -> RoleRequest {
    if (role == "nav"@ || role == "overlay"@) && action == "toggle"@ {
        RoleRequest::ToggleOverlay
    } else if role == "overlay"@ && action == "back"@ {
        RoleRequest::ToggleOverlay
    } else if role == "home"@ && (action == "focus"@ || action == "back"@) {
        RoleRequest::FocusHome
    } else if role == "home"@ && action == "select"@ {
        RoleRequest::Press(Key::Return)
    } else if role == "home"@ && action == "navigate"@ {
        match direction_key(payload) {
            Some(key) => RoleRequest::Press(key),
            None => RoleRequest::Ignore,
        }
    } else {
        RoleRequest::Ignore
    }
}

/// Find the meaning of an action in a role.
pub fn find_role_request(role: &String, action: &String, payload: &Option<String>) -> (r: RoleRequest)
    ensures
        r == role_request(role@, action@, opt_view(*payload)),
{
    let overlay = text_is(role, "overlay");
    if (text_is(role, "nav") || overlay) && text_is(action, "toggle") {
        return RoleRequest::ToggleOverlay;
    }
    if overlay && text_is(action, "back") {
        return RoleRequest::ToggleOverlay;
    }
    if !text_is(role, "home") {
        return RoleRequest::Ignore;
    }
    if text_is(action, "focus") || text_is(action, "back") {
        return RoleRequest::FocusHome;
    }
    if text_is(action, "select") {
        return RoleRequest::Press(Key::Return);
    }
    if text_is(action, "navigate") {
        return match find_direction(payload) {
            Some(key) => RoleRequest::Press(key),
            None => RoleRequest::Ignore,
        };
    }
    RoleRequest::Ignore
}

/// State with other windows.
pub open spec fn with_windows(state: Catacomb, windows: Windows) -> Catacomb {
    Catacomb { windows: windows, ..state }
}

impl Catacomb {
    /// Whether toggling an application is exact.
    pub open spec fn toggles(
        &self,
        after: Catacomb,
        app: Seq<char>,
        patterns: Patterns,
        clock: Clock,
        start: Seq<Action>,
        end: Seq<Action>,
    ) -> bool {
        let toggled = self.windows.is_active(app, patterns) || self.windows.app_place(
            app,
            patterns,
            0,
        ) is Some;
        if !patterns.compiles(app) {
            after == *self && end == start
        } else {
            &&& after == with_windows(
                *self,
                self.windows.with_app_toggled(app, patterns, clock.wall_ms),
            )
            &&& end == start + self.windows.app_toggling(app, patterns, clock.wall_ms) + (if toggled {
                seq![Action::Unstall]
            } else {
                Seq::empty()
            })
        }
    }

    /// Toggle an application named by a pattern.
    fn toggle_window(
        &mut self,
        app_id: String,
        patterns: &Patterns,
        clock: Clock,
        out: &mut Vec<Action>,
    )
        ensures
            old(self).toggles(*final(self), app_id@, *patterns, clock, old(out)@, final(out)@),
    {
        let ghost before = *self;
        let ghost start = out@;
        if let Ok(app) = AppIdMatcher::try_from(app_id, patterns) {
            let toggled = self.windows.toggle_app(&app, patterns, clock.wall_ms, out);
            if toggled {
                out.push(Action::Unstall);
            }
            assert(out@ == start + before.windows.app_toggling(app.base@, *patterns, clock.wall_ms)
                + (if toggled {
                seq![Action::Unstall]
            } else {
                Seq::empty()
            }));
        }
    }

    /// Pattern to focus instead of launching an application again.
    ///
    /// The pattern given with the request comes first, then the one learned for
    /// the card, then the one learned for the command.
    pub open spec fn focus_instead(
        &self,
        command: Seq<char>,
        hint: Option<String>,
        card: Option<String>,
        patterns: Patterns,
    ) -> Option<Seq<char>> {
        let card_app = match card {
            Some(card) => self.windows.card_map.lookup(card@),
            None => None,
        };
        let command_app = match command_key(command) {
            Some(key) => self.windows.command_map.lookup(key),
            None => None,
        };
        if self.windows.mapped_found(hint, patterns) {
            Some(hint->0@)
        } else if self.windows.mapped_found(card_app, patterns) {
            Some(card_app->0@)
        } else if self.windows.mapped_found(command_app, patterns) {
            Some(command_app->0@)
        } else {
            None
        }
    }

    /// Whether launching or focusing an application is exact.
    pub open spec fn launches_or_focuses(
        &self,
        after: Catacomb,
        command: String,
        hint: Option<String>,
        card: Option<String>,
        patterns: Patterns,
        clock: Clock,
        start: Seq<Action>,
        end: Seq<Action>,
    ) -> bool {
        match self.focus_instead(command@, hint, card, patterns) {
            Some(app) => {
                &&& after == with_windows(
                    *self,
                    self.windows.with_app_focused(app, patterns, clock.wall_ms),
                )
                &&& end == start + self.windows.app_focusing(app, patterns, clock.wall_ms)
                    + seq![Action::Unstall]
            },
            None => {
                &&& after.windows.pending_launch is Some
                &&& opt_view(after.windows.pending_launch->0.command_key) == command_key(command@)
                &&& after == with_windows(
                    *self,
                    self.windows.with_launch(
                        command,
                        after.windows.pending_launch->0.command_key,
                        card,
                        None,
                        clock.mono_ns,
                    ),
                )
                &&& end == start.push(Action::Spawn { command })
            },
        }
    }

    /// Focus an application, or launch it if it is not running.
    fn exec_or_focus(
        &mut self,
        command: String,
        app_id_hint: Option<String>,
        card_id: Option<String>,
        patterns: &Patterns,
        clock: Clock,
        out: &mut Vec<Action>,
    )
        ensures
            old(self).launches_or_focuses(
                *final(self),
                command,
                app_id_hint,
                card_id,
                *patterns,
                clock,
                old(out)@,
                final(out)@,
            ),
    {
        let ghost before = *self;
        let ghost start = out@;
        // Try to focus existing window by strict App ID first.
        if let Some(hint) = app_id_hint {
            if let Ok(app) = AppIdMatcher::try_from(hint, patterns) {
                if self.windows.focus_app(&app, patterns, clock.wall_ms, out) {
                    out.push(Action::Unstall);
                    assert(out@ == start + before.windows.app_focusing(
                        app.base@,
                        *patterns,
                        clock.wall_ms,
                    ) + seq![Action::Unstall]);
                    return;
                }
            }
        }
        assert(*self == before);
        assert(out@ == start);
        if let Some(card) = &card_id {
            if self.windows.focus_mapped_card(card.as_str(), patterns, clock.wall_ms, out) {
                out.push(Action::Unstall);
                assert(out@ == start + before.windows.app_focusing(
                    before.windows.card_map.lookup(card@)->0@,
                    *patterns,
                    clock.wall_ms,
                ) + seq![Action::Unstall]);
                return;
            }
        }
        assert(*self == before);
        assert(out@ == start);

        // Try focus by learned command mapping.
        let key = normalize_command_key(command.as_str());
        if let Some(key) = &key {
            if self.windows.focus_mapped_command(key.as_str(), patterns, clock.wall_ms, out) {
                out.push(Action::Unstall);
                assert(out@ == start + before.windows.app_focusing(
                    before.windows.command_map.lookup(key@)->0@,
                    *patterns,
                    clock.wall_ms,
                ) + seq![Action::Unstall]);
                return;
            }
        }
        assert(*self == before);
        assert(out@ == start);
        self.windows.note_launch_context(command.clone(), key, card_id, None, clock);
        out.push(Action::Spawn { command });
    }

    /// Whether an action in a role is exact.
    pub open spec fn acts_in_role(
        &self,
        after: Catacomb,
        request: RoleRequest,
        patterns: Patterns,
        clock: Clock,
        start: Seq<Action>,
        end: Seq<Action>,
    ) -> bool {
        match request {
            RoleRequest::ToggleOverlay => self.toggles(
                after,
                "JollyPad-Overlay"@,
                patterns,
                clock,
                start,
                end,
            ),
            RoleRequest::FocusHome => {
                &&& after == *self
                &&& end == (match self.windows.role_matcher("home"@) {
                    Some(home) => start.push(Action::FocusApp { app_id: home.base }),
                    None => start,
                })
            },
            RoleRequest::Press(key) => after == *self && end == start + key_stroke(key),
            RoleRequest::Ignore => after == *self && end == start,
        }
    }

    /// Handle an action in a role.
    fn act_in_role(
        &mut self,
        request: RoleRequest,
        patterns: &Patterns,
        clock: Clock,
        out: &mut Vec<Action>,
    )
        ensures
            old(self).acts_in_role(*final(self), request, *patterns, clock, old(out)@, final(out)@),
    {
        match request {
            RoleRequest::ToggleOverlay => self.toggle_window(
                "JollyPad-Overlay".to_string(),
                patterns,
                clock,
                out,
            ),
            RoleRequest::FocusHome => {
                if let Some(home) = self.windows.system_role("home") {
                    out.push(Action::FocusApp { app_id: home.base });
                }
            },
            RoleRequest::Press(key) => stroke_key(key, out),
            RoleRequest::Ignore => (),
        }
    }

    /// Whether focusing a role is exact.
    pub open spec fn focuses_role(
        &self,
        role: Seq<char>,
        patterns: Patterns,
        start: Seq<Action>,
        end: Seq<Action>,
    ) -> bool {
        if role != "home"@ {
            end == start
        } else {
            match self.windows.role_matcher("home"@) {
                Some(home) => end == start.push(Action::FocusApp { app_id: home.base }),
                None => if patterns.compiles(
                    "^(JollyPad-Desktop|jolly-home|JollyPad-Launcher)$"@,
                ) {
                    focus_requested(
                        start,
                        end,
                        "^(JollyPad-Desktop|jolly-home|JollyPad-Launcher)$"@,
                    )
                } else {
                    end == start
                },
            }
        }
    }

    /// Focus the application in a role.
    fn focus_role(&self, role: &String, patterns: &Patterns, out: &mut Vec<Action>)
        ensures
            self.focuses_role(role@, *patterns, old(out)@, final(out)@),
    {
        if text_is(role, "home") {
            // Try role mapping.
            if let Some(home) = self.windows.system_role("home") {
                out.push(Action::FocusApp { app_id: home.base });
            } else {
                // Fallback to classic home ids.
                let classic = "^(JollyPad-Desktop|jolly-home|JollyPad-Launcher)$".to_string();
                if let Ok(app) = AppIdMatcher::try_from(classic, patterns) {
                    let ghost start = out@;
                    out.push(Action::FocusApp { app_id: app.base });
                    assert(out@.drop_last() == start);
                }
            }
        }
    }

    /// Remove gestures set up by the user.
    fn unbind_gesture(&mut self, app_id: &String, start: GestureSector, end: GestureSector)
        ensures
            final(self).user_gestures@ == collect_all(
                old(self).user_gestures@,
                other_gesture(app_id@, start, end),
            ),
            *final(self) == (Catacomb { user_gestures: final(self).user_gestures, ..*old(self) }),
    {
        let ghost before = *self;
        let ghost all = self.user_gestures@;
        let ghost f = other_gesture(app_id@, start, end);
        let ghost mut seen: int = 0;
        let mut i: usize = 0;
        assert(all.skip(0) == all);
        while i < self.user_gestures.len()
            invariant
                0 <= seen <= all.len(),
                i <= self.user_gestures.len(),
                f == other_gesture(app_id@, start, end),
                *self == (Catacomb { user_gestures: self.user_gestures, ..before }),
                collected(all, f, seen).len() == i,
                self.user_gestures@ == collected(all, f, seen) + all.skip(seen),
            decreases all.len() - seen,
        {
            assert(self.user_gestures@[i as int] == all[seen]);
            let gesture = &self.user_gestures[i];
            if gesture.app_id.base != *app_id || gesture.start != start || gesture.end != end {
                assert(f(all[seen]) == seq![all[seen]]);
                i += 1;
            } else {
                assert(f(all[seen]) == Seq::<GestureBinding>::empty());
                self.user_gestures.remove(i);
            }
            proof {
                assert(self.user_gestures@ =~= collected(all, f, seen + 1) + all.skip(seen + 1));
                seen = seen + 1;
            }
        }
        assert(all.skip(seen).len() == 0);
        assert(self.user_gestures@ == collect_all(all, f));
    }

    /// Remove key bindings set up by the user.
    fn unbind_key(&mut self, app_id: &String, mods: Modifiers, keys: &Vec<Keysym>)
        ensures
            final(self).key_bindings@ == collect_all(
                old(self).key_bindings@,
                other_binding(app_id@, mods, keys@),
            ),
            *final(self) == (Catacomb { key_bindings: final(self).key_bindings, ..*old(self) }),
    {
        let ghost before = *self;
        let ghost all = self.key_bindings@;
        let ghost f = other_binding(app_id@, mods, keys@);
        let ghost mut seen: int = 0;
        let mut i: usize = 0;
        assert(all.skip(0) == all);
        while i < self.key_bindings.len()
            invariant
                0 <= seen <= all.len(),
                i <= self.key_bindings.len(),
                f == other_binding(app_id@, mods, keys@),
                *self == (Catacomb { key_bindings: self.key_bindings, ..before }),
                collected(all, f, seen).len() == i,
                self.key_bindings@ == collected(all, f, seen) + all.skip(seen),
            decreases all.len() - seen,
        {
            assert(self.key_bindings@[i as int] == all[seen]);
            let binding = &self.key_bindings[i];
            if binding.app_id.base != *app_id || !same_keys(&binding.keys, keys) || binding.mods
                != mods {
                assert(f(all[seen]) == seq![all[seen]]);
                i += 1;
            } else {
                assert(f(all[seen]) == Seq::<KeyBinding>::empty());
                self.key_bindings.remove(i);
            }
            proof {
                assert(self.key_bindings@ =~= collected(all, f, seen + 1) + all.skip(seen + 1));
                seen = seen + 1;
            }
        }
        assert(all.skip(seen).len() == 0);
        assert(self.key_bindings@ == collect_all(all, f));
    }

    /// Whether a change of a scale is exact.
    pub open spec fn scales(
        &self,
        after: Catacomb,
        scale: WindowScale,
        app_id: Option<String>,
        patterns: Patterns,
        size: Size,
        clock: Clock,
        start: Seq<Action>,
        end: Seq<Action>,
    ) -> bool {
        match app_id {
            Some(app_id) => if patterns.compiles(app_id@) {
                &&& after == with_windows(
                    *self,
                    Windows { window_scales: after.windows.window_scales, ..self.windows },
                )
                &&& after.windows.window_scales@ == self.windows.scales_with(
                    AppIdMatcher { base: app_id },
                    scale,
                )
                &&& end == start + collect_all(self.windows.all_targets(), window_scaling())
            } else {
                after == *self && end == start
            },
            None => match scale {
                WindowScale::Fixed(scale) => {
                    &&& after == with_windows(
                        *self,
                        self.windows.with_scale(scale, size, clock.wall_ms),
                    )
                    &&& end == start + self.windows.rescaling(scale) + seq![Action::Unstall]
                },
                _ => after == *self && end == start,
            },
        }
    }

    /// Change the scale of the output, or of the windows accepted by a pattern.
    fn change_scale(
        &mut self,
        scale: WindowScale,
        app_id: Option<String>,
        patterns: &Patterns,
        size: Size,
        clock: Clock,
        out: &mut Vec<Action>,
    )
        requires
            app_id is None && scale is Fixed ==> old(self).windows.resizable(),
        ensures
            old(self).scales(
                *final(self),
                scale,
                app_id,
                *patterns,
                size,
                clock,
                old(out)@,
                final(out)@,
            ),
    {
        match app_id {
            Some(app_id) => {
                if let Ok(app_id) = AppIdMatcher::try_from(app_id, patterns) {
                    self.windows.add_window_scale(app_id, scale, out);
                }
            },
            None => {
                if let WindowScale::Fixed(scale) = scale {
                    let ghost before = *self;
                    let ghost start = out@;
                    self.windows.set_scale(scale, size, clock.wall_ms, out);
                    out.push(Action::Unstall);
                    assert(out@ == start + before.windows.rescaling(scale) + seq![Action::Unstall]);
                }
            },
        }
    }

    /// Whether the reply describes the focused window.
    pub open spec fn tells_active(&self, reply: Option<IpcMessage>) -> bool {
        reply matches Some(IpcMessage::ActiveWindow { title, app_id }) && match self.windows.focused_names() {
            Some(names) => names == (title@, app_id@),
            None => title@.len() == 0 && app_id@.len() == 0,
        }
    }

    /// Whether the reply describes all windows.
    pub open spec fn tells_clients(&self, reply: Option<IpcMessage>) -> bool {
        reply matches Some(IpcMessage::Clients { clients }) && {
            &&& clients.len() == self.windows.layouts.windows.len()
            &&& forall|i: int|
                0 <= i < clients.len() ==> Windows::describes(
                    #[trigger] clients[i],
                    self.windows.layouts.windows[i],
                )
        }
    }

    /// State with one more gesture.
    pub open spec fn adds_gesture(&self, after: Catacomb, gesture: GestureBinding) -> bool {
        &&& after.user_gestures@ == self.user_gestures@.push(gesture)
        &&& after == (Catacomb { user_gestures: after.user_gestures, ..*self })
    }

    /// State with one more key binding.
    pub open spec fn adds_binding(&self, after: Catacomb, binding: KeyBinding) -> bool {
        &&& after.key_bindings@ == self.key_bindings@.push(binding)
        &&& after == (Catacomb { key_bindings: after.key_bindings, ..*self })
    }

    /// Whether the requested work ends in a keyboard configuration.
    pub open spec fn configures_keyboard(
        start: Seq<Action>,
        end: Seq<Action>,
        model: Option<String>,
        layout: Option<String>,
        variant: Option<String>,
        options: Option<String>,
    ) -> bool {
        &&& end.len() == start.len() + 1
        &&& end.drop_last() == start
        &&& end.last() matches Action::SetKeyboard {
            model: m,
            layout: l,
            variant: v,
            options: o,
            rules,
        } && m@ == or_empty(model) && l@ == or_empty(layout) && v@ == or_empty(variant) && o
            == options && rules@.len() == 0
    }

    /// Whether a message is handled exactly.
    ///
    /// `start` and `end` are the work requested before and after.
    pub open spec fn handles(
        &self,
        after: Catacomb,
        message: IpcMessage,
        patterns: Patterns,
        size: Size,
        clock: Clock,
        start: Seq<Action>,
        end: Seq<Action>,
        reply: Option<IpcMessage>,
    ) -> bool {
        match message {
            IpcMessage::Orientation { lock, unlock } => {
                &&& after == *self
                &&& reply is None
                &&& end == start.push(
                    if unlock {
                        Action::UnlockOrientation
                    } else {
                        Action::LockOrientation(lock)
                    },
                )
            },
            IpcMessage::Focus { app_id } => {
                &&& after == *self
                &&& reply is None
                &&& end == (if patterns.compiles(app_id@) {
                    start.push(Action::FocusApp { app_id })
                } else {
                    start
                })
            },
            IpcMessage::ExecOrFocus { command, app_id_hint, card_id } => {
                &&& self.launches_or_focuses(
                    after,
                    command,
                    app_id_hint,
                    card_id,
                    patterns,
                    clock,
                    start,
                    end,
                )
                &&& reply is None
            },
            IpcMessage::FocusRole { role } => {
                &&& after == *self
                &&& reply is None
                &&& self.focuses_role(role@, patterns, start, end)
            },
            IpcMessage::ToggleWindow { app_id } => {
                &&& self.toggles(after, app_id@, patterns, clock, start, end)
                &&& reply is None
            },
            IpcMessage::SystemRole { role, app_id } => {
                &&& reply is None
                &&& end == start
                &&& if patterns.compiles(app_id@) {
                    &&& after == with_windows(
                        *self,
                        Windows { system_roles: after.windows.system_roles, ..self.windows },
                    )
                    &&& after.windows.system_roles@ == self.windows.system_roles@.insert(
                        role@,
                        app_id@,
                    )
                } else {
                    after == *self
                }
            },
            IpcMessage::LogInput { state } => {
                &&& after == (Catacomb { input_log_enabled: state == CliToggle::On, ..*self })
                &&& reply is None
                &&& end == start
            },
            IpcMessage::DumpFocusGraph => {
                &&& after == *self
                &&& reply is None
                &&& end == start.push(Action::LogFocusGraph)
            },
            IpcMessage::TraceScene { state } => {
                &&& after == with_windows(
                    *self,
                    Windows { trace_scene_enabled: state == CliToggle::On, ..self.windows },
                )
                &&& reply is None
                &&& end == (if state == CliToggle::On {
                    start.push(Action::LogScene)
                } else {
                    start
                })
            },
            IpcMessage::RoleAction { role, action, payload } => {
                &&& self.acts_in_role(
                    after,
                    role_request(role@, action@, opt_view(payload)),
                    patterns,
                    clock,
                    start,
                    end,
                )
                &&& reply is None
            },
            IpcMessage::Exec { command } => {
                &&& after == with_windows(
                    *self,
                    self.windows.with_launch(command, None, None, None, clock.mono_ns),
                )
                &&& reply is None
                &&& end == start.push(Action::Spawn { command })
            },
            IpcMessage::GetActiveWindow => {
                &&& after == *self
                &&& self.tells_active(reply)
                &&& end == start
            },
            IpcMessage::GetClients => {
                &&& after == *self
                &&& self.tells_clients(reply)
                &&& end == start
            },
            IpcMessage::Scale { scale, app_id } => {
                &&& self.scales(after, scale, app_id, patterns, size, clock, start, end)
                &&& reply is None
            },
            IpcMessage::BindGesture { app_id, start: from, end: to, program, arguments } => {
                &&& reply is None
                &&& end == start
                &&& if patterns.compiles(app_id@) {
                    self.adds_gesture(
                        after,
                        GestureBinding {
                            app_id: AppIdMatcher { base: app_id },
                            start: from,
                            end: to,
                            action: GestureBindingAction::Cmd((program, arguments)),
                        },
                    )
                } else {
                    after == *self
                }
            },
            IpcMessage::BindGestureKey { app_id, start: from, end: to, mods, key } => {
                &&& reply is None
                &&& end == start
                &&& match key {
                    Keysym::Xkb(key) if patterns.compiles(app_id@) => self.adds_gesture(
                        after,
                        GestureBinding {
                            app_id: AppIdMatcher { base: app_id },
                            start: from,
                            end: to,
                            action: GestureBindingAction::Key((key, mods_or_none(mods))),
                        },
                    ),
                    _ => after == *self,
                }
            },
            IpcMessage::UnbindGesture { app_id, start: from, end: to } => {
                &&& reply is None
                &&& end == start
                &&& after.user_gestures@ == collect_all(
                    self.user_gestures@,
                    other_gesture(app_id@, from, to),
                )
                &&& after == (Catacomb { user_gestures: after.user_gestures, ..*self })
            },
            IpcMessage::BindKey { app_id, mods, trigger, keys, program, arguments } => {
                &&& reply is None
                &&& end == start
                &&& if patterns.compiles(app_id@) {
                    self.adds_binding(
                        after,
                        KeyBinding {
                            app_id: AppIdMatcher { base: app_id },
                            mods: mods_or_none(mods),
                            trigger,
                            keys,
                            program,
                            arguments,
                        },
                    )
                } else {
                    after == *self
                }
            },
            IpcMessage::UnbindKey { app_id, mods, keys } => {
                &&& reply is None
                &&& end == start
                &&& after.key_bindings@ == collect_all(
                    self.key_bindings@,
                    other_binding(app_id@, mods_or_none(mods), keys@),
                )
                &&& after == (Catacomb { key_bindings: after.key_bindings, ..*self })
            },
            IpcMessage::KeyboardConfig { model, layout, variant, options } => {
                &&& after == *self
                &&& reply is None
                &&& Self::configures_keyboard(start, end, model, layout, variant, options)
            },
            IpcMessage::Dpms { state } => {
                &&& after == *self
                &&& match state {
                    Some(state) => reply is None && end == start.push(
                        Action::SetDisplayStatus { on: state == CliToggle::On },
                    ),
                    None => end == start && reply == Some(
                        IpcMessage::DpmsReply {
                            state: if self.display_on {
                                CliToggle::On
                            } else {
                                CliToggle::Off
                            },
                        },
                    ),
                }
            },
            IpcMessage::Cursor { state } => {
                &&& after == (Catacomb { draw_cursor: state == CliToggle::On, ..*self })
                &&& reply is None
                &&& end == start
            },
            IpcMessage::DumpWindows => {
                &&& after == *self
                &&& reply is None
                &&& end == start.push(Action::LogWindowTree)
            },
            IpcMessage::DpmsReply { .. } | IpcMessage::ActiveWindow { .. }
            | IpcMessage::Clients { .. } => {
                &&& after == *self
                &&& reply is None
                &&& end == start
            },
        }
    }

    /// Handle IPC socket messages.
    ///
    /// Messages with an invalid App ID are ignored, as are replies. The result
    /// is the reply to the message. `size` is that of the output with the scale
    /// which the message asks for, if it does so.
    #[verifier::rlimit(60)]
    pub fn handle_message(
        &mut self,
        message: IpcMessage,
        patterns: &Patterns,
        size: Size,
        clock: Clock,
        out: &mut Vec<Action>,
    ) -> (r: Option<IpcMessage>)
        requires
            old(self).windows.wf(),
            message matches IpcMessage::Scale { scale: WindowScale::Fixed(_), app_id: None } ==> old(
                self,
            ).windows.resizable(),
        ensures
            old(self).handles(
                *final(self),
                message,
                *patterns,
                size,
                clock,
                old(out)@,
                final(out)@,
                r,
            ),
            final(self).windows.wf(),
    {
        let ghost first = out@;
        match message {
            IpcMessage::Orientation { lock, unlock } => {
                if unlock {
                    out.push(Action::UnlockOrientation);
                } else {
                    out.push(Action::LockOrientation(lock));
                }
                None
            },
            IpcMessage::Focus { app_id } => {
                if let Ok(app) = AppIdMatcher::try_from(app_id, patterns) {
                    out.push(Action::FocusApp { app_id: app.base });
                }
                None
            },
            IpcMessage::ExecOrFocus { command, app_id_hint, card_id } => {
                self.exec_or_focus(command, app_id_hint, card_id, patterns, clock, out);
                None
            },
            IpcMessage::FocusRole { role } => {
                self.focus_role(&role, patterns, out);
                None
            },
            IpcMessage::ToggleWindow { app_id } => {
                self.toggle_window(app_id, patterns, clock, out);
                None
            },
            IpcMessage::SystemRole { role, app_id } => {
                if let Ok(app_id) = AppIdMatcher::try_from(app_id, patterns) {
                    self.windows.set_system_role(role, app_id);
                }
                None
            },
            IpcMessage::LogInput { state } => {
                self.input_log_enabled = state == CliToggle::On;
                None
            },
            IpcMessage::DumpFocusGraph => {
                out.push(Action::LogFocusGraph);
                None
            },
            IpcMessage::TraceScene { state } => {
                self.windows.set_trace_scene_enabled(state == CliToggle::On, out);
                None
            },
            IpcMessage::RoleAction { role, action, payload } => {
                let request = find_role_request(&role, &action, &payload);
                self.act_in_role(request, patterns, clock, out);
                None
            },
            IpcMessage::Exec { command } => {
                self.windows.note_launch(command.clone(), clock);
                out.push(Action::Spawn { command });
                None
            },
            IpcMessage::GetActiveWindow => {
                let (title, app_id) = match self.windows.active_window_info() {
                    Some(info) => info,
                    None => (String::new(), String::new()),
                };
                Some(IpcMessage::ActiveWindow { title, app_id })
            },
            IpcMessage::GetClients => {
                Some(IpcMessage::Clients { clients: self.windows.clients_info() })
            },
            IpcMessage::Scale { scale, app_id } => {
                self.change_scale(scale, app_id, patterns, size, clock, out);
                None
            },
            IpcMessage::BindGesture { app_id, start, end, program, arguments } => {
                if let Ok(app_id) = AppIdMatcher::try_from(app_id, patterns) {
                    let action = GestureBindingAction::Cmd((program, arguments));
                    self.user_gestures.push(GestureBinding { app_id, start, end, action });
                }
                None
            },
            IpcMessage::BindGestureKey { app_id, start, end, mods, key } => {
                if let Ok(app_id) = AppIdMatcher::try_from(app_id, patterns) {
                    // Ignore custom keysyms like virtual keyboard enable/disable.
                    if let Keysym::Xkb(key) = key {
                        let action = GestureBindingAction::Key((key, unwrap_mods(mods)));
                        self.user_gestures.push(GestureBinding { app_id, start, end, action });
                    }
                }
                None
            },
            IpcMessage::UnbindGesture { app_id, start, end } => {
                self.unbind_gesture(&app_id, start, end);
                None
            },
            IpcMessage::BindKey { app_id, mods, trigger, keys, program, arguments } => {
                if let Ok(app_id) = AppIdMatcher::try_from(app_id, patterns) {
                    self.key_bindings.push(
                        KeyBinding {
                            app_id,
                            mods: unwrap_mods(mods),
                            trigger,
                            keys,
                            program,
                            arguments,
                        },
                    );
                }
                None
            },
            IpcMessage::UnbindKey { app_id, mods, keys } => {
                self.unbind_key(&app_id, unwrap_mods(mods), &keys);
                None
            },
            IpcMessage::KeyboardConfig { model, layout, variant, options } => {
                out.push(
                    Action::SetKeyboard {
                        model: clone_or_empty(&model),
                        layout: clone_or_empty(&layout),
                        variant: clone_or_empty(&variant),
                        options,
                        rules: String::new(),
                    },
                );
                assert(out@.drop_last() == first);
                None
            },
            IpcMessage::Dpms { state } => match state {
                Some(state) => {
                    out.push(Action::SetDisplayStatus { on: state == CliToggle::On });
                    None
                },
                None => {
                    let state = if self.display_on {
                        CliToggle::On
                    } else {
                        CliToggle::Off
                    };
                    Some(IpcMessage::DpmsReply { state })
                },
            },
            IpcMessage::Cursor { state } => {
                self.draw_cursor = state == CliToggle::On;
                None
            },
            IpcMessage::DumpWindows => {
                out.push(Action::LogWindowTree);
                None
            },
            // Ignore IPC replies.
            IpcMessage::DpmsReply { .. } => None,
            IpcMessage::ActiveWindow { .. } => None,
            IpcMessage::Clients { .. } => None,
        }
    }
}

/// No message unlocks the session.
pub proof fn law_messages_keep_the_lock(
    before: Catacomb,
    after: Catacomb,
    message: IpcMessage,
    patterns: Patterns,
    size: Size,
    clock: Clock,
    start: Seq<Action>,
    end: Seq<Action>,
    reply: Option<IpcMessage>,
)
    requires
        before.handles(after, message, patterns, size, clock, start, end, reply),
        before.windows.lock_pending(),
    ensures
        after.windows.lock_pending(),
        after.windows.view == before.windows.view,
{
}

/// Only questions are answered.
pub proof fn law_only_questions_are_answered(
    before: Catacomb,
    after: Catacomb,
    message: IpcMessage,
    patterns: Patterns,
    size: Size,
    clock: Clock,
    start: Seq<Action>,
    end: Seq<Action>,
    reply: Option<IpcMessage>,
)
    requires
        before.handles(after, message, patterns, size, clock, start, end, reply),
    ensures
        reply is Some <==> (message is GetActiveWindow || message is GetClients || message
            == (IpcMessage::Dpms { state: None })),
        reply is Some ==> after == before && end == start,
        reply matches Some(answer) ==> answer is ActiveWindow || answer is Clients || answer
            is DpmsReply,
{
}

/// A key binding is gone once it was unbound, and every other one stays.
pub proof fn law_unbound_keys_are_gone(
    bindings: Seq<KeyBinding>,
    app_id: Seq<char>,
    mods: Modifiers,
    keys: Seq<Keysym>,
    b: KeyBinding,
)
    ensures
        collect_all(bindings, other_binding(app_id, mods, keys)).contains(b) <==> bindings.contains(
            b,
        ) && !(b.app_id.base@ == app_id && b.mods == mods && b.keys@ == keys),
{
    let f = other_binding(app_id, mods, keys);
    lemma_collected(bindings, f, bindings.len() as int);
    assert(collect_all(bindings, f).contains(b) <==> exists|i: int|
        0 <= i < bindings.len() && f(#[trigger] bindings[i]).contains(b));
    if bindings.contains(b) && !(b.app_id.base@ == app_id && b.mods == mods && b.keys@ == keys) {
        let i = choose|i: int| 0 <= i < bindings.len() && bindings[i] == b;
        assert(f(bindings[i])[0] == b);
        assert(f(bindings[i]).contains(b));
    }
}

/// A gesture is gone once it was unbound, and every other one stays.
pub proof fn law_unbound_gestures_are_gone(
    gestures: Seq<GestureBinding>,
    app_id: Seq<char>,
    start: GestureSector,
    end: GestureSector,
    g: GestureBinding,
)
    ensures
        collect_all(gestures, other_gesture(app_id, start, end)).contains(g) <==> gestures.contains(
            g,
        ) && !(g.app_id.base@ == app_id && g.start == start && g.end == end),
{
    let f = other_gesture(app_id, start, end);
    lemma_collected(gestures, f, gestures.len() as int);
    assert(collect_all(gestures, f).contains(g) <==> exists|i: int|
        0 <= i < gestures.len() && f(#[trigger] gestures[i]).contains(g));
    if gestures.contains(g) && !(g.app_id.base@ == app_id && g.start == start && g.end == end) {
        let i = choose|i: int| 0 <= i < gestures.len() && gestures[i] == g;
        assert(f(gestures[i])[0] == g);
        assert(f(gestures[i]).contains(g));
    }
}

/// Patterns which a message names, or which stand for a role in it.
pub open spec fn named_patterns(message: IpcMessage) -> Seq<Seq<char>> {
    match message {
        IpcMessage::Focus { app_id } => seq![app_id@],
        IpcMessage::ToggleWindow { app_id } => seq![app_id@],
        IpcMessage::SystemRole { role, app_id } => seq![app_id@],
        IpcMessage::BindGesture { app_id, .. } => seq![app_id@],
        IpcMessage::BindGestureKey { app_id, .. } => seq![app_id@],
        IpcMessage::BindKey { app_id, .. } => seq![app_id@],
        IpcMessage::Scale { scale, app_id: Some(app_id) } => seq![app_id@],
        IpcMessage::ExecOrFocus { command, app_id_hint: Some(app_id), card_id } => seq![app_id@],
        IpcMessage::FocusRole { .. } => seq!["^(JollyPad-Desktop|jolly-home|JollyPad-Launcher)$"@],
        IpcMessage::RoleAction { .. } => seq!["JollyPad-Overlay"@],
        _ => Seq::empty(),
    }
}

/// List the patterns which a message names, or which stand for a role in it.
pub fn message_patterns(message: &IpcMessage) -> (r: Vec<String>)
    ensures
        views(r@) == named_patterns(*message),
{
    let pattern: Option<String> = match message {
        IpcMessage::Focus { app_id } => Some(app_id.clone()),
        IpcMessage::ToggleWindow { app_id } => Some(app_id.clone()),
        IpcMessage::SystemRole { app_id, .. } => Some(app_id.clone()),
        IpcMessage::BindGesture { app_id, .. } => Some(app_id.clone()),
        IpcMessage::BindGestureKey { app_id, .. } => Some(app_id.clone()),
        IpcMessage::BindKey { app_id, .. } => Some(app_id.clone()),
        IpcMessage::Scale { app_id, .. } => clone_opt(app_id),
        IpcMessage::ExecOrFocus { app_id_hint, .. } => clone_opt(app_id_hint),
        IpcMessage::FocusRole { .. } => Some(
            "^(JollyPad-Desktop|jolly-home|JollyPad-Launcher)$".to_string(),
        ),
        IpcMessage::RoleAction { .. } => Some("JollyPad-Overlay".to_string()),
        _ => None,
    };
    let mut r: Vec<String> = Vec::new();
    if let Some(pattern) = pattern {
        r.push(pattern);
    }
    assert(views(r@) =~= named_patterns(*message));
    r
}

/// Handling a message depends on the verdicts of the listed patterns alone.
///
/// These are the patterns named by the message and those which are stored, tried
/// on the listed identifiers.
pub proof fn law_listed_patterns_suffice(
    before: Catacomb,
    after: Catacomb,
    message: IpcMessage,
    a: Patterns,
    b: Patterns,
    size: Size,
    clock: Clock,
    start: Seq<Action>,
    end: Seq<Action>,
    reply: Option<IpcMessage>,
)
    requires
        ({
            let bases = named_patterns(message) + before.windows.stored_patterns();
            &&& forall|base: Seq<char>| #[trigger]
                bases.contains(base) ==> a.compiles(base) == b.compiles(base)
            &&& before.windows.agree(bases, a, b)
        }),
    ensures
        before.handles(after, message, a, size, clock, start, end, reply) == before.handles(
            after,
            message,
            b,
            size,
            clock,
            start,
            end,
            reply,
        ),
{
    let named = named_patterns(message);
    let stored = before.windows.stored_patterns();
    let bases = named + stored;
    assert forall|base: Seq<char>| #[trigger] stored.contains(base) implies bases.contains(base) by {
        let k = choose|k: int| 0 <= k < stored.len() && stored[k] == base;
        assert(bases[named.len() + k] == base);
    }
    if named.len() > 0 {
        assert(bases[0] == named[0]);
        assert(bases.contains(named[0]));
        before.windows.law_listed_identifiers_suffice(named[0], bases, a, b, clock.wall_ms);
    }
    if let IpcMessage::ExecOrFocus { command, app_id_hint, card_id } = message {
        if let Some(key) = command_key(command@) {
            before.windows.lemma_stored(bases, key);
            if let Some(app) = before.windows.command_map.lookup(key) {
                before.windows.law_listed_identifiers_suffice(app@, bases, a, b, clock.wall_ms);
            }
        }
        if let Some(card) = card_id {
            before.windows.lemma_stored(bases, card@);
            if let Some(app) = before.windows.card_map.lookup(card@) {
                before.windows.law_listed_identifiers_suffice(app@, bases, a, b, clock.wall_ms);
            }
        }
        assert(before.focus_instead(command@, app_id_hint, card_id, a) == before.focus_instead(
            command@,
            app_id_hint,
            card_id,
            b,
        ));
    }
}

/// Reason to ignore a message.
#[derive(Clone, Copy, Debug, PartialEq, Eq, Structural)]
pub enum MessageProblem {
    /// The message names a pattern which does not compile.
    InvalidAppId,
    /// The output's scale has to be fixed.
    RelativeScale,
    /// Gestures must be bound to real keys.
    CustomKeysym,
}

/// Reason to warn about a message.
pub open spec fn problem_of(message: IpcMessage, patterns: Patterns) -> Option<MessageProblem> {
    match message {
        IpcMessage::FocusRole { .. } | IpcMessage::RoleAction { .. } => None,
        IpcMessage::Scale { scale, app_id: None } => if scale is Fixed {
            None
        } else {
            Some(MessageProblem::RelativeScale)
        },
        _ => if named_patterns(message).len() > 0 && !patterns.compiles(named_patterns(message)[0]) {
            Some(MessageProblem::InvalidAppId)
        } else if message matches IpcMessage::BindGestureKey { key: Keysym::Custom(_), .. } {
            Some(MessageProblem::CustomKeysym)
        } else {
            None
        },
    }
}

/// Find a reason to warn about a message.
pub fn find_problem(message: &IpcMessage, patterns: &Patterns) -> (r: Option<MessageProblem>)
    ensures
        r == problem_of(*message, *patterns),
{
    match message {
        IpcMessage::FocusRole { .. } | IpcMessage::RoleAction { .. } => {
            return None;
        },
        IpcMessage::Scale { scale, app_id: None } => {
            return match scale {
                WindowScale::Fixed(_) => None,
                _ => Some(MessageProblem::RelativeScale),
            };
        },
        _ => (),
    }
    let named = message_patterns(message);
    if named.len() > 0 {
        assert(views(named@)[0] == named@[0]@);
        if AppIdMatcher::try_from(named[0].clone(), patterns).is_err() {
            return Some(MessageProblem::InvalidAppId);
        }
    }
    match message {
        IpcMessage::BindGestureKey { key: Keysym::Custom(_), .. } => Some(
            MessageProblem::CustomKeysym,
        ),
        _ => None,
    }
}

/// A message with a problem changes nothing, unless it can launch an application.
pub proof fn law_invalid_messages_are_ignored(
    before: Catacomb,
    after: Catacomb,
    message: IpcMessage,
    patterns: Patterns,
    size: Size,
    clock: Clock,
    start: Seq<Action>,
    end: Seq<Action>,
    reply: Option<IpcMessage>,
)
    requires
        before.handles(after, message, patterns, size, clock, start, end, reply),
        problem_of(message, patterns) is Some,
        !(message is ExecOrFocus),
    ensures
        after == before,
        end == start,
        reply is None,
{
}

/// Text printed for a reply.
pub open spec fn reply_line(reply: IpcMessage) -> Option<Seq<char>> {
    match reply {
        IpcMessage::DpmsReply { state: CliToggle::On } => Some("on"@),
        IpcMessage::DpmsReply { state: CliToggle::Off } => Some("off"@),
        _ => None,
    }
}

/// Get the text printed for a reply.
pub fn reply_text(reply: &IpcMessage) -> (r: Option<String>)
    ensures
        opt_view(r) == reply_line(*reply),
{
    match reply {
        IpcMessage::DpmsReply { state } => match state {
            CliToggle::On => Some("on".to_string()),
            CliToggle::Off => Some("off".to_string()),
        },
        _ => None,
    }
}

} // verus!
