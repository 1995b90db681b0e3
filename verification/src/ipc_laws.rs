//! What each IPC message does.

use vstd::prelude::*;

use crate::action::{Action, Key};
use crate::app_id::{AppIdMatcher, Patterns};
use crate::command::command_key;
use crate::geometry::Size;
use crate::ipc::{
    key_stroke, mods_or_none, problem_of, reply_line, Catacomb, CliToggle, GestureBinding,
    GestureBindingAction, GestureSector, IpcMessage, KeyBinding, KeyTrigger, Keysym, MessageProblem,
    Modifiers,
};
use crate::text::or_empty;
use crate::windows::scene::{Orientation, Window};
use crate::windows::state::{Clock, WindowScale, Windows};

verus! {

/// The orientation is unlocked if that is asked for, and locked otherwise.
pub proof fn law_orientation_messages(
    before: Catacomb,
    after: Catacomb,
    lock: Option<Orientation>,
    unlock: bool,
    patterns: Patterns,
    size: Size,
    clock: Clock,
    start: Seq<Action>,
    end: Seq<Action>,
    reply: Option<IpcMessage>,
)
    requires
        before.handles(
            after,
            IpcMessage::Orientation { lock, unlock },
            patterns,
            size,
            clock,
            start,
            end,
            reply,
        ),
    ensures
        after == before,
        reply is None,
        unlock ==> end == start + seq![Action::UnlockOrientation],
        !unlock ==> end == start + seq![Action::LockOrientation(lock)],
{
}

/// An application is focused by a valid pattern.
pub proof fn law_focus_messages(
    before: Catacomb,
    after: Catacomb,
    app_id: String,
    patterns: Patterns,
    size: Size,
    clock: Clock,
    start: Seq<Action>,
    end: Seq<Action>,
    reply: Option<IpcMessage>,
)
    requires
        before.handles(
            after,
            IpcMessage::Focus { app_id },
            patterns,
            size,
            clock,
            start,
            end,
            reply,
        ),
    ensures
        after == before,
        reply is None,
        patterns.compiles(app_id@) ==> end == start + seq![Action::FocusApp { app_id }],
        !patterns.compiles(app_id@) ==> end == start,
{
}

/// What is running is focused instead of being launched: by the pattern given, by the one learned for
/// the card, or by the one learned for the command, in this order.
pub proof fn law_running_apps_are_focused(
    before: Catacomb,
    after: Catacomb,
    command: String,
    hint: Option<String>,
    card: Option<String>,
    patterns: Patterns,
    size: Size,
    clock: Clock,
    start: Seq<Action>,
    end: Seq<Action>,
    reply: Option<IpcMessage>,
)
    requires
        before.handles(
            after,
            IpcMessage::ExecOrFocus { command, app_id_hint: hint, card_id: card },
            patterns,
            size,
            clock,
            start,
            end,
            reply,
        ),
    ensures
        reply is None,
        hint matches Some(app) ==> patterns.compiles(app@) && before.windows.app_place(
            app@,
            patterns,
            0,
        ) is Some ==> focused(before, after, app@, patterns, clock, start, end),
        !before.windows.mapped_found(hint, patterns) ==> (card matches Some(name) ==> (
        before.windows.card_map.lookup(name@) matches Some(app) ==> patterns.compiles(app@)
            && before.windows.app_place(app@, patterns, 0) is Some ==> focused(
            before,
            after,
            app@,
            patterns,
            clock,
            start,
            end,
        ))),
        !before.windows.mapped_found(hint, patterns) && !(card is Some
            && before.windows.mapped_found(
            before.windows.card_map.lookup(card->0@),
            patterns,
        )) ==> (command_key(command@) matches Some(key) ==> (before.windows.command_map.lookup(
            key,
        ) matches Some(app) ==> patterns.compiles(app@) && before.windows.app_place(
            app@,
            patterns,
            0,
        ) is Some ==> focused(before, after, app@, patterns, clock, start, end))),
{
}

/// Whether an application was focused in place of everything else.
pub open spec fn focused(
    before: Catacomb,
    after: Catacomb,
    app: Seq<char>,
    patterns: Patterns,
    clock: Clock,
    start: Seq<Action>,
    end: Seq<Action>,
) -> bool {
    &&& after.windows == before.windows.with_app_focused(app, patterns, clock.wall_ms)
    &&& after == (Catacomb { windows: after.windows, ..before })
    &&& end == start + before.windows.app_focusing(app, patterns, clock.wall_ms) + seq![
        Action::Unstall,
    ]
}

/// What is not running is launched, and remembered with its command, key and card.
pub proof fn law_other_apps_are_launched(
    before: Catacomb,
    after: Catacomb,
    command: String,
    hint: Option<String>,
    card: Option<String>,
    patterns: Patterns,
    size: Size,
    clock: Clock,
    start: Seq<Action>,
    end: Seq<Action>,
    reply: Option<IpcMessage>,
)
    requires
        before.handles(
            after,
            IpcMessage::ExecOrFocus { command, app_id_hint: hint, card_id: card },
            patterns,
            size,
            clock,
            start,
            end,
            reply,
        ),
        !before.windows.mapped_found(hint, patterns),
        card matches Some(name) ==> !before.windows.mapped_found(
            before.windows.card_map.lookup(name@),
            patterns,
        ),
        command_key(command@) matches Some(key) ==> !before.windows.mapped_found(
            before.windows.command_map.lookup(key),
            patterns,
        ),
    ensures
        reply is None,
        end == start + seq![Action::Spawn { command }],
        after.windows.pending_launch matches Some(ctx) && ctx.command == command && ctx.card_id
            == card && ctx.time == clock.mono_ns && ctx.pgid is None && ctx.pid is None,
        command_key(command@) matches Some(key) ==> (
        after.windows.pending_launch->0.command_key matches Some(noted) && noted@ == key),
        command_key(command@) is None ==> after.windows.pending_launch->0.command_key is None,
        after.windows.layouts == before.windows.layouts,
        after.windows.view == before.windows.view,
        after == (Catacomb { windows: after.windows, ..before }),
{
}

/// The home screen is focused by its role, or else by its well-known names. No other role is.
pub proof fn law_only_home_is_focused_by_role(
    before: Catacomb,
    after: Catacomb,
    role: String,
    patterns: Patterns,
    size: Size,
    clock: Clock,
    start: Seq<Action>,
    end: Seq<Action>,
    reply: Option<IpcMessage>,
)
    requires
        before.handles(
            after,
            IpcMessage::FocusRole { role },
            patterns,
            size,
            clock,
            start,
            end,
            reply,
        ),
    ensures
        after == before,
        reply is None,
        role@ != "home"@ ==> end == start,
        role@ == "home"@ ==> (before.windows.system_roles.lookup("home"@) matches Some(base) ==> end
            == start + seq![Action::FocusApp { app_id: base }]),
        role@ == "home"@ && before.windows.system_roles.lookup("home"@) is None
            && patterns.compiles("^(JollyPad-Desktop|jolly-home|JollyPad-Launcher)$"@) ==> {
            &&& end.len() == start.len() + 1
            &&& end.take(start.len() as int) == start
            &&& end[start.len() as int] matches Action::FocusApp { app_id } && app_id@
                == "^(JollyPad-Desktop|jolly-home|JollyPad-Launcher)$"@
        },
{
    if end.len() == start.len() + 1 {
        assert(end.take(start.len() as int) =~= end.drop_last());
    }
}

/// A toggled application is hidden or shown, and drawing resumes if there is any such application.
pub proof fn law_toggle_messages(
    before: Catacomb,
    after: Catacomb,
    app_id: String,
    patterns: Patterns,
    size: Size,
    clock: Clock,
    start: Seq<Action>,
    end: Seq<Action>,
    reply: Option<IpcMessage>,
)
    requires
        before.handles(
            after,
            IpcMessage::ToggleWindow { app_id },
            patterns,
            size,
            clock,
            start,
            end,
            reply,
        ),
    ensures
        reply is None,
        !patterns.compiles(app_id@) ==> after == before && end == start,
        patterns.compiles(app_id@) ==> {
            let found = before.windows.is_active(app_id@, patterns) || before.windows.app_place(
                app_id@,
                patterns,
                0,
            ) is Some;
            let done = before.windows.app_toggling(app_id@, patterns, clock.wall_ms);
            &&& after.windows == before.windows.with_app_toggled(app_id@, patterns, clock.wall_ms)
            &&& after == (Catacomb { windows: after.windows, ..before })
            &&& found ==> end == start + done + seq![Action::Unstall]
            &&& !found ==> end == start + done
        },
{
    let done = before.windows.app_toggling(app_id@, patterns, clock.wall_ms);
    assert(start + done + Seq::<Action>::empty() =~= start + done);
}

/// An application fills a role if its pattern is valid, in place of the one before it.
pub proof fn law_roles_are_filled(
    before: Catacomb,
    after: Catacomb,
    role: String,
    app_id: String,
    other: Seq<char>,
    patterns: Patterns,
    size: Size,
    clock: Clock,
    start: Seq<Action>,
    end: Seq<Action>,
    reply: Option<IpcMessage>,
)
    requires
        before.handles(
            after,
            IpcMessage::SystemRole { role, app_id },
            patterns,
            size,
            clock,
            start,
            end,
            reply,
        ),
    ensures
        reply is None,
        end == start,
        !patterns.compiles(app_id@) ==> after == before,
        patterns.compiles(app_id@) ==> {
            let old_roles = before.windows.system_roles@;
            let new_roles = after.windows.system_roles@;
            &&& new_roles.contains_pair(role@, app_id@)
            &&& other != role@ ==> new_roles.contains_key(other) == old_roles.contains_key(other)
            &&& other != role@ && old_roles.contains_key(other) ==> new_roles[other]
                == old_roles[other]
            &&& after.windows.view == before.windows.view
            &&& after.windows.layouts == before.windows.layouts
            &&& after == (Catacomb { windows: after.windows, ..before })
        },
{
}

/// Input is logged as long as that is switched on.
pub proof fn law_input_log_messages(
    before: Catacomb,
    after: Catacomb,
    state: CliToggle,
    patterns: Patterns,
    size: Size,
    clock: Clock,
    start: Seq<Action>,
    end: Seq<Action>,
    reply: Option<IpcMessage>,
)
    requires
        before.handles(
            after,
            IpcMessage::LogInput { state },
            patterns,
            size,
            clock,
            start,
            end,
            reply,
        ),
    ensures
        reply is None,
        end == start,
        after.input_log_enabled <==> state is On,
        after == (Catacomb { input_log_enabled: after.input_log_enabled, ..before }),
{
}

/// The cursor is drawn as long as it is switched on.
pub proof fn law_cursor_messages(
    before: Catacomb,
    after: Catacomb,
    state: CliToggle,
    patterns: Patterns,
    size: Size,
    clock: Clock,
    start: Seq<Action>,
    end: Seq<Action>,
    reply: Option<IpcMessage>,
)
    requires
        before.handles(
            after,
            IpcMessage::Cursor { state },
            patterns,
            size,
            clock,
            start,
            end,
            reply,
        ),
    ensures
        reply is None,
        end == start,
        after.draw_cursor <==> state is On,
        after == (Catacomb { draw_cursor: after.draw_cursor, ..before }),
{
}

/// Tracing the scene starts with the scene as it is.
pub proof fn law_trace_messages(
    before: Catacomb,
    after: Catacomb,
    state: CliToggle,
    patterns: Patterns,
    size: Size,
    clock: Clock,
    start: Seq<Action>,
    end: Seq<Action>,
    reply: Option<IpcMessage>,
)
    requires
        before.handles(
            after,
            IpcMessage::TraceScene { state },
            patterns,
            size,
            clock,
            start,
            end,
            reply,
        ),
    ensures
        reply is None,
        state is On ==> end == start + seq![Action::LogScene],
        state is Off ==> end == start,
        after.windows.trace_scene_enabled <==> state is On,
        after.windows == (Windows {
            trace_scene_enabled: after.windows.trace_scene_enabled,
            ..before.windows
        }),
        after == (Catacomb { windows: after.windows, ..before }),
{
}

/// The focus graph is written to the log.
pub proof fn law_focus_graph_messages(
    before: Catacomb,
    after: Catacomb,
    patterns: Patterns,
    size: Size,
    clock: Clock,
    start: Seq<Action>,
    end: Seq<Action>,
    reply: Option<IpcMessage>,
)
    requires
        before.handles(
            after,
            IpcMessage::DumpFocusGraph,
            patterns,
            size,
            clock,
            start,
            end,
            reply,
        ),
    ensures
        after == before,
        reply is None,
        end == start + seq![Action::LogFocusGraph],
{
}

/// The window tree is written to the log.
pub proof fn law_window_tree_messages(
    before: Catacomb,
    after: Catacomb,
    patterns: Patterns,
    size: Size,
    clock: Clock,
    start: Seq<Action>,
    end: Seq<Action>,
    reply: Option<IpcMessage>,
)
    requires
        before.handles(
            after,
            IpcMessage::DumpWindows,
            patterns,
            size,
            clock,
            start,
            end,
            reply,
        ),
    ensures
        after == before,
        reply is None,
        end == start + seq![Action::LogWindowTree],
{
}

/// A command is launched in any case.
pub proof fn law_exec_messages(
    before: Catacomb,
    after: Catacomb,
    command: String,
    patterns: Patterns,
    size: Size,
    clock: Clock,
    start: Seq<Action>,
    end: Seq<Action>,
    reply: Option<IpcMessage>,
)
    requires
        before.handles(
            after,
            IpcMessage::Exec { command },
            patterns,
            size,
            clock,
            start,
            end,
            reply,
        ),
    ensures
        reply is None,
        end == start + seq![Action::Spawn { command }],
        after.windows.last_launch matches Some(launch) && launch.command == command && launch.time
            == clock.mono_ns,
        after.windows.pending_launch matches Some(ctx) && ctx.command == command
            && ctx.command_key is None && ctx.card_id is None,
        after.windows.layouts == before.windows.layouts,
        after == (Catacomb { windows: after.windows, ..before }),
{
}

/// The active window is told by its title and its App ID, and by nothing without focus.
pub proof fn law_active_window_is_told(
    before: Catacomb,
    after: Catacomb,
    key: u64,
    w: Window,
    patterns: Patterns,
    size: Size,
    clock: Clock,
    start: Seq<Action>,
    end: Seq<Action>,
    reply: Option<IpcMessage>,
)
    requires
        before.handles(
            after,
            IpcMessage::GetActiveWindow,
            patterns,
            size,
            clock,
            start,
            end,
            reply,
        ),
    ensures
        after == before,
        end == start,
        reply matches Some(IpcMessage::ActiveWindow { title, app_id }) && (
        before.windows.layouts.focus == Some(key) && before.windows.layouts.window(key) == Some(w)
            ==> title@ == or_empty(w.title) && app_id@ == or_empty(w.final_id())) && (
        before.windows.layouts.focus is None ==> title@.len() == 0 && app_id@.len() == 0),
{
}

/// All windows are told in their order, with their names and processes.
pub proof fn law_clients_are_told(
    before: Catacomb,
    after: Catacomb,
    at: int,
    patterns: Patterns,
    size: Size,
    clock: Clock,
    start: Seq<Action>,
    end: Seq<Action>,
    reply: Option<IpcMessage>,
)
    requires
        before.handles(
            after,
            IpcMessage::GetClients,
            patterns,
            size,
            clock,
            start,
            end,
            reply,
        ),
    ensures
        after == before,
        end == start,
        reply matches Some(IpcMessage::Clients { clients }) && clients.len()
            == before.windows.layouts.windows.len() && (0 <= at < clients.len() ==> {
            let w = before.windows.layouts.windows[at];
            &&& clients[at].title@ == or_empty(w.title)
            &&& clients[at].app_id@ == or_empty(w.final_id())
            &&& clients[at].pid == w.process_group
        }),
{
    if let Some(IpcMessage::Clients { clients }) = reply {
        if 0 <= at < clients.len() {
            assert(Windows::describes(clients[at], before.windows.layouts.windows[at]));
        }
    }
}

/// A scale for a pattern is kept for its windows, and a scale without pattern is that of the output.
///
/// The output takes fixed scales only.
pub proof fn law_scale_messages(
    before: Catacomb,
    after: Catacomb,
    scale: WindowScale,
    app_id: Option<String>,
    patterns: Patterns,
    size: Size,
    clock: Clock,
    start: Seq<Action>,
    end: Seq<Action>,
    reply: Option<IpcMessage>,
)
    requires
        before.handles(
            after,
            IpcMessage::Scale { scale, app_id },
            patterns,
            size,
            clock,
            start,
            end,
            reply,
        ),
    ensures
        reply is None,
        app_id matches Some(base) ==> {
            &&& !patterns.compiles(base@) ==> after == before && end == start
            &&& patterns.compiles(base@) ==> {
                &&& after.windows.window_scales@ == before.windows.scales_with(
                    AppIdMatcher { base },
                    scale,
                )
                &&& after.windows.output == before.windows.output
            }
        },
        app_id is None && !(scale is Fixed) ==> after == before && end == start,
        app_id is None ==> (scale matches WindowScale::Fixed(fixed) ==> {
            &&& after.windows.output.canvas.scale == fixed
            &&& after.windows.output.canvas.size == size
            &&& after.windows.window_scales == before.windows.window_scales
            &&& end == start + before.windows.rescaling(fixed) + seq![Action::Unstall]
        }),
{
}

/// A gesture is bound to a program, after all others.
pub proof fn law_gestures_are_bound(
    before: Catacomb,
    after: Catacomb,
    app_id: String,
    from: GestureSector,
    to: GestureSector,
    program: String,
    arguments: Vec<String>,
    patterns: Patterns,
    size: Size,
    clock: Clock,
    start: Seq<Action>,
    end: Seq<Action>,
    reply: Option<IpcMessage>,
)
    requires
        before.handles(
            after,
            IpcMessage::BindGesture { app_id, start: from, end: to, program, arguments },
            patterns,
            size,
            clock,
            start,
            end,
            reply,
        ),
    ensures
        reply is None,
        end == start,
        !patterns.compiles(app_id@) ==> after == before,
        patterns.compiles(app_id@) ==> {
            let n = before.user_gestures.len() as int;
            &&& after.user_gestures.len() == n + 1
            &&& forall|i: int| 0 <= i < n ==> after.user_gestures[i] == before.user_gestures[i]
            &&& after.user_gestures[n].app_id.base == app_id
            &&& after.user_gestures[n].start == from
            &&& after.user_gestures[n].end == to
            &&& after.user_gestures[n].action == GestureBindingAction::Cmd((program, arguments))
            &&& after == (Catacomb { user_gestures: after.user_gestures, ..before })
        },
{
}

/// A gesture is bound to a real key with its modifiers, after all others.
pub proof fn law_gesture_keys_are_bound(
    before: Catacomb,
    after: Catacomb,
    app_id: String,
    from: GestureSector,
    to: GestureSector,
    mods: Option<Modifiers>,
    key: Keysym,
    patterns: Patterns,
    size: Size,
    clock: Clock,
    start: Seq<Action>,
    end: Seq<Action>,
    reply: Option<IpcMessage>,
)
    requires
        before.handles(
            after,
            IpcMessage::BindGestureKey { app_id, start: from, end: to, mods, key },
            patterns,
            size,
            clock,
            start,
            end,
            reply,
        ),
    ensures
        reply is None,
        end == start,
        !patterns.compiles(app_id@) || key is Custom ==> after == before,
        patterns.compiles(app_id@) ==> (key matches Keysym::Xkb(sym) ==> {
            let n = before.user_gestures.len() as int;
            &&& after.user_gestures.len() == n + 1
            &&& forall|i: int| 0 <= i < n ==> after.user_gestures[i] == before.user_gestures[i]
            &&& after.user_gestures[n].app_id.base == app_id
            &&& after.user_gestures[n].start == from
            &&& after.user_gestures[n].end == to
            &&& after.user_gestures[n].action matches GestureBindingAction::Key((bound, with))
                && bound == sym && (mods matches Some(m) ==> with == m) && (mods is None
                ==> with.bits == 0)
            &&& after == (Catacomb { user_gestures: after.user_gestures, ..before })
        }),
{
}

/// A key binding is kept with everything that was asked for, after all others.
pub proof fn law_keys_are_bound(
    before: Catacomb,
    after: Catacomb,
    app_id: String,
    mods: Option<Modifiers>,
    trigger: KeyTrigger,
    keys: Vec<Keysym>,
    program: String,
    arguments: Vec<String>,
    patterns: Patterns,
    size: Size,
    clock: Clock,
    start: Seq<Action>,
    end: Seq<Action>,
    reply: Option<IpcMessage>,
)
    requires
        before.handles(
            after,
            IpcMessage::BindKey { app_id, mods, trigger, keys, program, arguments },
            patterns,
            size,
            clock,
            start,
            end,
            reply,
        ),
    ensures
        reply is None,
        end == start,
        !patterns.compiles(app_id@) ==> after == before,
        patterns.compiles(app_id@) ==> {
            let n = before.key_bindings.len() as int;
            let bound = after.key_bindings[n];
            &&& after.key_bindings.len() == n + 1
            &&& forall|i: int| 0 <= i < n ==> after.key_bindings[i] == before.key_bindings[i]
            &&& bound.app_id.base == app_id
            &&& mods matches Some(m) ==> bound.mods == m
            &&& mods is None ==> bound.mods.bits == 0
            &&& bound.trigger == trigger
            &&& bound.keys == keys
            &&& bound.program == program
            &&& bound.arguments == arguments
            &&& after == (Catacomb { key_bindings: after.key_bindings, ..before })
        },
{
}

/// Unbinding keys needs no valid pattern, and keeps everything but the bindings.
pub proof fn law_unbinding_keys(
    before: Catacomb,
    after: Catacomb,
    app_id: String,
    mods: Option<Modifiers>,
    keys: Vec<Keysym>,
    b: KeyBinding,
    patterns: Patterns,
    size: Size,
    clock: Clock,
    start: Seq<Action>,
    end: Seq<Action>,
    reply: Option<IpcMessage>,
)
    requires
        before.handles(
            after,
            IpcMessage::UnbindKey { app_id, mods, keys },
            patterns,
            size,
            clock,
            start,
            end,
            reply,
        ),
    ensures
        reply is None,
        end == start,
        after.key_bindings@.contains(b) <==> before.key_bindings@.contains(b) && !(
        b.app_id.base@ == app_id@ && b.keys@ == keys@ && (mods matches Some(m) ==> b.mods == m) && (
        mods is None ==> b.mods.bits == 0)),
        after == (Catacomb { key_bindings: after.key_bindings, ..before }),
{
    crate::ipc::law_unbound_keys_are_gone(
        before.key_bindings@,
        app_id@,
        mods_or_none(mods),
        keys@,
        b,
    );
}

/// Unbinding gestures needs no valid pattern, and keeps everything but the gestures.
pub proof fn law_unbinding_gestures(
    before: Catacomb,
    after: Catacomb,
    app_id: String,
    from: GestureSector,
    to: GestureSector,
    g: GestureBinding,
    patterns: Patterns,
    size: Size,
    clock: Clock,
    start: Seq<Action>,
    end: Seq<Action>,
    reply: Option<IpcMessage>,
)
    requires
        before.handles(
            after,
            IpcMessage::UnbindGesture { app_id, start: from, end: to },
            patterns,
            size,
            clock,
            start,
            end,
            reply,
        ),
    ensures
        reply is None,
        end == start,
        after.user_gestures@.contains(g) <==> before.user_gestures@.contains(g) && !(
        g.app_id.base@ == app_id@ && g.start == from && g.end == to),
        after == (Catacomb { user_gestures: after.user_gestures, ..before }),
{
    crate::ipc::law_unbound_gestures_are_gone(before.user_gestures@, app_id@, from, to, g);
}

/// The keyboard is configured with each setting in its own place, and with no rules.
pub proof fn law_keyboard_messages(
    before: Catacomb,
    after: Catacomb,
    model: Option<String>,
    layout: Option<String>,
    variant: Option<String>,
    options: Option<String>,
    patterns: Patterns,
    size: Size,
    clock: Clock,
    start: Seq<Action>,
    end: Seq<Action>,
    reply: Option<IpcMessage>,
)
    requires
        before.handles(
            after,
            IpcMessage::KeyboardConfig { model, layout, variant, options },
            patterns,
            size,
            clock,
            start,
            end,
            reply,
        ),
    ensures
        after == before,
        reply is None,
        end.len() == start.len() + 1,
        end.take(start.len() as int) == start,
        end[start.len() as int] matches Action::SetKeyboard {
            model: m,
            layout: l,
            variant: v,
            options: o,
            rules,
        } && m@ == or_empty(model) && l@ == or_empty(layout) && v@ == or_empty(variant) && o
            == options && rules@.len() == 0,
{
    assert(end.take(start.len() as int) =~= end.drop_last());
}

/// The display is switched, or its state is told if none is asked for.
pub proof fn law_display_messages(
    before: Catacomb,
    after: Catacomb,
    state: Option<CliToggle>,
    patterns: Patterns,
    size: Size,
    clock: Clock,
    start: Seq<Action>,
    end: Seq<Action>,
    reply: Option<IpcMessage>,
)
    requires
        before.handles(
            after,
            IpcMessage::Dpms { state },
            patterns,
            size,
            clock,
            start,
            end,
            reply,
        ),
    ensures
        after == before,
        state == Some(CliToggle::On) ==> end == start + seq![Action::SetDisplayStatus { on: true }]
            && reply is None,
        state == Some(CliToggle::Off) ==> end == start + seq![
            Action::SetDisplayStatus { on: false },
        ] && reply is None,
        state is None && before.display_on ==> end == start && reply == Some(
            IpcMessage::DpmsReply { state: CliToggle::On },
        ),
        state is None && !before.display_on ==> end == start && reply == Some(
            IpcMessage::DpmsReply { state: CliToggle::Off },
        ),
{
}

/// The overlay is toggled from the navigation and from itself, and left from itself.
///
/// The home screen is focused by its role, and keys are pressed on it.
pub proof fn law_role_actions(
    before: Catacomb,
    after: Catacomb,
    role: String,
    action: String,
    payload: Option<String>,
    patterns: Patterns,
    size: Size,
    clock: Clock,
    start: Seq<Action>,
    end: Seq<Action>,
    reply: Option<IpcMessage>,
)
    requires
        before.handles(
            after,
            IpcMessage::RoleAction { role, action, payload },
            patterns,
            size,
            clock,
            start,
            end,
            reply,
        ),
    ensures
        reply is None,
        (role@ == "nav"@ || role@ == "overlay"@) && action@ == "toggle"@ ==> before.toggles(
            after,
            "JollyPad-Overlay"@,
            patterns,
            clock,
            start,
            end,
        ),
        role@ == "overlay"@ && action@ == "back"@ ==> before.toggles(
            after,
            "JollyPad-Overlay"@,
            patterns,
            clock,
            start,
            end,
        ),
        role@ == "home"@ && (action@ == "focus"@ || action@ == "back"@) ==> after == before && (
        before.windows.system_roles.lookup("home"@) matches Some(base) ==> end == start + seq![
            Action::FocusApp { app_id: base },
        ]) && (before.windows.system_roles.lookup("home"@) is None ==> end == start),
        role@ == "home"@ && action@ == "select"@ ==> after == before && end == start + seq![
            Action::SimulateKey { key: Key::Return, pressed: true },
            Action::SimulateKey { key: Key::Return, pressed: false },
        ],
        role@ == "home"@ && action@ == "navigate"@ ==> after == before,
        role@ == "home"@ && action@ == "navigate"@ && payload is Some && payload->0@ == "up"@ ==> end
            == start + key_stroke(Key::Up),
        role@ == "home"@ && action@ == "navigate"@ && payload is Some && payload->0@ == "down"@
            ==> end == start + key_stroke(Key::Down),
        role@ == "home"@ && action@ == "navigate"@ && payload is Some && payload->0@ == "left"@
            ==> end == start + key_stroke(Key::Left),
        role@ == "home"@ && action@ == "navigate"@ && payload is Some && payload->0@ == "right"@
            ==> end == start + key_stroke(Key::Right),
        role@ == "home"@ && action@ == "navigate"@ && payload is None ==> end == start,
        role@ != "home"@ && role@ != "nav"@ && role@ != "overlay"@ ==> after == before && end
            == start,
{
    reveal_strlit("nav");
    reveal_strlit("home");
    reveal_strlit("overlay");
    reveal_strlit("toggle");
    reveal_strlit("back");
    reveal_strlit("focus");
    reveal_strlit("select");
    reveal_strlit("navigate");
    reveal_strlit("up");
    reveal_strlit("down");
    reveal_strlit("left");
    reveal_strlit("right");
    assert("home"@[0] != "nav"@[0]);
    assert("home"@[0] != "overlay"@[0]);
    assert("toggle"@[0] != "back"@[0]);
    assert("select"@[0] != "focus"@[0]);
    assert("select"@[0] != "back"@[0]);
    assert("navigate"@[0] != "focus"@[0]);
    assert("navigate"@[0] != "back"@[0]);
    assert("navigate"@[0] != "select"@[0]);
    assert("up"@[0] != "down"@[0]);
    assert("up"@[0] != "left"@[0]);
    assert("up"@[0] != "right"@[0]);
    assert("down"@[0] != "left"@[0]);
    assert("down"@[0] != "right"@[0]);
    assert("left"@[0] != "right"@[0]);
}

/// Replies which arrive as messages are ignored.
pub proof fn law_replies_are_ignored(
    before: Catacomb,
    after: Catacomb,
    message: IpcMessage,
    patterns: Patterns,
    size: Size,
    clock: Clock,
    start: Seq<Action>,
    end: Seq<Action>,
    reply: Option<IpcMessage>,
)
    requires
        before.handles(after, message, patterns, size, clock, start, end, reply),
        message is DpmsReply || message is ActiveWindow || message is Clients,
    ensures
        after == before,
        end == start,
        reply is None,
{
}

/// A key is pressed and then released.
pub proof fn law_keys_are_released(key: Key)
    ensures
        key_stroke(key) == seq![
            Action::SimulateKey { key, pressed: true },
            Action::SimulateKey { key, pressed: false },
        ],
{
}

/// Messages are warned about if they name an invalid pattern, a relative scale for the output or a
/// gesture for no real key.
pub proof fn law_problems_of_messages(message: IpcMessage, patterns: Patterns)
    ensures
        message matches IpcMessage::Focus { app_id } ==> (problem_of(message, patterns) == Some(
            MessageProblem::InvalidAppId,
        ) <==> !patterns.compiles(app_id@)),
        message matches IpcMessage::ToggleWindow { app_id } ==> (problem_of(message, patterns)
            == Some(MessageProblem::InvalidAppId) <==> !patterns.compiles(app_id@)),
        message matches IpcMessage::SystemRole { role, app_id } ==> (problem_of(message, patterns)
            == Some(MessageProblem::InvalidAppId) <==> !patterns.compiles(app_id@)),
        message matches IpcMessage::BindGesture { app_id, .. } ==> (problem_of(message, patterns)
            == Some(MessageProblem::InvalidAppId) <==> !patterns.compiles(app_id@)),
        message matches IpcMessage::BindKey { app_id, .. } ==> (problem_of(message, patterns)
            == Some(MessageProblem::InvalidAppId) <==> !patterns.compiles(app_id@)),
        message matches IpcMessage::BindGestureKey { app_id, key, .. } ==> {
            &&& !patterns.compiles(app_id@) <==> problem_of(message, patterns) == Some(
                MessageProblem::InvalidAppId,
            )
            &&& patterns.compiles(app_id@) && key is Custom <==> problem_of(message, patterns)
                == Some(MessageProblem::CustomKeysym)
        },
        message matches IpcMessage::Scale { scale, app_id } ==> {
            &&& app_id is None && !(scale is Fixed) <==> problem_of(message, patterns) == Some(
                MessageProblem::RelativeScale,
            )
            &&& (app_id is Some && !patterns.compiles(app_id->0@)) <==> problem_of(
                message,
                patterns,
            ) == Some(MessageProblem::InvalidAppId)
        },
        message is FocusRole || message is RoleAction || message is UnbindKey
            || message is UnbindGesture || message is Exec || message is Orientation
            || message is Dpms || message is Cursor ==> problem_of(message, patterns) is None,
{
}

/// The state of the display is printed as it is, and nothing else is printed for a reply.
pub proof fn law_printed_replies(reply: IpcMessage)
    ensures
        reply == (IpcMessage::DpmsReply { state: CliToggle::On }) ==> reply_line(reply) == Some(
            "on"@,
        ),
        reply == (IpcMessage::DpmsReply { state: CliToggle::Off }) ==> reply_line(reply) == Some(
            "off"@,
        ),
        !(reply is DpmsReply) ==> reply_line(reply) is None,
{
}

} // verus!
