//! Who gets the keyboard, and what that does to processes.

use vstd::prelude::*;

use crate::action::{Action, Signal};
use crate::app_id::Patterns;
use crate::lists::lemma_first_index;
use crate::text::opt_view;
use crate::windows::focus::{role_of_layer, role_of_window};
use crate::windows::scene::{LayerWindow, SurfaceFocus, SurfaceHandle, Window};
use crate::windows::state::{ActiveView, PendingResume, PendingSuspend, Windows};

verus! {

/// The focused window gets the keyboard in every view but the lock screen.
///
/// It does so by its own surface and App ID, unless a layer has the focus. Its
/// surface is the activated one afterwards.
pub proof fn law_focused_window_gets_the_keyboard(
    s: Windows,
    patterns: Patterns,
    now: u64,
    key: u64,
    w: Window,
)
    requires
        !(s.view is Lock),
        s.layers.focus is None,
        s.layouts.focus == Some(key),
        s.layouts.window(key) == Some(w),
    ensures
        s.layouts.wl_surface(w.surface) matches Some(surface) ==> s.focus_target() == Some(
            SurfaceFocus { surface, app_id: w.app_id },
        ),
        s.layouts.wl_surface(w.surface) is None ==> s.focus_target() is None,
        s.with_focus(patterns, now).activated == Some(w.surface),
        s.with_focus(patterns, now).layouts.focus == Some(key),
        s.focusing(patterns).len() > 0,
        s.focusing(patterns)[0] == (Action::SetUrgent { window: w.key, urgent: false }),
{
}

/// A focused layer gets the keyboard in place of every window, which is not active then.
pub proof fn law_focused_layer_gets_the_keyboard(
    s: Windows,
    patterns: Patterns,
    now: u64,
    focus: SurfaceFocus,
)
    requires
        !(s.view is Lock),
        s.layers.focus == Some(focus),
    ensures
        s.focus_target() == Some(focus),
        s.with_focus(patterns, now).activated is None,
        s.with_focus(patterns, now).layouts == s.layouts,
        s.with_focus(patterns, now).layers == s.layers,
        forall|window: u64, urgent: bool|
            !#[trigger] s.focusing(patterns).contains(Action::SetUrgent { window, urgent }),
{
}

/// Only the lock surface gets the keyboard of a locked session, and no window is told anything.
pub proof fn law_lock_gets_the_keyboard(s: Windows, patterns: Patterns, now: u64)
    requires
        s.view is Lock,
    ensures
        s.view matches ActiveView::Lock(Some(lock)) ==> s.focus_target() == Some(
            SurfaceFocus { surface: lock.surface, app_id: lock.app_id },
        ),
        s.view == ActiveView::Lock(None) ==> s.focus_target() is None,
        s.with_focus(patterns, now) == s,
        s.focusing(patterns).len() == 0,
{
}

/// Without any focus nothing gets the keyboard and nothing is active.
pub proof fn law_nothing_is_active_without_focus(s: Windows, patterns: Patterns, now: u64)
    requires
        !(s.view is Lock),
        s.layers.focus is None,
        s.layouts.focus is None,
    ensures
        s.focus_target() is None,
        s.with_focus(patterns, now).activated is None,
        s.with_focus(patterns, now).layouts.focus is None,
        s.activated is None ==> s.with_focus(patterns, now) == s,
{
}

/// If the focused window is gone, the active layout's primary window takes its place.
pub proof fn law_primary_window_replaces_a_lost_focus(
    s: Windows,
    patterns: Patterns,
    now: u64,
    key: u64,
)
    requires
        !(s.view is Lock),
        s.layers.focus is None,
        s.layouts.focus == Some(key),
        s.layouts.window(key) is None,
    ensures
        s.layouts.pending_active.primary is None ==> s.focus_target() is None && s.with_focus(
            patterns,
            now,
        ).layouts.focus is None,
        s.layouts.pending_active.primary matches Some(other) ==> {
            &&& s.layouts.window(other) is None ==> s.focus_target() is None && s.with_focus(
                patterns,
                now,
            ).layouts.focus is None
            &&& s.layouts.window(other) matches Some(w) ==> {
                &&& s.with_focus(patterns, now).layouts.focus == Some(other)
                &&& s.with_focus(patterns, now).activated == Some(w.surface)
                &&& s.layouts.wl_surface(w.surface) matches Some(surface) ==> s.focus_target()
                    == Some(SurfaceFocus { surface, app_id: w.app_id })
            }
        },
{
}

/// What gets the keyboard from the layouts is what is activated.
pub proof fn law_keyboard_and_activation_agree(s: Windows, patterns: Patterns, now: u64)
    requires
        !(s.view is Lock),
    ensures
        s.layers.focus is None ==> (s.focus_target() matches Some(target) ==> (s.with_focus(
            patterns,
            now,
        ).activated matches Some(handle) && s.layouts.wl_surface(handle) == Some(target.surface))),
        s.layers.focus is Some ==> s.with_focus(patterns, now).activated is None,
        ({
            let t = s.with_focus(patterns, now);
            t == (Windows {
                layouts: t.layouts,
                activated: t.activated,
                active_role: t.active_role,
                pending_suspend: t.pending_suspend,
                pending_resume: t.pending_resume,
                ..s
            })
        }),
        s.with_focus(patterns, now).layouts.windows == s.layouts.windows,
        s.with_focus(patterns, now).layouts.layouts == s.layouts.layouts,
{
}

/// Nothing happens to processes while the focus stays where it is.
pub proof fn law_kept_focus_keeps_processes(s: Windows, patterns: Patterns, now: u64)
    requires
        !(s.view is Lock),
        s.activated matches Some(handle) ==> (s.focused_window() matches Some(w) && w.surface
            == handle && s.layouts.same_surface(handle, handle)),
        s.activated is None ==> s.focused_window() is None,
    ensures
        s.with_focus(patterns, now).pending_suspend == s.pending_suspend,
        s.with_focus(patterns, now).pending_resume == s.pending_resume,
        s.with_focus(patterns, now).active_role == s.active_role,
        s.focusing(patterns).len() <= 1,
{
}

/// The processes of a window which loses the focus are muted and paused at once, and stopped a
/// tenth of a second later.
///
/// This takes a process group of its own, and another window which gets the focus.
pub proof fn law_unfocused_processes_rest(
    s: Windows,
    patterns: Patterns,
    now: u64,
    handle: SurfaceHandle,
    old_window: Window,
    pgid: i32,
)
    requires
        !(s.view is Lock),
        now + 100_000_000 <= u64::MAX,
        s.activated == Some(handle),
        s.focused_window() matches Some(w) ==> w.surface != handle && w.process_group != Some(pgid),
        s.layouts.handle_window(handle) == Some(old_window),
        old_window.process_group == Some(pgid),
    ensures
        pgid > 0 ==> {
            &&& s.with_focus(patterns, now).pending_suspend == Some(
                PendingSuspend { pgid, time: (now + 100_000_000) as u64 },
            )
            &&& s.focusing(patterns).contains(
                Action::CorkAudio { app_id: old_window.app_id, cork: true },
            )
            &&& s.focusing(patterns).contains(
                Action::ControlMedia { app_id: old_window.app_id, pause: true },
            )
        },
        pgid <= 0 ==> forall|app_id: Option<String>|
            !#[trigger] s.focusing(patterns).contains(Action::CorkAudio { app_id, cork: true }),
        s.focusing(patterns).contains(Action::SetActivated { surface: handle, activated: false }),
{
    let all = s.focusing(patterns);
    let first: int = if s.focused_window() is Some {
        1
    } else {
        0
    };
    assert(all[first] == Action::SetActivated { surface: handle, activated: false });
    if pgid > 0 {
        assert(all[first + 1] == Action::CorkAudio { app_id: old_window.app_id, cork: true });
        assert(all[first + 2] == Action::ControlMedia { app_id: old_window.app_id, pause: true });
    }
}

/// A window which gets the focus from an ordinary window continues at once.
///
/// Coming from the navigation or the home screen it continues a tenth of a
/// second later, unless it is the home screen itself.
pub proof fn law_focused_processes_continue(
    s: Windows,
    patterns: Patterns,
    now: u64,
    w: Window,
    pgid: i32,
)
    requires
        !(s.view is Lock),
        now + 100_000_000 <= u64::MAX,
        s.focused_window() == Some(w),
        s.activated != Some(w.surface),
        w.process_group == Some(pgid),
        pgid > 0,
    ensures
        ({
            let t = s.with_focus(patterns, now);
            let system = opt_view(s.active_role) == Some("nav"@) || opt_view(s.active_role)
                == Some("home"@);
            let home = opt_view(t.active_role) == Some("home"@);
            &&& system && !home ==> t.pending_resume == Some(
                PendingResume { pgid, time: (now + 100_000_000) as u64, app_id: w.app_id },
            )
            &&& system && !home ==> !s.focusing(patterns).contains(
                Action::SendSignal { pgid, signal: Signal::Continue },
            )
            &&& (!system || home) && s.activated is None ==> {
                let all = s.focusing(patterns);
                let n = all.len() as int;
                &&& t.pending_resume is None
                &&& n >= 3
                &&& all[n - 3] == Action::SendSignal { pgid, signal: Signal::Continue }
                &&& all[n - 2] == Action::CorkAudio { app_id: w.app_id, cork: false }
                &&& all[n - 1] == Action::ControlMedia { app_id: w.app_id, pause: false }
            }
        }),
{
}

/// The activated layer counts as a system screen if its App ID fills the role of the navigation
/// or of the home screen.
pub proof fn law_system_layers_delay_resumes(
    s: Windows,
    patterns: Patterns,
    handle: SurfaceHandle,
    surface: u64,
    at: int,
)
    requires
        s.activated == Some(handle),
        s.layouts.wl_surface(handle) == Some(surface),
        0 <= at < s.layers.windows.len(),
        s.layers.windows[at].surface == surface,
        s.layers.windows[at].app_id is Some,
    ensures
        ({
            let id = s.layers.windows[at].app_id->0@;
            &&& (s.system_roles.lookup("nav"@) matches Some(base) && patterns.accepts(
                base@,
                Some(id),
            )) ==> s.resume_delayed(patterns)
            &&& (s.system_roles.lookup("home"@) matches Some(base) && patterns.accepts(
                base@,
                Some(id),
            )) ==> s.resume_delayed(patterns)
        }),
{
    let p = s.system_layer(patterns, surface);
    lemma_first_index(s.layers.windows@, p, 0);
    assert(p(s.layers.windows@[at]) ==> s.from_system_layer(patterns));
}

/// The role of the focus is the first one whose pattern accepts a name of the focused window.
///
/// Its App ID and its title are such names, if it has them.
pub proof fn law_role_of_the_focused_window(
    s: Windows,
    patterns: Patterns,
    now: u64,
    w: Window,
    at: int,
)
    requires
        !(s.view is Lock),
        !s.activation_kept(),
        s.focused_window() == Some(w),
        0 <= at < s.system_roles.entries.len(),
    ensures
        (forall|i: int|
            0 <= i < at ==> !(w.app_id is Some && patterns.accepts(
                (#[trigger] s.system_roles.entries[i]).value@,
                opt_view(w.app_id),
            )) && !(w.title is Some && patterns.accepts(
                s.system_roles.entries[i].value@,
                opt_view(w.title),
            ))) && ((w.app_id is Some && patterns.accepts(
            s.system_roles.entries[at].value@,
            opt_view(w.app_id),
        )) || (w.title is Some && patterns.accepts(
            s.system_roles.entries[at].value@,
            opt_view(w.title),
        ))) ==> s.with_focus(patterns, now).active_role == Some(s.system_roles.entries[at].key),
        s.with_focus(patterns, now).active_role is None ==> !(w.app_id is Some && patterns.accepts(
            s.system_roles.entries[at].value@,
            opt_view(w.app_id),
        )) && !(w.title is Some && patterns.accepts(
            s.system_roles.entries[at].value@,
            opt_view(w.title),
        )),
{
    let entries = s.system_roles.entries@;
    let p = role_of_window(patterns, w);
    lemma_first_index(entries, p, 0);
    assert forall|i: int| 0 <= i < entries.len() implies p(entries[i]) == ((w.app_id is Some
        && patterns.accepts((#[trigger] s.system_roles.entries[i]).value@, opt_view(w.app_id))) || (
    w.title is Some && patterns.accepts(s.system_roles.entries[i].value@, opt_view(w.title)))) by {}
}

/// The role of a focused layer is the first one whose pattern accepts its App ID or its title.
pub proof fn law_role_of_the_focused_layer(
    s: Windows,
    patterns: Patterns,
    now: u64,
    focus: SurfaceFocus,
    w: LayerWindow,
    at: int,
)
    requires
        !(s.view is Lock),
        s.activated is Some,
        s.layers.focus == Some(focus),
        s.layers.layer(focus.surface) == Some(w),
        0 <= at < s.system_roles.entries.len(),
    ensures
        (forall|i: int|
            0 <= i < at ==> !patterns.accepts(
                (#[trigger] s.system_roles.entries[i]).value@,
                opt_view(w.final_id()),
            ) && !(w.title is Some && patterns.accepts(
                s.system_roles.entries[i].value@,
                opt_view(w.title),
            ))) && (patterns.accepts(
            s.system_roles.entries[at].value@,
            opt_view(w.final_id()),
        ) || (w.title is Some && patterns.accepts(
            s.system_roles.entries[at].value@,
            opt_view(w.title),
        ))) ==> s.with_focus(patterns, now).active_role == Some(s.system_roles.entries[at].key),
        s.with_focus(patterns, now).active_role is None ==> !patterns.accepts(
            s.system_roles.entries[at].value@,
            opt_view(w.final_id()),
        ) && !(w.title is Some && patterns.accepts(
            s.system_roles.entries[at].value@,
            opt_view(w.title),
        )),
{
    let entries = s.system_roles.entries@;
    let p = role_of_layer(patterns, w);
    lemma_first_index(entries, p, 0);
    assert forall|i: int| 0 <= i < entries.len() implies p(entries[i]) == (patterns.accepts(
        (#[trigger] s.system_roles.entries[i]).value@,
        opt_view(w.final_id()),
    ) || (w.title is Some && patterns.accepts(
        s.system_roles.entries[i].value@,
        opt_view(w.title),
    ))) by {}
}

/// Coming from anything but the navigation or the home screen, processes continue at once.
///
/// A layer which was activated counts only if it has an App ID which fills one
/// of these roles.
pub proof fn law_ordinary_windows_resume_at_once(
    s: Windows,
    patterns: Patterns,
    handle: SurfaceHandle,
)
    requires
        opt_view(s.active_role) != Some("nav"@) && opt_view(s.active_role) != Some("home"@)
            || opt_view(s.focused_role(patterns)) == Some("home"@),
        s.activated == Some(handle),
    ensures
        s.layouts.wl_surface(handle) is None ==> !s.resume_delayed(patterns),
        s.layouts.wl_surface(handle) matches Some(surface) ==> (forall|i: int|
            0 <= i < s.layers.windows.len() ==> (#[trigger] s.layers.windows[i]).surface != surface
                || s.layers.windows[i].app_id is None) ==> !s.resume_delayed(patterns),
        s.system_roles.lookup("nav"@) is None && s.system_roles.lookup("home"@) is None
            ==> !s.resume_delayed(patterns),
{
    if let Some(surface) = s.layouts.wl_surface(handle) {
        let p = s.system_layer(patterns, surface);
        lemma_first_index(s.layers.windows@, p, 0);
        if s.from_system_layer(patterns) {
            let i = crate::lists::first_index(s.layers.windows@, p, 0)->0;
            assert(p(s.layers.windows@[i]));
            assert(s.layers.windows[i].surface == surface);
        }
    }
}

/// What waits to be stopped or resumed goes on waiting if the change of the focus is not about it.
pub proof fn law_other_processes_keep_waiting(s: Windows, patterns: Patterns, now: u64)
    requires
        !(s.view is Lock),
    ensures
        s.activated is None && s.focused_window() is None ==> s.with_focus(
            patterns,
            now,
        ).pending_suspend == s.pending_suspend,
        s.activated is None ==> (s.focused_window() matches Some(w) ==> (
        s.pending_suspend matches Some(pending) ==> w.process_group != Some(pending.pgid)
            ==> s.with_focus(patterns, now).pending_suspend == s.pending_suspend)),
        s.activated is None ==> (s.focused_window() matches Some(w) ==> s.pending_suspend is None
            ==> s.with_focus(patterns, now).pending_suspend is None),
        s.focused_window() is None ==> s.with_focus(patterns, now).pending_resume
            == s.pending_resume,
        s.activated is None ==> (s.focused_window() matches Some(w) ==> w.process_group is None
            ==> s.with_focus(patterns, now).pending_resume is None),
{
}

/// A chosen focus is that of the layouts and of the layers, each in its own place.
pub proof fn law_focus_can_be_chosen(
    s: Windows,
    layout: Option<u64>,
    layer: Option<u64>,
    app_id: Option<String>,
)
    ensures
        ({
            let t = s.with_chosen_focus(layout, layer, app_id);
            &&& t.layouts.focus == layout
            &&& layer is None ==> t.layers.focus is None
            &&& layer matches Some(surface) ==> t.layers.focus == Some(
                SurfaceFocus { surface, app_id },
            )
            &&& t.layouts.windows == s.layouts.windows
            &&& t.layouts.layouts == s.layouts.layouts
            &&& t.layers.windows == s.layers.windows
            &&& t.view == s.view
            &&& t.activated == s.activated
            &&& t.transaction == s.transaction
        }),
{
}

} // verus!
