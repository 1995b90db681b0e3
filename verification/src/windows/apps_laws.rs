//! Which applications are found, focused, hidden and closed.

use vstd::prelude::*;

use crate::action::Action;
use crate::app_id::Patterns;
use crate::lists::{collect_all, lemma_collected};
use crate::text::or_empty;
use crate::windows::apps::{closing, closing_x11, default_home, is_overlay, names_any, names_window};
use crate::windows::scene::{ClientInfo, LayoutPosition, SurfaceHandle, Window};
use crate::windows::scene_laws::law_layouts_are_found_by_id;
use crate::windows::state::{ActiveView, Windows};

verus! {

/// A pattern names a window by its announced App ID, by the stored one without any, or by its
/// title.
pub proof fn law_names_of_a_window(app: Seq<char>, patterns: Patterns, w: Window)
    ensures
        w.xdg_app_id matches Some(id) ==> (names_window(app, patterns, w) <==> patterns.accepts(
            app,
            Some(id@),
        ) || (w.title is Some && patterns.accepts(app, Some(w.title->0@)))),
        w.xdg_app_id is None ==> (w.app_id matches Some(id) ==> (names_window(app, patterns, w)
            <==> patterns.accepts(app, Some(id@)) || (w.title is Some && patterns.accepts(
            app,
            Some(w.title->0@),
        )))),
        w.xdg_app_id is None && w.app_id is None ==> (names_window(app, patterns, w)
            <==> patterns.accepts(app, None) || (w.title is Some && patterns.accepts(
            app,
            Some(w.title->0@),
        ))),
{
}

/// Any of a window's names is enough to close it, or to be the home screen.
///
/// A missing name counts as the empty one.
pub proof fn law_any_name_of_a_window(app: Seq<char>, patterns: Patterns, w: Window)
    ensures
        w.title matches Some(t) ==> patterns.accepts(app, Some(t@)) ==> names_any(app, patterns, w),
        w.app_id matches Some(t) ==> patterns.accepts(app, Some(t@)) ==> names_any(app, patterns, w),
        w.xdg_app_id matches Some(t) ==> patterns.accepts(app, Some(t@)) ==> names_any(
            app,
            patterns,
            w,
        ),
        w.title is None || w.app_id is None || w.xdg_app_id is None ==> patterns.accepts(
            app,
            Some(Seq::empty()),
        ) ==> names_any(app, patterns, w),
        names_any(app, patterns, w) ==> {
            ||| patterns.accepts(app, Some(Seq::empty()))
            ||| w.title is Some && patterns.accepts(app, Some(w.title->0@))
            ||| w.app_id is Some && patterns.accepts(app, Some(w.app_id->0@))
            ||| w.xdg_app_id is Some && patterns.accepts(app, Some(w.xdg_app_id->0@))
        },
{
    assert(or_empty(None) =~= Seq::empty());
}

/// The overlay and the home screen have well-known names.
pub proof fn law_well_known_windows(w: Window)
    ensures
        is_overlay(w) <==> w.title is Some && w.title->0@ == "JollyPad-Overlay"@,
        default_home(w) <==> {
            ||| w.title is Some && w.title->0@ == "JollyPad-Desktop"@
            ||| w.xdg_app_id is Some && w.xdg_app_id->0@ == "jolly-home"@
            ||| w.app_id is Some && w.app_id->0@ == "jolly-home"@
        },
{
    reveal_strlit("JollyPad-Overlay");
    reveal_strlit("JollyPad-Desktop");
    reveal_strlit("jolly-home");
    assert(or_empty(None).len() == 0);
}

/// The active application is known by the title and the App ID of the focused window.
pub proof fn law_active_window_has_its_names(s: Windows, key: u64, w: Window)
    requires
        s.layouts.window(key) == Some(w),
    ensures
        s.layouts.focus == Some(key) ==> s.focused_names() == Some(
            (or_empty(w.title), or_empty(w.final_id())),
        ),
        s.layouts.focus is None ==> s.focused_names() is None,
{
}

/// Clients are described by what their windows are called and by their processes.
pub proof fn law_clients_are_described(info: ClientInfo, w: Window)
    ensures
        Windows::describes(info, w) ==> info.pid == w.process_group,
        Windows::describes(info, w) ==> (w.title matches Some(t) ==> info.title@ == t@),
        Windows::describes(info, w) ==> (w.title is None ==> info.title@.len() == 0),
        Windows::describes(info, w) ==> (w.xdg_app_id matches Some(t) ==> info.app_id@ == t@),
        Windows::describes(info, w) ==> w.xdg_app_id is None ==> (w.app_id matches Some(t)
            ==> info.app_id@ == t@),
{
}

/// The first place from a layout on is found, and nothing before it.
proof fn lemma_app_place(s: Windows, app: Seq<char>, patterns: Patterns, from: int)
    requires
        0 <= from,
    ensures
        match s.app_place(app, patterns, from) {
            Some(place) => {
                &&& from <= place.index < s.layouts.layouts.len()
                &&& s.key_named(app, patterns, s.layouts.key_at(place))
                &&& place.secondary ==> !s.key_named(
                    app,
                    patterns,
                    s.layouts.layouts[place.index as int].primary,
                )
                &&& forall|i: int|
                    from <= i < place.index ==> !s.key_named(
                        app,
                        patterns,
                        (#[trigger] s.layouts.layouts[i]).primary,
                    ) && !s.key_named(app, patterns, s.layouts.layouts[i].secondary)
            },
            None => forall|i: int|
                from <= i < s.layouts.layouts.len() ==> !s.key_named(
                    app,
                    patterns,
                    (#[trigger] s.layouts.layouts[i]).primary,
                ) && !s.key_named(app, patterns, s.layouts.layouts[i].secondary),
        },
    decreases s.layouts.layouts.len() - from,
{
    if from < s.layouts.layouts.len() {
        lemma_app_place(s, app, patterns, from + 1);
    }
}

/// The first window with a matching name is focused, with primary windows first.
///
/// Both windows of a layout are looked at, and no other window is taken.
pub proof fn law_first_matching_window_is_found(
    s: Windows,
    app: Seq<char>,
    patterns: Patterns,
    at: usize,
)
    requires
        at < s.layouts.layouts.len(),
    ensures
        ({
            let primary = s.layouts.resolved(s.layouts.layouts[at as int].primary) matches Some(w)
                && names_window(app, patterns, w);
            let secondary = s.layouts.resolved(s.layouts.layouts[at as int].secondary) matches Some(
                w,
            ) && names_window(app, patterns, w);
            let before = forall|i: int|
                0 <= i < at ==> !s.key_named(
                    app,
                    patterns,
                    (#[trigger] s.layouts.layouts[i]).primary,
                ) && !s.key_named(app, patterns, s.layouts.layouts[i].secondary);
            &&& before && primary ==> s.app_place(app, patterns, 0) == Some(
                LayoutPosition { index: at, secondary: false },
            )
            &&& before && !primary && secondary ==> s.app_place(app, patterns, 0) == Some(
                LayoutPosition { index: at, secondary: true },
            )
            &&& s.app_place(app, patterns, 0) is None ==> !primary && !secondary
        }),
        s.app_place(app, patterns, 0) matches Some(place) ==> (s.layouts.resolved(
            s.layouts.key_at(place),
        ) matches Some(w) && names_window(app, patterns, w)),
{
    lemma_app_place(s, app, patterns, 0);
}

/// A focused application becomes active in place of everything else.
///
/// The overlay is put above the active layout instead, leaving fullscreen. No
/// layer keeps the focus.
pub proof fn law_focused_apps_become_active(
    s: Windows,
    app: Seq<char>,
    patterns: Patterns,
    now: u64,
    place: LayoutPosition,
)
    requires
        s.app_place(app, patterns, 0) == Some(place),
        place.index < s.layouts.layouts.len(),
    ensures
        ({
            let t = s.with_app_focused(app, patterns, now);
            let all = s.app_focusing(app, patterns, now);
            let overlay = s.layouts.resolved(
                s.layouts.layouts[place.index as int].primary,
            ) matches Some(w) && is_overlay(w);
            &&& t.layers.focus is None
            &&& t.layouts == s.layouts
            &&& t.view == s.view
            &&& !overlay ==> all == seq![
                Action::SetActive { position: Some(place), clear_parents: true },
            ] && t.transaction == s.transaction && t.timer == s.timer
            &&& overlay ==> {
                &&& all.len() >= 2
                &&& all[0] == Action::PushActiveToParent
                &&& all[1] == Action::SetActive { position: Some(place), clear_parents: false }
                &&& all.skip(2) == t.visible_resize()
            }
            &&& overlay && !(s.view is Fullscreen) ==> t.transaction == s.transaction
            &&& overlay && s.view is Fullscreen && !s.lock_pending() ==> t.pending()
                == ActiveView::Workspace
        }),
{
    let t = s.with_app_focused(app, patterns, now);
    let all = s.app_focusing(app, patterns, now);
    if s.overlay_at(place) {
        assert(all.skip(2) =~= t.visible_resize());
    }
}

/// Nothing happens if there is no window with a matching name.
pub proof fn law_missing_apps_change_nothing(
    s: Windows,
    app: Seq<char>,
    patterns: Patterns,
    now: u64,
)
    requires
        s.app_place(app, patterns, 0) is None,
    ensures
        s.with_app_focused(app, patterns, now) == s,
        s.app_focusing(app, patterns, now).len() == 0,
{
}

/// A learned name is used like the pattern it stands for, if that pattern is valid.
pub proof fn law_learned_names_are_patterns(
    s: Windows,
    mapped: Option<String>,
    patterns: Patterns,
    now: u64,
)
    ensures
        mapped is None ==> !s.mapped_found(mapped, patterns) && s.with_mapped_focused(
            mapped,
            patterns,
            now,
        ) == s && s.mapped_focusing(mapped, patterns, now).len() == 0,
        mapped matches Some(base) ==> {
            &&& !patterns.compiles(base@) ==> !s.mapped_found(mapped, patterns)
                && s.with_mapped_focused(mapped, patterns, now) == s && s.mapped_focusing(
                mapped,
                patterns,
                now,
            ).len() == 0
            &&& patterns.compiles(base@) ==> {
                &&& s.mapped_found(mapped, patterns) == (s.app_place(base@, patterns, 0) is Some)
                &&& s.with_mapped_focused(mapped, patterns, now) == s.with_app_focused(
                    base@,
                    patterns,
                    now,
                )
                &&& s.mapped_focusing(mapped, patterns, now) == s.app_focusing(base@, patterns, now)
            }
        },
{
}

/// The layout to return to is the one remembered last, if it still exists.
pub proof fn law_last_parent_is_returned_to(s: Windows, at: int)
    requires
        0 <= at < s.layouts.layouts.len(),
    ensures
        s.layouts.parent_layouts.len() == 0 ==> s.parent_index() is None,
        s.layouts.parent_layouts.len() > 0 ==> {
            let last = s.layouts.parent_layouts[s.layouts.parent_layouts.len() - 1];
            &&& s.layouts.layouts[at].id == last && (forall|i: int|
                0 <= i < at ==> (#[trigger] s.layouts.layouts[i]).id != last) ==> s.parent_index()
                == Some(at)
            &&& s.parent_index() is None ==> s.layouts.layouts[at].id != last
        },
{
    if s.layouts.parent_layouts.len() > 0 {
        law_layouts_are_found_by_id(s.layouts, s.layouts.parent_layouts@.last(), at);
    }
}

/// The first home screen from a layout on is found, and nothing before it.
proof fn lemma_home_index(s: Windows, patterns: Patterns, fallback: bool, from: int)
    requires
        0 <= from,
    ensures
        match s.home_index(patterns, fallback, from) {
            Some(at) => {
                &&& from <= at < s.layouts.layouts.len()
                &&& s.is_home(patterns, fallback, s.layouts.layouts[at].primary)
                &&& forall|i: int|
                    from <= i < at ==> !s.is_home(
                        patterns,
                        fallback,
                        (#[trigger] s.layouts.layouts[i]).primary,
                    )
            },
            None => forall|i: int|
                from <= i < s.layouts.layouts.len() ==> !s.is_home(
                    patterns,
                    fallback,
                    (#[trigger] s.layouts.layouts[i]).primary,
                ),
        },
    decreases s.layouts.layouts.len() - from,
{
    if from < s.layouts.layouts.len() {
        lemma_home_index(s, patterns, fallback, from + 1);
    }
}

/// The home screen is the first primary window which fills that role.
///
/// If no application was given the role, well-known names are used after a
/// window was lost, but not when one is hidden.
pub proof fn law_first_home_screen_is_found(
    s: Windows,
    patterns: Patterns,
    fallback: bool,
    at: int,
    w: Window,
)
    requires
        0 <= at < s.layouts.layouts.len(),
        s.layouts.resolved(s.layouts.layouts[at].primary) == Some(w),
        forall|i: int|
            0 <= i < at ==> !s.is_home(
                patterns,
                fallback,
                (#[trigger] s.layouts.layouts[i]).primary,
            ),
    ensures
        s.system_roles.lookup("home"@) matches Some(base) ==> (s.home_index(patterns, fallback, 0)
            == Some(at) <==> names_any(base@, patterns, w)),
        s.system_roles.lookup("home"@) is None ==> (s.home_index(patterns, fallback, 0) == Some(at)
            <==> fallback && default_home(w)),
{
    lemma_home_index(s, patterns, fallback, 0);
}

/// A window which is lost makes room for the home screen, or else for the first layout.
pub proof fn law_lost_windows_lead_home(s: Windows, patterns: Patterns)
    ensures
        s.home_index(patterns, true, 0) matches Some(at) ==> 0 <= at < s.layouts.layouts.len()
            && s.home_place(patterns) == Some(
            LayoutPosition { index: at as usize, secondary: false },
        ),
        s.home_index(patterns, true, 0) is None && s.layouts.layouts.len() > 0 ==> s.home_place(
            patterns,
        ) == Some(LayoutPosition { index: 0, secondary: false }),
        s.layouts.layouts.len() == 0 ==> s.home_place(patterns) is None,
{
    lemma_home_index(s, patterns, true, 0);
}

/// A hidden application makes room for the layout below it, for the home screen or for the first
/// layout, in this order.
///
/// Nothing is left if it is the only one.
pub proof fn law_hidden_apps_make_room(s: Windows, patterns: Patterns)
    ensures
        s.parent_index() matches Some(at) ==> s.hiding_place(patterns) == Some(
            LayoutPosition { index: at as usize, secondary: false },
        ),
        s.parent_index() is None ==> (s.home_index(patterns, false, 0) matches Some(at)
            ==> s.hiding_place(patterns) == Some(
            LayoutPosition { index: at as usize, secondary: false },
        )),
        s.parent_index() is None && s.home_index(patterns, false, 0) is None
            && s.layouts.layouts.len() > 1 ==> s.hiding_place(patterns) == Some(
            LayoutPosition { index: 0, secondary: false },
        ),
        s.parent_index() is None && s.home_index(patterns, false, 0) is None
            && s.layouts.layouts.len() <= 1 ==> s.hiding_place(patterns) is None,
{
}

/// An application is active if its pattern accepts the focused window's App ID or title.
///
/// Toggling an active application hides it, and any other one is focused. If
/// it was in fullscreen, the workspace is shown again.
pub proof fn law_active_apps_are_hidden(
    s: Windows,
    app: Seq<char>,
    patterns: Patterns,
    now: u64,
    w: Window,
)
    requires
        s.layouts.resolved(s.layouts.focus) == Some(w),
    ensures
        s.is_active(app, patterns) <==> patterns.accepts(app, Some(or_empty(w.final_id())))
            || patterns.accepts(app, Some(or_empty(w.title))),
        !s.is_active(app, patterns) ==> s.with_app_toggled(app, patterns, now)
            == s.with_app_focused(app, patterns, now) && s.app_toggling(app, patterns, now)
            == s.app_focusing(app, patterns, now),
        s.is_active(app, patterns) ==> {
            let all = s.app_toggling(app, patterns, now);
            let full = s.view matches ActiveView::Fullscreen(key) && (s.layouts.window(
                key,
            ) matches Some(shown) && names_window(app, patterns, shown));
            &&& all.len() > 0
            &&& all.last() == Action::SetActive {
                position: s.hiding_place(patterns),
                clear_parents: true,
            }
            &&& !full ==> all.len() == 1 && s.with_app_toggled(app, patterns, now) == s
            &&& full && !s.lock_pending() ==> s.with_app_toggled(app, patterns, now).pending()
                == ActiveView::Workspace
            &&& full ==> all.drop_last() == s.with_app_toggled(app, patterns, now).visible_resize()
        },
{
    let all = s.app_toggling(app, patterns, now);
    if s.is_active(app, patterns) {
        assert(all.drop_last() =~= (if s.fullscreen_named(app, patterns) {
            s.with_app_toggled(app, patterns, now).visible_resize()
        } else {
            Seq::empty()
        }));
    }
}

/// Without focus, no application is active.
pub proof fn law_nothing_is_hidden_without_focus(s: Windows, app: Seq<char>, patterns: Patterns)
    requires
        s.layouts.resolved(s.layouts.focus) is None,
    ensures
        !s.is_active(app, patterns),
{
}

/// Closing an application closes all windows in the layouts with any of its names, and no others.
pub proof fn law_all_matching_windows_are_closed(
    s: Windows,
    app: Seq<char>,
    patterns: Patterns,
    window: u64,
)
    ensures
        collect_all(s.layouts.windows@, closing(app, patterns)).contains(Action::Kill { window })
            <==> exists|i: int|
            0 <= i < s.layouts.windows.len() && (#[trigger] s.layouts.windows[i]).key == window
                && names_any(app, patterns, s.layouts.windows[i]),
        s.any_named(app, patterns, s.layouts.windows.len() as int) <==> exists|i: int|
            0 <= i < s.layouts.windows.len() && names_any(
                app,
                patterns,
                #[trigger] s.layouts.windows[i],
            ),
{
    let f = closing(app, patterns);
    let windows = s.layouts.windows@;
    lemma_collected(windows, f, windows.len() as int);
    let action = Action::Kill { window };
    let all = collect_all(windows, f);
    if exists|i: int|
        0 <= i < s.layouts.windows.len() && (#[trigger] s.layouts.windows[i]).key == window
            && names_any(app, patterns, s.layouts.windows[i]) {
        let i = choose|i: int|
            0 <= i < s.layouts.windows.len() && (#[trigger] s.layouts.windows[i]).key == window
                && names_any(app, patterns, s.layouts.windows[i]);
        assert(f(windows[i])[0] == action);
        assert(f(windows[i]).contains(action));
    }
    if all.contains(action) {
        let i = choose|i: int| 0 <= i < windows.len() && f(#[trigger] windows[i]).contains(action);
        assert(s.layouts.windows[i].key == window);
    }
}

/// The end of an X11 window closes what shows it, and leads home if that was in fullscreen.
pub proof fn law_lost_x11_windows_are_closed(
    s: Windows,
    window_id: u32,
    patterns: Patterns,
    now: u64,
    window: u64,
)
    ensures
        s.x11_closing(window_id, patterns).contains(Action::Kill { window }) <==> exists|i: int|
            0 <= i < s.layouts.windows.len() && (#[trigger] s.layouts.windows[i]).key == window
                && s.layouts.windows[i].surface == SurfaceHandle::X11(window_id),
        ({
            let full = s.view matches ActiveView::Fullscreen(key) && (s.layouts.window(
                key,
            ) matches Some(w) && w.surface == SurfaceHandle::X11(window_id));
            let t = s.with_x11_dead(window_id, now);
            let back = Action::SetActive { position: s.home_place(patterns), clear_parents: true };
            &&& full ==> t.pending() == ActiveView::Workspace && s.x11_closing(
                window_id,
                patterns,
            ).len() > 0 && s.x11_closing(window_id, patterns).last() == back
            &&& !full ==> t.pending() == s.pending() && !s.x11_closing(
                window_id,
                patterns,
            ).contains(back)
            &&& t.view == s.view
            &&& s.timer.start != 0 ==> t.timer == s.timer
            &&& s.timer.start == 0 ==> t.timer.start == now
        }),
{
    let f = closing_x11(window_id);
    let windows = s.layouts.windows@;
    lemma_collected(windows, f, windows.len() as int);
    let action = Action::Kill { window };
    let first = collect_all(windows, f);
    let all = s.x11_closing(window_id, patterns);
    if exists|i: int|
        0 <= i < s.layouts.windows.len() && (#[trigger] s.layouts.windows[i]).key == window
            && s.layouts.windows[i].surface == SurfaceHandle::X11(window_id) {
        let i = choose|i: int|
            0 <= i < s.layouts.windows.len() && (#[trigger] s.layouts.windows[i]).key == window
                && s.layouts.windows[i].surface == SurfaceHandle::X11(window_id);
        assert(f(windows[i])[0] == action);
        assert(f(windows[i]).contains(action));
        assert(first.contains(action));
        let k = choose|k: int| 0 <= k < first.len() && first[k] == action;
        assert(all[k] == action);
    }
    if all.contains(action) {
        let k = choose|k: int| 0 <= k < all.len() && all[k] == action;
        assert(first[k] == action);
        assert(first.contains(action));
        let i = choose|i: int| 0 <= i < windows.len() && f(#[trigger] windows[i]).contains(action);
        assert(s.layouts.windows[i].key == window);
    }
    let back = Action::SetActive { position: s.home_place(patterns), clear_parents: true };
    if first.contains(back) {
        let i = choose|i: int| 0 <= i < windows.len() && f(#[trigger] windows[i]).contains(back);
        assert(f(windows[i]).len() <= 1);
    }
}

/// The application which fills a role is known by the role's pattern.
pub proof fn law_roles_have_their_pattern(s: Windows, role: Seq<char>)
    ensures
        s.system_roles.lookup(role) is None ==> s.role_matcher(role) is None,
        s.system_roles.lookup(role) matches Some(base) ==> (s.role_matcher(role) matches Some(m)
            && m.base == base),
{
}

} // verus!
