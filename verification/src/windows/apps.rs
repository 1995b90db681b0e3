//! Focusing, toggling and closing applications.

use vstd::prelude::*;

use crate::action::Action;
use crate::app_id::{AppIdMatcher, Patterns};
use crate::lists::{collect_all, collected};
use crate::text::{clone_or_empty, text_is};
use crate::text::{opt_view, or_empty};
use crate::windows::scene::{ClientInfo, Layers, LayoutPosition, SurfaceHandle, Window};
use crate::windows::state::{start_transaction, ActiveView, Windows};

verus! {

/// Whether a window's App ID or its title is accepted.
pub open spec fn names_window(app: Seq<char>, patterns: Patterns, w: Window) -> bool {
    ||| patterns.accepts(app, opt_view(w.final_id()))
    ||| w.title is Some && patterns.accepts(app, opt_view(w.title))
}

/// Whether any name of a window is accepted, the empty one for missing names.
pub open spec fn names_any(app: Seq<char>, patterns: Patterns, w: Window) -> bool {
    ||| patterns.accepts(app, Some(or_empty(w.app_id)))
    ||| patterns.accepts(app, Some(or_empty(w.title)))
    ||| patterns.accepts(app, Some(or_empty(w.xdg_app_id)))
}

/// Whether a window is the home screen when no application fills that role.
pub open spec fn default_home(w: Window) -> bool {
    ||| or_empty(w.title) == "JollyPad-Desktop"@
    ||| or_empty(w.xdg_app_id) == "jolly-home"@
    ||| or_empty(w.app_id) == "jolly-home"@
}

/// Whether a window is the overlay.
pub open spec fn is_overlay(w: Window) -> bool {
    or_empty(w.title) == "JollyPad-Overlay"@
}

/// Closing of a window which is named by a pattern.
pub open spec fn closing(app: Seq<char>, patterns: Patterns) -> spec_fn(Window) -> Seq<Action> {
    |w: Window|
        if names_any(app, patterns, w) {
            seq![Action::Kill { window: w.key }]
        } else {
            Seq::empty()
        }
}

/// Closing of a window which shows an X11 window.
pub open spec fn closing_x11(window_id: u32) -> spec_fn(Window) -> Seq<Action> {
    |w: Window|
        if w.surface == SurfaceHandle::X11(window_id) {
            seq![Action::Kill { window: w.key }]
        } else {
            Seq::empty()
        }
}

/// Check if a window is the overlay.
pub fn check_overlay(w: &Window) -> (r: bool)
    ensures
        r == is_overlay(*w),
{
    text_is(&w.title_or_empty(), "JollyPad-Overlay")
}

/// Check if a window's App ID or its title is accepted.
fn check_names(app: &AppIdMatcher, patterns: &Patterns, w: &Window) -> (r: bool)
    ensures
        r == names_window(app.base@, *patterns, *w),
{
    app.matches_opt(patterns, w.preferred_id()) || app.matches_some(patterns, &w.title)
}

/// Check if any name of a window is accepted.
fn check_names_any(app: &AppIdMatcher, patterns: &Patterns, w: &Window) -> (r: bool)
    ensures
        r == names_any(app.base@, *patterns, *w),
{
    let title = clone_or_empty(&w.title);
    let xdg_id = clone_or_empty(&w.xdg_app_id);
    let app_id = clone_or_empty(&w.app_id);
    app.matches(patterns, Some(&app_id)) || app.matches(patterns, Some(&title)) || app.matches(
        patterns,
        Some(&xdg_id),
    )
}

/// Check if a window is the home screen without any application filling that role.
fn check_default_home(w: &Window) -> (r: bool)
    ensures
        r == default_home(*w),
{
    text_is(&clone_or_empty(&w.title), "JollyPad-Desktop") || text_is(
        &clone_or_empty(&w.xdg_app_id),
        "jolly-home",
    ) || text_is(&clone_or_empty(&w.app_id), "jolly-home")
}

/// Primary window of a layout at an index.
pub open spec fn primary_at(index: int) -> Option<LayoutPosition> {
    Some(LayoutPosition { index: index as usize, secondary: false })
}

impl Windows {
    /// Title and App ID of the focused window.
    pub open spec fn focused_names(&self) -> Option<(Seq<char>, Seq<char>)> {
        match self.layouts.resolved(self.layouts.focus) {
            Some(w) => Some((or_empty(w.title), or_empty(w.final_id()))),
            None => None,
        }
    }

    /// Get active window info (title, app_id).
    pub fn active_window_info(&self) -> (r: Option<(String, String)>)
        ensures
            match r {
                Some((title, app_id)) => self.focused_names() == Some((title@, app_id@)),
                None => self.focused_names() is None,
            },
    {
        match self.layouts.resolve(self.layouts.focus) {
            Some(window) => {
                let app_id = clone_or_empty(window.preferred_id());
                let title = window.title_or_empty();
                Some((title, app_id))
            },
            None => None,
        }
    }

    /// Whether a client's description is that of a window.
    pub open spec fn describes(info: ClientInfo, w: Window) -> bool {
        &&& info.title@ == or_empty(w.title)
        &&& info.app_id@ == or_empty(w.final_id())
        &&& info.pid == w.process_group
    }

    /// Get list of clients.
    pub fn clients_info(&self) -> (r: Vec<ClientInfo>)
        ensures
            r.len() == self.layouts.windows.len(),
            forall|i: int|
                0 <= i < r.len() ==> Self::describes(#[trigger] r[i], self.layouts.windows[i]),
    {
        let mut r: Vec<ClientInfo> = Vec::new();
        let mut i: usize = 0;
        while i < self.layouts.windows.len()
            invariant
                i <= self.layouts.windows.len(),
                r.len() == i,
                forall|j: int|
                    0 <= j < i ==> Self::describes(#[trigger] r[j], self.layouts.windows[j]),
            decreases self.layouts.windows.len() - i,
        {
            let window = &self.layouts.windows[i];
            r.push(
                ClientInfo {
                    title: window.title_or_empty(),
                    app_id: clone_or_empty(window.preferred_id()),
                    pid: window.process_group,
                },
            );
            i += 1;
        }
        r
    }

    /// Whether an optional window is named by a pattern.
    pub open spec fn key_named(&self, app: Seq<char>, patterns: Patterns, key: Option<u64>) -> bool {
        self.layouts.resolved(key) matches Some(w) && names_window(app, patterns, w)
    }

    /// Place of the first window from a layout on which is named by a pattern.
    pub open spec fn app_place(
        &self,
        app: Seq<char>,
        patterns: Patterns,
        from: int,
    ) -> Option<LayoutPosition>
        decreases self.layouts.layouts.len() - from,
    {
        if from >= self.layouts.layouts.len() {
            None
        } else if self.key_named(app, patterns, self.layouts.layouts[from].primary) {
            Some(LayoutPosition { index: from as usize, secondary: false })
        } else if self.key_named(app, patterns, self.layouts.layouts[from].secondary) {
            Some(LayoutPosition { index: from as usize, secondary: true })
        } else {
            self.app_place(app, patterns, from + 1)
        }
    }

    fn check_key_named(&self, app: &AppIdMatcher, patterns: &Patterns, key: Option<u64>) -> (r: bool)
        ensures
            r == self.key_named(app.base@, *patterns, key),
    {
        match self.layouts.resolve(key) {
            Some(window) => check_names(app, patterns, window),
            None => false,
        }
    }

    /// Find the first window named by a pattern.
    pub fn find_app(&self, app: &AppIdMatcher, patterns: &Patterns) -> (r: Option<LayoutPosition>)
        ensures
            r == self.app_place(app.base@, *patterns, 0),
            r matches Some(position) ==> position.index < self.layouts.layouts.len(),
    {
        let mut i: usize = 0;
        while i < self.layouts.layouts.len()
            invariant
                i <= self.layouts.layouts.len(),
                self.app_place(app.base@, *patterns, 0) == self.app_place(app.base@, *patterns, i as int),
            decreases self.layouts.layouts.len() - i,
        {
            if self.check_key_named(app, patterns, self.layouts.layouts[i].primary) {
                return Some(LayoutPosition { index: i, secondary: false });
            }
            if self.check_key_named(app, patterns, self.layouts.layouts[i].secondary) {
                return Some(LayoutPosition { index: i, secondary: true });
            }
            i += 1;
        }
        None
    }

    /// Whether the layout at a place has the overlay as its primary window.
    pub open spec fn overlay_at(&self, position: LayoutPosition) -> bool {
        &&& position.index < self.layouts.layouts.len()
        &&& self.layouts.resolved(self.layouts.layouts[position.index as int].primary) matches Some(
            w,
        ) && is_overlay(w)
    }

    /// State without focused layer surface.
    pub open spec fn without_layer_focus(self) -> Windows {
        Windows { layers: Layers { focus: None, ..self.layers }, ..self }
    }

    /// State after an application was focused.
    pub open spec fn with_app_focused(self, app: Seq<char>, patterns: Patterns, now: u64) -> Windows {
        match self.app_place(app, patterns, 0) {
            Some(position) => if self.overlay_at(position) && self.view is Fullscreen {
                self.with_view(ActiveView::Workspace, now).without_layer_focus()
            } else {
                self.without_layer_focus()
            },
            None => self,
        }
    }

    /// Work needed to focus an application.
    pub open spec fn app_focusing(&self, app: Seq<char>, patterns: Patterns, now: u64) -> Seq<Action> {
        match self.app_place(app, patterns, 0) {
            Some(position) => if self.overlay_at(position) {
                seq![
                    Action::PushActiveToParent,
                    Action::SetActive { position: Some(position), clear_parents: false },
                ] + self.with_app_focused(app, patterns, now).visible_resize()
            } else {
                seq![Action::SetActive { position: Some(position), clear_parents: true }]
            },
            None => Seq::empty(),
        }
    }

    /// Focus the first window matching the App ID.
    ///
    /// The overlay is put above the active layout, which is remembered as its
    /// parent. Any other application replaces the active layout and its
    /// parents.
    pub fn focus_app(
        &mut self,
        app_id: &AppIdMatcher,
        patterns: &Patterns,
        now: u64,
        out: &mut Vec<Action>,
    ) -> (r: bool)
        ensures
            r == (old(self).app_place(app_id.base@, *patterns, 0) is Some),
            *final(self) == old(self).with_app_focused(app_id.base@, *patterns, now),
            final(out)@ == old(out)@ + old(self).app_focusing(app_id.base@, *patterns, now),
    {
        let ghost before = *self;
        let ghost start = out@;
        let position = match self.find_app(app_id, patterns) {
            Some(position) => position,
            None => {
                return false;
            },
        };

        // Special handling for the overlay to preserve parent history.
        let overlay = match self.layouts.resolve(self.layouts.layouts[position.index].primary) {
            Some(window) => check_overlay(window),
            None => false,
        };

        if overlay {
            out.push(Action::PushActiveToParent);
            out.push(Action::SetActive { position: Some(position), clear_parents: false });

            // Fullscreen windows would hide the overlay.
            let fullscreen = match &self.view {
                ActiveView::Fullscreen(_) => true,
                _ => false,
            };
            if fullscreen {
                self.set_view(ActiveView::Workspace, now);
            }

            // Force resize to ensure it renders on top.
            self.resize_visible(out);
        } else {
            out.push(Action::SetActive { position: Some(position), clear_parents: true });
        }

        // Clear layer focus to ensure toplevel activation logic works.
        let ghost middle = *self;
        self.layers.focus = None;
        assert(middle.visible_resize() == self.visible_resize());
        assert(out@ == start + before.app_focusing(app_id.base@, *patterns, now));
        true
    }

    /// Focus the application learned for a name.
    pub open spec fn with_mapped_focused(
        self,
        mapped: Option<String>,
        patterns: Patterns,
        now: u64,
    ) -> Windows {
        match mapped {
            Some(base) if patterns.compiles(base@) => self.with_app_focused(
                base@,
                patterns,
                now,
            ),
            _ => self,
        }
    }

    /// Work needed to focus the application learned for a name.
    pub open spec fn mapped_focusing(
        &self,
        mapped: Option<String>,
        patterns: Patterns,
        now: u64,
    ) -> Seq<Action> {
        match mapped {
            Some(base) if patterns.compiles(base@) => self.app_focusing(
                base@,
                patterns,
                now,
            ),
            _ => Seq::empty(),
        }
    }

    /// Whether the application learned for a name is there.
    pub open spec fn mapped_found(&self, mapped: Option<String>, patterns: Patterns) -> bool {
        mapped matches Some(base) && patterns.compiles(base@) && self.app_place(
            base@,
            patterns,
            0,
        ) is Some
    }

    /// Focus the application learned for a command key.
    pub fn focus_mapped_command(
        &mut self,
        key: &str,
        patterns: &Patterns,
        now: u64,
        out: &mut Vec<Action>,
    ) -> (r: bool)
        ensures
            r == old(self).mapped_found(old(self).command_map.lookup(key@), *patterns),
            *final(self) == old(self).with_mapped_focused(
                old(self).command_map.lookup(key@),
                *patterns,
                now,
            ),
            final(out)@ == old(out)@ + old(self).mapped_focusing(
                old(self).command_map.lookup(key@),
                *patterns,
                now,
            ),
    {
        let base = match self.command_map.get(key) {
            Some(base) => base.clone(),
            None => {
                return false;
            },
        };
        match AppIdMatcher::try_from(base, patterns) {
            Ok(app) => self.focus_app(&app, patterns, now, out),
            Err(_) => false,
        }
    }

    /// Focus the application learned for a card.
    pub fn focus_mapped_card(
        &mut self,
        card_id: &str,
        patterns: &Patterns,
        now: u64,
        out: &mut Vec<Action>,
    ) -> (r: bool)
        ensures
            r == old(self).mapped_found(old(self).card_map.lookup(card_id@), *patterns),
            *final(self) == old(self).with_mapped_focused(
                old(self).card_map.lookup(card_id@),
                *patterns,
                now,
            ),
            final(out)@ == old(out)@ + old(self).mapped_focusing(
                old(self).card_map.lookup(card_id@),
                *patterns,
                now,
            ),
    {
        let base = match self.card_map.get(card_id) {
            Some(base) => base.clone(),
            None => {
                return false;
            },
        };
        match AppIdMatcher::try_from(base, patterns) {
            Ok(app) => self.focus_app(&app, patterns, now, out),
            Err(_) => false,
        }
    }

    /// Matcher for the application which fills a role.
    pub open spec fn role_matcher(&self, role: Seq<char>) -> Option<AppIdMatcher> {
        match self.system_roles.lookup(role) {
            Some(base) => Some(AppIdMatcher { base }),
            None => None,
        }
    }

    /// Get the matcher for the application which fills a role.
    pub fn system_role(&self, role: &str) -> (r: Option<AppIdMatcher>)
        ensures
            r == self.role_matcher(role@),
    {
        match self.system_roles.get(role) {
            Some(base) => Some(AppIdMatcher { base: base.clone() }),
            None => None,
        }
    }

    /// Let an application fill a role.
    pub fn set_system_role(&mut self, role: String, app_id: AppIdMatcher)
        requires
            old(self).wf(),
        ensures
            final(self).wf(),
            final(self).system_roles@ == old(self).system_roles@.insert(role@, app_id.base@),
            *final(self) == (Windows { system_roles: final(self).system_roles, ..*old(self) }),
    {
        self.system_roles.insert(role, app_id.base);
    }

    /// Whether a layout's primary window is the home screen.
    ///
    /// Without an application in that role, well-known names are used if
    /// `fallback` is set.
    pub open spec fn is_home(&self, patterns: Patterns, fallback: bool, key: Option<u64>) -> bool {
        self.layouts.resolved(key) matches Some(w) && match self.role_matcher("home"@) {
            Some(home) => names_any(home.base@, patterns, w),
            None => fallback && default_home(w),
        }
    }

    /// Index of the first layout from an index on with the home screen.
    pub open spec fn home_index(&self, patterns: Patterns, fallback: bool, from: int) -> Option<int>
        decreases self.layouts.layouts.len() - from,
    {
        if from >= self.layouts.layouts.len() {
            None
        } else if self.is_home(patterns, fallback, self.layouts.layouts[from].primary) {
            Some(from)
        } else {
            self.home_index(patterns, fallback, from + 1)
        }
    }

    /// Find the layout with the home screen.
    pub fn find_home(&self, patterns: &Patterns, fallback: bool) -> (r: Option<usize>)
        ensures
            match r {
                Some(i) => self.home_index(*patterns, fallback, 0) == Some(i as int) && i
                    < self.layouts.layouts.len(),
                None => self.home_index(*patterns, fallback, 0) is None,
            },
    {
        let role_home = self.system_role("home");
        let mut i: usize = 0;
        while i < self.layouts.layouts.len()
            invariant
                i <= self.layouts.layouts.len(),
                role_home == self.role_matcher("home"@),
                self.home_index(*patterns, fallback, 0) == self.home_index(
                    *patterns,
                    fallback,
                    i as int,
                ),
            decreases self.layouts.layouts.len() - i,
        {
            if let Some(window) = self.layouts.resolve(self.layouts.layouts[i].primary) {
                let home = match &role_home {
                    Some(matcher) => check_names_any(matcher, patterns, window),
                    None => fallback && check_default_home(window),
                };
                if home {
                    return Some(i);
                }
            }
            i += 1;
        }
        None
    }

    /// Place to go to after a fullscreen window was lost without parent.
    pub open spec fn home_place(&self, patterns: Patterns) -> Option<LayoutPosition> {
        match self.home_index(patterns, true, 0) {
            Some(index) => primary_at(index),
            None => if self.layouts.layouts.len() > 0 {
                primary_at(0)
            } else {
                None
            },
        }
    }

    /// Find the place to go to after a fullscreen window was lost without parent.
    pub fn find_home_place(&self, patterns: &Patterns) -> (r: Option<LayoutPosition>)
        ensures
            r == self.home_place(*patterns),
    {
        match self.find_home(patterns, true) {
            Some(index) => Some(LayoutPosition { index, secondary: false }),
            None => if self.layouts.layouts.len() > 0 {
                Some(LayoutPosition { index: 0, secondary: false })
            } else {
                None
            },
        }
    }

    /// Index of the layout to return to.
    pub open spec fn parent_index(&self) -> Option<int> {
        if self.layouts.parent_layouts.len() > 0 {
            self.layouts.index_of(self.layouts.parent_layouts@.last())
        } else {
            None
        }
    }

    /// Find the index of the layout to return to.
    pub fn find_parent(&self) -> (r: Option<usize>)
        ensures
            match r {
                Some(i) => self.parent_index() == Some(i as int) && i < self.layouts.layouts.len(),
                None => self.parent_index() is None,
            },
    {
        let count: usize = self.layouts.parent_layouts.len();
        if count > 0 {
            self.layouts.index_of_layout(self.layouts.parent_layouts[count - 1])
        } else {
            None
        }
    }

    /// Whether an application is active. Without focus, none is.
    pub open spec fn is_active(&self, app: Seq<char>, patterns: Patterns) -> bool {
        self.focused_names() matches Some((title, app_id)) && (patterns.accepts(app, Some(app_id))
            || patterns.accepts(app, Some(title)))
    }

    /// Whether the fullscreen window is named by a pattern.
    pub open spec fn fullscreen_named(&self, app: Seq<char>, patterns: Patterns) -> bool {
        self.view matches ActiveView::Fullscreen(key) && self.key_named(app, patterns, Some(key))
    }

    /// Place to go to when the active application is hidden.
    pub open spec fn hiding_place(&self, patterns: Patterns) -> Option<LayoutPosition> {
        match self.parent_index() {
            Some(index) => primary_at(index),
            None => match self.home_index(patterns, false, 0) {
                Some(index) => primary_at(index),
                None => if self.layouts.layouts.len() <= 1 {
                    None
                } else {
                    primary_at(0)
                },
            },
        }
    }

    /// State after an application was toggled.
    pub open spec fn with_app_toggled(self, app: Seq<char>, patterns: Patterns, now: u64) -> Windows {
        if !self.is_active(app, patterns) {
            self.with_app_focused(app, patterns, now)
        } else if self.fullscreen_named(app, patterns) {
            self.with_view(ActiveView::Workspace, now)
        } else {
            self
        }
    }

    /// Work needed to toggle an application.
    pub open spec fn app_toggling(&self, app: Seq<char>, patterns: Patterns, now: u64) -> Seq<Action> {
        if !self.is_active(app, patterns) {
            self.app_focusing(app, patterns, now)
        } else {
            (if self.fullscreen_named(app, patterns) {
                self.with_view(ActiveView::Workspace, now).visible_resize()
            } else {
                Seq::empty()
            }).push(
                Action::SetActive { position: self.hiding_place(patterns), clear_parents: true },
            )
        }
    }

    /// Toggle application visibility: focus if hidden/inactive, switch to previous if active.
    ///
    /// A hidden application makes room for the layout below it, for the home
    /// screen or for the first layout.
    pub fn toggle_app(
        &mut self,
        app_id: &AppIdMatcher,
        patterns: &Patterns,
        now: u64,
        out: &mut Vec<Action>,
    ) -> (r: bool)
        ensures
            r == (old(self).is_active(app_id.base@, *patterns) || old(self).app_place(
                app_id.base@,
                *patterns,
                0,
            ) is Some),
            *final(self) == old(self).with_app_toggled(app_id.base@, *patterns, now),
            final(out)@ == old(out)@ + old(self).app_toggling(app_id.base@, *patterns, now),
    {
        let ghost before = *self;
        let is_active = match self.active_window_info() {
            Some((title, current_id)) => app_id.matches(patterns, Some(&current_id))
                || app_id.matches(patterns, Some(&title)),
            None => false,
        };
        if !is_active {
            return self.focus_app(app_id, patterns, now, out);
        }

        // Leave fullscreen if it shows this application.
        let fullscreen = match &self.view {
            ActiveView::Fullscreen(key) => self.check_key_named(app_id, patterns, Some(*key)),
            _ => false,
        };
        if fullscreen {
            self.set_view(ActiveView::Workspace, now);
            self.resize_visible(out);
        }
        proof {
            self.lemma_same_layouts(before, *patterns);
        }

        let position = match self.find_parent() {
            Some(index) => Some(LayoutPosition { index, secondary: false }),
            None => match self.find_home(patterns, false) {
                Some(index) => Some(LayoutPosition { index, secondary: false }),
                None => if self.layouts.layouts.len() <= 1 {
                    None
                } else {
                    Some(LayoutPosition { index: 0, secondary: false })
                },
            },
        };
        out.push(Action::SetActive { position, clear_parents: true });
        true
    }

    proof fn lemma_same_home(&self, other: Windows, patterns: Patterns, fallback: bool, from: int)
        requires
            self.layouts == other.layouts,
            self.system_roles == other.system_roles,
        ensures
            self.home_index(patterns, fallback, from) == other.home_index(patterns, fallback, from),
        decreases self.layouts.layouts.len() - from,
    {
        if from < self.layouts.layouts.len() {
            self.lemma_same_home(other, patterns, fallback, from + 1);
        }
    }

    /// Where to go depends on the layouts and the roles alone.
    proof fn lemma_same_layouts(&self, other: Windows, patterns: Patterns)
        requires
            self.layouts == other.layouts,
            self.system_roles == other.system_roles,
        ensures
            self.hiding_place(patterns) == other.hiding_place(patterns),
            self.home_place(patterns) == other.home_place(patterns),
    {
        self.lemma_same_home(other, patterns, true, 0);
        self.lemma_same_home(other, patterns, false, 0);
    }

    /// Whether an X11 window is in fullscreen.
    pub open spec fn x11_fullscreen(&self, window_id: u32) -> bool {
        self.view matches ActiveView::Fullscreen(key) && self.layouts.window(key) matches Some(w)
            && w.surface == SurfaceHandle::X11(window_id)
    }

    /// State after the death of an X11 window.
    pub open spec fn with_x11_dead(self, window_id: u32, now: u64) -> Windows {
        if self.x11_fullscreen(window_id) {
            self.with_pending(ActiveView::Workspace, now)
        } else {
            Windows { timer: self.timer.started(now), ..self }
        }
    }

    /// Work needed after the death of an X11 window.
    pub open spec fn x11_closing(&self, window_id: u32, patterns: Patterns) -> Seq<Action> {
        collect_all(self.layouts.windows@, closing_x11(window_id)) + (if self.x11_fullscreen(
            window_id,
        ) {
            seq![Action::SetActive { position: self.home_place(patterns), clear_parents: true }]
        } else {
            Seq::empty()
        })
    }

    /// Mark X11 window as dead by window id.
    ///
    /// Losing the fullscreen window leads back to the home screen.
    pub fn mark_dead_x11(
        &mut self,
        window_id: u32,
        patterns: &Patterns,
        now: u64,
        out: &mut Vec<Action>,
    )
        ensures
            *final(self) == old(self).with_x11_dead(window_id, now),
            final(out)@ == old(out)@ + old(self).x11_closing(window_id, *patterns),
    {
        let ghost before = *self;
        let ghost start = out@;
        start_transaction(&mut self.timer, now);
        let killed_fullscreen = match &self.view {
            ActiveView::Fullscreen(key) => match self.layouts.find(*key) {
                Some(window) => match window.surface {
                    SurfaceHandle::X11(id) => id == window_id,
                    SurfaceHandle::Xdg(_) => false,
                },
                None => false,
            },
            _ => false,
        };

        let mut i: usize = 0;
        while i < self.layouts.windows.len()
            invariant
                i <= self.layouts.windows.len(),
                out@ == start + collected(
                    self.layouts.windows@,
                    closing_x11(window_id),
                    i as int,
                ),
            decreases self.layouts.windows.len() - i,
        {
            let window = &self.layouts.windows[i];
            if let SurfaceHandle::X11(id) = window.surface {
                if id == window_id {
                    out.push(Action::Kill { window: window.key });
                }
            }
            i += 1;
        }

        if killed_fullscreen {
            self.start_view_transaction(ActiveView::Workspace, now);
            proof {
                self.lemma_same_layouts(before, *patterns);
            }
            let position = self.find_home_place(patterns);
            out.push(Action::SetActive { position, clear_parents: true });
        }
        assert(out@ == start + before.x11_closing(window_id, *patterns));
    }

    /// Whether a pattern names any window in the layouts.
    pub open spec fn any_named(&self, app: Seq<char>, patterns: Patterns, n: int) -> bool {
        exists|i: int|
            0 <= i < n && names_any(app, patterns, #[trigger] self.layouts.windows[i])
    }

    /// Close an application by App ID.
    pub fn close_app(&self, app_id: &AppIdMatcher, patterns: &Patterns, out: &mut Vec<Action>) -> (r:
        bool)
        ensures
            r == self.any_named(app_id.base@, *patterns, self.layouts.windows.len() as int),
            final(out)@ == old(out)@ + collect_all(
                self.layouts.windows@,
                closing(app_id.base@, *patterns),
            ),
    {
        let ghost start = out@;
        let mut closed = false;
        let mut i: usize = 0;
        while i < self.layouts.windows.len()
            invariant
                i <= self.layouts.windows.len(),
                closed == self.any_named(app_id.base@, *patterns, i as int),
                out@ == start + collected(
                    self.layouts.windows@,
                    closing(app_id.base@, *patterns),
                    i as int,
                ),
            decreases self.layouts.windows.len() - i,
        {
            let window = &self.layouts.windows[i];
            if check_names_any(app_id, patterns, window) {
                out.push(Action::Kill { window: window.key });
                assert(names_any(app_id.base@, *patterns, self.layouts.windows[i as int]));
                closed = true;
            }
            i += 1;
        }
        closed
    }
}

} // verus!
