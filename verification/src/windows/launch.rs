//! Launched applications and their new windows.

use vstd::prelude::*;

use crate::action::Action;
use crate::string_map::StringMap;
use crate::text::{clone_opt, clone_or_empty, or_empty};
use crate::windows::apps::{check_overlay, is_overlay};
use crate::windows::scene::{Layer, Layouts, Output, PopupWindow, Window};
use crate::windows::state::{ActiveView, Clock, LastLaunch, LaunchCtx, TransactionTimer, Windows};
use crate::windows::scene::{Layers, Orientation};
use crate::windows::transaction::NANOS_PER_MILLI;

verus! {

/// Map with the App ID of a new window under a name.
pub open spec fn learned(
    map: Map<Seq<char>, Seq<char>>,
    name: Option<String>,
    w: Window,
) -> Map<Seq<char>, Seq<char>> {
    match name {
        Some(name) => map.insert(name@, or_empty(w.final_id())),
        None => map,
    }
}

impl Windows {
    /// Create the window manager for an output.
    ///
    /// The orientation starts out locked, and everything has to be drawn.
    /// `command_map` and `card_map` hold the stored mappings.
    pub fn new(
        output: Output,
        layouts: Layouts,
        layers: Layers,
        orientation: Orientation,
        command_map: StringMap,
        card_map: StringMap,
        clock: Clock,
    ) -> (r: Windows)
        requires
            command_map.wf(),
            card_map.wf(),
        ensures
            r.wf(),
            r == (Windows {
                window_scales: r.window_scales,
                orphan_popups: r.orphan_popups,
                layouts: layouts,
                layers: layers,
                view: ActiveView::Workspace,
                activated: None,
                transaction: None,
                timer: TransactionTimer { start: 0 },
                start_time: clock.mono_ns,
                output: output,
                system_roles: r.system_roles,
                last_launch: None,
                pending_launch: None,
                pending_resume: None,
                pending_suspend: None,
                active_role: None,
                command_map: command_map,
                card_map: card_map,
                canvas: output.canvas,
                unlocked_orientation: orientation,
                orientation_locked: true,
                ime_override: None,
                dirty: true,
                trace_scene_enabled: false,
            }),
            r.window_scales.len() == 0,
            r.orphan_popups.len() == 0,
            r.system_roles.entries.len() == 0,
    {
        Windows {
            window_scales: Vec::new(),
            orphan_popups: Vec::new(),
            layouts,
            layers,
            view: ActiveView::Workspace,
            activated: None,
            transaction: None,
            timer: TransactionTimer { start: 0 },
            start_time: clock.mono_ns,
            output,
            system_roles: StringMap::new(),
            last_launch: None,
            pending_launch: None,
            pending_resume: None,
            pending_suspend: None,
            active_role: None,
            command_map,
            card_map,
            canvas: output.canvas,
            unlocked_orientation: orientation,
            orientation_locked: true,
            ime_override: None,
            dirty: true,
            trace_scene_enabled: false,
        }
    }

    /// State after the launch of a command was noted.
    pub open spec fn with_launch(
        self,
        command: String,
        command_key: Option<String>,
        card_id: Option<String>,
        pgid: Option<i32>,
        now: u64,
    ) -> Windows {
        Windows {
            last_launch: Some(LastLaunch { command, time: now }),
            pending_launch: Some(
                LaunchCtx { command, command_key, card_id, time: now, pid: None, pgid },
            ),
            ..self
        }
    }

    /// Note the launch of a command, together with what it was launched for.
    pub fn note_launch_context(
        &mut self,
        command: String,
        command_key: Option<String>,
        card_id: Option<String>,
        pgid: Option<i32>,
        clock: Clock,
    )
        ensures
            *final(self) == old(self).with_launch(
                command,
                command_key,
                card_id,
                pgid,
                clock.mono_ns,
            ),
    {
        self.last_launch = Some(LastLaunch { command: command.clone(), time: clock.mono_ns });
        self.pending_launch = Some(
            LaunchCtx { command, command_key, card_id, time: clock.mono_ns, pid: None, pgid },
        );
    }

    /// Note the launch of a command.
    pub fn note_launch(&mut self, command: String, clock: Clock)
        ensures
            *final(self) == old(self).with_launch(command, None, None, None, clock.mono_ns),
    {
        self.note_launch_context(command, None, None, None, clock);
    }

    /// State after the process of the noted launch became known.
    pub open spec fn with_process(self, pid: i32) -> Windows {
        match self.pending_launch {
            Some(ctx) => Windows {
                pending_launch: Some(LaunchCtx { pid: Some(pid), pgid: Some(pid), ..ctx }),
                ..self
            },
            None => self,
        }
    }

    /// Set the process of the noted launch, which leads its own process group.
    pub fn update_pending_pgid(&mut self, pid: i32)
        ensures
            *final(self) == old(self).with_process(pid),
    {
        if let Some(ctx) = self.pending_launch.take() {
            self.pending_launch = Some(
                LaunchCtx {
                    command: ctx.command,
                    command_key: ctx.command_key,
                    card_id: ctx.card_id,
                    time: ctx.time,
                    pid: Some(pid),
                    pgid: Some(pid),
                },
            );
        }
    }

    /// Process group for a new window.
    pub open spec fn launch_group(&self) -> Option<i32> {
        match self.pending_launch {
            Some(ctx) => ctx.pgid,
            None => None,
        }
    }

    /// New window with the process group of its launch.
    pub open spec fn launched(&self, window: Window) -> Window {
        Window { process_group: self.launch_group(), ..window }
    }

    /// Whether one state follows another by the arrival of a new window.
    ///
    /// The window is focused and shown, and its App ID is learned for what it
    /// was launched with.
    pub open spec fn window_added(&self, after: Windows, window: Window, view: ActiveView) -> bool {
        &&& after == (Windows {
            layouts: Layouts {
                loose: after.layouts.loose,
                focus: Some(window.key),
                ..self.layouts
            },
            view: view,
            last_launch: None,
            pending_launch: None,
            command_map: after.command_map,
            card_map: after.card_map,
            ..*self
        })
        &&& after.layouts.loose@ == self.layouts.loose@.push(self.launched(window))
        &&& match self.pending_launch {
            Some(ctx) => {
                &&& after.command_map@ == learned(self.command_map@, ctx.command_key, window)
                &&& after.card_map@ == learned(self.card_map@, ctx.card_id, window)
            },
            None => after.command_map == self.command_map && after.card_map == self.card_map,
        }
        &&& self.wf() ==> after.wf()
    }

    /// Report of a new window, if there was a launch.
    pub open spec fn launch_report(&self, window: Window, x11: bool, now: u64) -> Seq<Action> {
        match self.last_launch {
            Some(launch) => seq![
                Action::LogLaunch {
                    x11,
                    title: window.title,
                    xdg_app_id: window.xdg_app_id,
                    app_id: window.app_id,
                    final_id: window.final_id(),
                    elapsed_ms: if now >= launch.time {
                        ((now - launch.time) / NANOS_PER_MILLI as int) as u64
                    } else {
                        0
                    },
                    command: launch.command,
                },
            ],
            None => Seq::empty(),
        }
    }

    /// Storing of the learned mappings, if there was a launch.
    pub open spec fn mapping_storage(&self) -> Seq<Action> {
        if self.pending_launch is Some {
            seq![Action::SaveMappings]
        } else {
            Seq::empty()
        }
    }

    /// Add a new window in a view of its own.
    fn add_window(
        &mut self,
        window: Window,
        view: ActiveView,
        x11: bool,
        clock: Clock,
        out: &mut Vec<Action>,
    )
        requires
            old(self).wf(),
        ensures
            old(self).window_added(*final(self), window, view),
            final(out)@ == old(out)@ + seq![Action::CreateLayout { window: window.key }] + old(
                self,
            ).launch_report(window, x11, clock.mono_ns) + old(self).mapping_storage(),
    {
        let ghost before = *self;
        let ghost start = out@;
        let ghost added = window;
        let report: Option<Action> = match self.last_launch.take() {
            Some(launch) => Some(
                Action::LogLaunch {
                    x11,
                    title: clone_opt(&window.title),
                    xdg_app_id: clone_opt(&window.xdg_app_id),
                    app_id: clone_opt(&window.app_id),
                    final_id: clone_opt(window.preferred_id()),
                    elapsed_ms: if clock.mono_ns >= launch.time {
                        (clock.mono_ns - launch.time) / NANOS_PER_MILLI
                    } else {
                        0
                    },
                    command: launch.command,
                },
            ),
            None => None,
        };
        let app_id = clone_or_empty(window.preferred_id());
        let key: u64 = window.key;
        let mut window = window;
        window.process_group = match &self.pending_launch {
            Some(ctx) => ctx.pgid,
            None => None,
        };
        self.layouts.loose.push(window);
        out.push(Action::CreateLayout { window: key });

        // Auto-focus the new window.
        self.layouts.focus = Some(key);
        self.view = view;

        // Report the window to the log.
        if let Some(report) = report {
            out.push(report);
        }

        // Bind pending launch mappings to observed App ID.
        if let Some(ctx) = self.pending_launch.take() {
            if let Some(key) = ctx.command_key {
                self.command_map.insert(key, app_id.clone());
            }
            if let Some(card) = ctx.card_id {
                self.card_map.insert(card, app_id);
            }
            out.push(Action::SaveMappings);
        }
        assert(out@ == start + seq![Action::CreateLayout { window: key }] + before.launch_report(
            added,
            x11,
            clock.mono_ns,
        ) + before.mapping_storage());
    }

    /// View for a new XDG window.
    pub open spec fn first_view(window: Window) -> ActiveView {
        if is_overlay(window) {
            ActiveView::Workspace
        } else {
            ActiveView::Fullscreen(window.key)
        }
    }

    /// Work needed for a new window.
    pub open spec fn window_creation(&self, window: Window, x11: bool, now: u64) -> Seq<Action> {
        (if x11 {
            Seq::empty()
        } else {
            seq![Action::PrepareToplevel { window: window.key }]
        }) + seq![Action::CreateLayout { window: window.key }] + self.launch_report(
            window,
            x11,
            now,
        ) + self.mapping_storage()
    }

    /// Add a new window.
    ///
    /// Normal applications are shown in fullscreen at once, whatever was shown
    /// before. The overlay stays in the workspace, to see what is below.
    pub fn add(&mut self, window: Window, clock: Clock, out: &mut Vec<Action>)
        requires
            old(self).wf(),
        ensures
            old(self).window_added(*final(self), window, Self::first_view(window)),
            final(out)@ == old(out)@ + old(self).window_creation(window, false, clock.mono_ns),
            final(out)@ == old(out)@ + seq![
                Action::PrepareToplevel { window: window.key },
                Action::CreateLayout { window: window.key },
            ] + old(self).launch_report(window, false, clock.mono_ns) + old(
                self,
            ).mapping_storage(),
    {
        let ghost before = *self;
        let ghost start = out@;
        let ghost added = window;
        let key: u64 = window.key;
        // Set general window states.
        out.push(Action::PrepareToplevel { window: key });
        let view = if check_overlay(&window) {
            ActiveView::Workspace
        } else {
            ActiveView::Fullscreen(key)
        };
        self.add_window(window, view, false, clock, out);
        assert(out@ == start + seq![
            Action::PrepareToplevel { window: key },
            Action::CreateLayout { window: key },
        ] + before.launch_report(added, false, clock.mono_ns) + before.mapping_storage());
        assert(out@ =~= start + before.window_creation(added, false, clock.mono_ns));
    }

    /// Add a new X11 window.
    pub fn add_x11(&mut self, window: Window, clock: Clock, out: &mut Vec<Action>)
        requires
            old(self).wf(),
        ensures
            old(self).window_added(*final(self), window, ActiveView::Fullscreen(window.key)),
            final(out)@ == old(out)@ + old(self).window_creation(window, true, clock.mono_ns),
            final(out)@ == old(out)@ + seq![Action::CreateLayout { window: window.key }] + old(
                self,
            ).launch_report(window, true, clock.mono_ns) + old(self).mapping_storage(),
    {
        let key: u64 = window.key;
        let ghost before = *self;
        let ghost start = out@;
        let ghost added = window;
        self.add_window(window, ActiveView::Fullscreen(key), true, clock, out);
        assert(out@ =~= start + before.window_creation(added, true, clock.mono_ns));
    }

    /// Add a new layer shell window.
    pub fn add_layer(&self, layer: Layer, surface: u64, namespace: String, out: &mut Vec<Action>)
        ensures
            final(out)@ == old(out)@.push(Action::CreateLayer { layer, surface, namespace }),
    {
        out.push(Action::CreateLayer { layer, surface, namespace });
    }

    /// Add a new popup window.
    pub fn add_popup(&mut self, popup: PopupWindow)
        ensures
            final(self).orphan_popups@ == old(self).orphan_popups@.push(popup),
            *final(self) == (Windows { orphan_popups: final(self).orphan_popups, ..*old(self) }),
    {
        self.orphan_popups.push(popup);
    }
}

} // verus!
