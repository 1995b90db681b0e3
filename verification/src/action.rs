//! Work which the window manager asks its surroundings to do.

use vstd::prelude::*;

use crate::geometry::{FloatBits, Rectangle};
use crate::windows::log::ViewKind;
use crate::windows::scene::{Layer, LayoutPosition, Mode, Orientation, SurfaceHandle};

verus! {

/// Window that something is done to.
#[derive(Clone, Copy, Debug, PartialEq, Eq, Structural)]
pub enum Target {
    /// Window in the layouts, by its key.
    Layout(u64),
    /// Layer shell window, by its surface.
    Layer(u64),
    /// Session lock window, by its surface.
    Lock(u64),
}

/// Area that a window is resized to.
#[derive(Clone, Copy, Debug, PartialEq, Eq, Structural)]
pub enum Area {
    /// Space available to fullscreen windows.
    AvailableFullscreen,
    /// The entire output.
    Output,
    /// A fixed area.
    Fixed(Rectangle),
}

/// Signal for a process group.
#[derive(Clone, Copy, Debug, PartialEq, Eq, Structural)]
pub enum Signal {
    Stop,
    Continue,
}

/// Key pressed in place of the user.
#[derive(Clone, Copy, Debug, PartialEq, Eq, Structural)]
pub enum Key {
    Return,
    Up,
    Down,
    Left,
    Right,
}

/// Work for the surroundings of the window manager, in the order given.
#[derive(Debug, PartialEq, Eq)]
pub enum Action {
    /// Change the active window, optionally forgetting the parent layouts.
    SetActive { position: Option<LayoutPosition>, clear_parents: bool },
    /// Remember the active layout as a layout to return to.
    PushActiveToParent,
    /// Switch to the next or previous layout.
    CycleActive { forward: bool },
    /// Make a window the active layout's primary window.
    SetPrimary(LayoutPosition),
    /// Make a window the active layout's secondary window.
    SetSecondary(LayoutPosition),
    /// Ask a new XDG window to be active, in fullscreen and decorated by the server.
    PrepareToplevel { window: u64 },
    /// Create a layout for a new window.
    CreateLayout { window: u64 },
    /// Create a layer shell window which enters the output.
    CreateLayer { layer: Layer, surface: u64, namespace: String },
    /// Give the space reserved by a layer shell window back.
    ResetExclusive { layer: u64 },
    /// Stage a dead window for removal from the layouts.
    ReapLayouts(SurfaceHandle),
    /// Resize the windows of a layout, by its index.
    ResizeLayout { index: usize },
    /// Resize the windows of the layout which is about to be active.
    ResizePendingActive,
    /// Resize a window.
    SetDimensions { target: Target, area: Area },
    /// Let a layer shell window take the size it asked for.
    UpdateDimensions { layer: u64, fullscreen: bool },
    /// Close a window.
    Kill { window: u64 },
    /// Change a window's urgency.
    SetUrgent { window: u64, urgent: bool },
    /// Change a window's fullscreen state.
    SetFullscreen { window: u64, fullscreen: bool },
    /// Change a surface's activated state.
    SetActivated { surface: SurfaceHandle, activated: bool },
    /// Leave a window out of transactions.
    IgnoreTransactions { target: Target },
    /// Apply a window's pending state.
    ApplyTransaction { target: Target },
    /// Apply pending changes to all layouts.
    ApplyLayouts,
    /// Apply pending changes to all layer shell windows.
    ApplyLayers,
    /// Mute or unmute the audio streams of an application.
    CorkAudio { app_id: Option<String>, cork: bool },
    /// Pause or resume the media players of an application.
    ControlMedia { app_id: Option<String>, pause: bool },
    /// Send a signal to a process group.
    SendSignal { pgid: i32, signal: Signal },
    /// Change the output's orientation.
    SetOrientation(Orientation),
    /// Change the output's scale.
    SetOutputScale(FloatBits),
    /// Change the output's mode.
    SetOutputMode(Mode),
    /// Tell a window about the output's orientation.
    UpdateTransform { target: Target, orientation: Orientation },
    /// Tell a window about the output's scale.
    UpdateScale { target: Target, scale: FloatBits },
    /// Apply the per-window scales to a window.
    SetWindowScale { target: Target },
    /// Store the learned mappings.
    SaveMappings,
    /// Report the window of a launched command to the log, with its names.
    LogLaunch {
        x11: bool,
        title: Option<String>,
        xdg_app_id: Option<String>,
        app_id: Option<String>,
        /// App ID which is learned for the command.
        final_id: Option<String>,
        elapsed_ms: u64,
        command: String,
    },
    /// Report the switch to another view to the log.
    LogSwitch { from: ViewKind, to: ViewKind, elapsed_ms: u64 },
    /// Write the scene to the log.
    LogScene,
    /// Write the focus graph to the log.
    LogFocusGraph,
    /// Write the window tree to the log.
    LogWindowTree,
    /// Start to wait for a long touch on a window in the overview.
    StartHold { overview: u64, position: LayoutPosition },
    /// Stop waiting for a long touch in the overview.
    CancelHold { overview: u64 },
    /// Stop scrolling after a touch has ended.
    CancelVelocity,
    /// Focus the application named by a pattern.
    FocusApp { app_id: String },
    /// Lock the orientation, optionally after turning the output.
    LockOrientation(Option<Orientation>),
    /// Unlock the orientation.
    UnlockOrientation,
    /// Resume drawing.
    Unstall,
    /// Press or release a key.
    SimulateKey { key: Key, pressed: bool },
    /// Start an application.
    Spawn { command: String },
    /// Use another keyboard configuration.
    SetKeyboard {
        model: String,
        layout: String,
        variant: String,
        options: Option<String>,
        rules: String,
    },
    /// Turn the display on or off.
    SetDisplayStatus { on: bool },
}

} // verus!
