//! Window surfaces.

use vstd::prelude::*;

use crate::geometry::{FloatBits, Rectangle, Size};
use crate::text::clone_opt;
use crate::windows::scene::{Layer, SurfaceHandle};

verus! {

/// Request which a change of a surface sends to its client.
#[derive(Clone, Copy, Debug, PartialEq, Eq, Structural)]
pub enum Request {
    /// Nothing is sent.
    Nothing,
    /// Wayland configure with the surface's pending state.
    Configure,
    /// Wayland request to close.
    Close,
    /// X11 configure with a new geometry.
    X11Configure(Rectangle),
    /// X11 fullscreen state.
    X11Fullscreen(bool),
    /// X11 focus state.
    X11Activated(bool),
    /// X11 request to close.
    X11Close,
}

/// Configure for a surface, unless its initial one is still missing.
pub open spec fn configure_if(configured: bool) -> Request {
    if configured {
        Request::Configure
    } else {
        Request::Nothing
    }
}

fn send_if(configured: bool) -> (r: Request)
    ensures
        r == configure_if(configured),
{
    if configured {
        Request::Configure
    } else {
        Request::Nothing
    }
}

/// Size with nothing in it.
pub open spec fn no_size() -> Size {
    Size { w: 0, h: 0 }
}

/// Size which might be missing.
pub open spec fn size_or_none(size: Option<Size>) -> Size {
    match size {
        Some(size) => size,
        None => no_size(),
    }
}

fn unwrap_size(size: Option<Size>) -> (r: Size)
    ensures
        r == size_or_none(size),
{
    match size {
        Some(size) => size,
        None => Size { w: 0, h: 0 },
    }
}

/// Rendering state attached to a surface.
#[derive(Clone, Copy, Debug, PartialEq, Eq, Structural)]
pub struct SurfaceData {
    pub preferred_fractional_scale: FloatBits,
    pub buffer_scale: i32,
}

/// Fractional scale in a surface's rendering state.
pub open spec fn attached_fraction(data: Option<SurfaceData>) -> Option<FloatBits> {
    match data {
        Some(data) => Some(data.preferred_fractional_scale),
        None => None,
    }
}

/// Buffer scale in a surface's rendering state.
pub open spec fn attached_scale(data: Option<SurfaceData>) -> i32 {
    match data {
        Some(data) => data.buffer_scale,
        None => 1,
    }
}

/// Common surface functionality.
pub trait Surface: Sized {
    /// Surface state type.
    type State;

    /// Underlying Wayland surface.
    spec fn wl_surface(&self) -> Option<u64>;

    /// Whether the window is still open.
    spec fn is_alive(&self) -> bool;

    /// Whether the initial configure was already sent.
    spec fn configured(&self) -> bool;

    /// Whether the state can be updated as a whole.
    spec fn takes_state(&self) -> bool;

    /// Surface with another state.
    spec fn with_state(self, state: Self::State) -> Self;

    /// Surface with other dimensions.
    spec fn with_size(self, size: Size) -> Self;

    /// Request sent with other dimensions.
    spec fn size_request(&self, size: Size) -> Request;

    /// Size acknowledged by the client.
    spec fn size_acked(&self) -> Size;

    /// Bounds of the visible content.
    spec fn visible_bounds(&self) -> Option<Rectangle>;

    /// Surface with another fullscreen state.
    spec fn with_fullscreen(self, fullscreen: bool) -> Self;

    /// Request sent with another fullscreen state.
    spec fn fullscreen_request(&self, fullscreen: bool) -> Request;

    /// Surface with another activated state.
    spec fn with_activated(self, activated: bool) -> Self;

    /// Request sent with another activated state.
    spec fn activated_request(&self, activated: bool) -> Request;

    /// Request sent to close.
    spec fn close_request(&self) -> Request;

    /// Title set by the client.
    spec fn title_text(&self) -> Option<String>;

    /// App ID set by the client.
    spec fn app_id_text(&self) -> Option<String>;

    /// Rendering state attached to the Wayland surface.
    spec fn attached(&self) -> Option<SurfaceData>;

    /// Get underlying Wayland surface.
    fn surface(&self) -> (r: u64)
        requires
            self.wl_surface() is Some,
        ensures
            Some(r) == self.wl_surface(),
    ;

    /// Get underlying Wayland surface if available.
    ///
    /// For X11 surfaces, the associated surface may not be available
    /// immediately. This allows callers to gracefully skip operations until it
    /// exists.
    fn maybe_surface(&self) -> (r: Option<u64>)
        ensures
            r == self.wl_surface(),
    ;

    /// Check if the window is still open.
    fn alive(&self) -> (r: bool)
        ensures
            r == self.is_alive(),
    ;

    /// Check whether the initial configure was already sent.
    fn initial_configure_sent(&self) -> (r: bool)
        ensures
            r == self.configured(),
    ;

    /// Send the initial configure, once.
    fn initial_configure(&self) -> (r: Request)
        ensures
            r == configure_if(!self.configured()),
    {
        send_if(!self.initial_configure_sent())
    }

    /// Update surface state.
    ///
    /// Nothing is sent before the initial configure.
    fn set_state(&mut self, state: Self::State) -> (r: Request)
        ensures
            *final(self) == old(self).with_state(state),
            r == configure_if(old(self).takes_state() && old(self).configured()),
    ;

    /// Update surface's dimensions.
    fn resize(&mut self, size: Size) -> (r: Request)
        ensures
            *final(self) == old(self).with_size(size),
            r == old(self).size_request(size),
    ;

    /// Window's acknowledged size.
    fn acked_size(&self) -> (r: Size)
        ensures
            r == self.size_acked(),
    ;

    /// Geometry of the window's visible bounds.
    fn geometry(&self) -> (r: Option<Rectangle>)
        ensures
            r == self.visible_bounds(),
    ;

    /// Set fullscreen state.
    fn set_fullscreen(&mut self, fullscreen: bool) -> (r: Request)
        ensures
            *final(self) == old(self).with_fullscreen(fullscreen),
            r == old(self).fullscreen_request(fullscreen),
    ;

    /// Set activated state.
    fn set_activated(&mut self, activated: bool) -> (r: Request)
        ensures
            *final(self) == old(self).with_activated(activated),
            r == old(self).activated_request(activated),
    ;

    /// Send close request.
    fn send_close(&self) -> (r: Request)
        ensures
            r == self.close_request(),
    ;

    /// Get surface title.
    fn title(&self) -> (r: Option<String>)
        ensures
            r == self.title_text(),
    ;

    /// Get surface App ID.
    fn app_id(&self) -> (r: Option<String>)
        ensures
            r == self.app_id_text(),
    ;

    /// Get the rendering state attached to the surface.
    fn surface_data(&self) -> (r: Option<SurfaceData>)
        ensures
            r == self.attached(),
    ;

    /// Get preferred fractional scale.
    fn preferred_fractional_scale(&self) -> (r: Option<FloatBits>)
        ensures
            r == attached_fraction(self.attached()),
            r == (match self.attached() {
                Some(data) => Some(data.preferred_fractional_scale),
                None => None,
            }),
    {
        match self.surface_data() {
            Some(data) => Some(data.preferred_fractional_scale),
            None => None,
        }
    }

    /// Get buffer scale.
    fn buffer_scale(&self) -> (r: i32)
        ensures
            r == attached_scale(self.attached()),
            r == (match self.attached() {
                Some(data) => data.buffer_scale,
                None => 1,
            }),
    {
        match self.surface_data() {
            Some(data) => data.buffer_scale,
            None => 1,
        }
    }
}

/// State of an XDG toplevel.
#[derive(Clone, Copy, Debug, PartialEq, Eq, Structural)]
pub struct ToplevelState {
    pub size: Option<Size>,
    pub fullscreen: bool,
    pub activated: bool,
    /// Whether the server draws the decorations.
    pub server_decoration: bool,
}

/// XDG toplevel.
#[derive(Debug, PartialEq, Eq)]
pub struct ToplevelSurface {
    pub surface: u64,
    pub alive: bool,
    pub initial_configure_sent: bool,
    /// State for the next configure.
    pub pending: ToplevelState,
    /// Size in the state acknowledged last.
    pub current_size: Option<Size>,
    /// Geometry set by the client.
    pub geometry: Option<Rectangle>,
    pub title: Option<String>,
    pub app_id: Option<String>,
    pub data: Option<SurfaceData>,
}

impl ToplevelSurface {
    /// Toplevel with the general states of a new window.
    pub open spec fn prepared(self) -> ToplevelSurface {
        ToplevelSurface {
            pending: ToplevelState {
                size: self.pending.size,
                fullscreen: true,
                activated: true,
                server_decoration: true,
            },
            ..self
        }
    }

    /// Set the general states of a new window.
    ///
    /// Windows are active, in fullscreen for the handheld experience and
    /// always decorated by the server.
    pub fn prepare(&mut self)
        ensures
            *final(self) == old(self).prepared(),
            *final(self) == (ToplevelSurface {
                pending: ToplevelState {
                    fullscreen: true,
                    activated: true,
                    server_decoration: true,
                    ..old(self).pending
                },
                ..*old(self)
            }),
    {
        self.pending.fullscreen = true;
        self.pending.activated = true;
        self.pending.server_decoration = true;
    }
}

impl Surface for ToplevelSurface {
    type State = ToplevelState;

    open spec fn wl_surface(&self) -> Option<u64> {
        Some(self.surface)
    }

    open spec fn is_alive(&self) -> bool {
        self.alive
    }

    open spec fn configured(&self) -> bool {
        self.initial_configure_sent
    }

    open spec fn takes_state(&self) -> bool {
        true
    }

    open spec fn with_state(self, state: ToplevelState) -> Self {
        ToplevelSurface { pending: state, ..self }
    }

    open spec fn with_size(self, size: Size) -> Self {
        ToplevelSurface { pending: ToplevelState { size: Some(size), ..self.pending }, ..self }
    }

    open spec fn size_request(&self, size: Size) -> Request {
        configure_if(self.initial_configure_sent)
    }

    open spec fn size_acked(&self) -> Size {
        size_or_none(self.current_size)
    }

    open spec fn visible_bounds(&self) -> Option<Rectangle> {
        self.geometry
    }

    open spec fn with_fullscreen(self, fullscreen: bool) -> Self {
        ToplevelSurface { pending: ToplevelState { fullscreen, ..self.pending }, ..self }
    }

    open spec fn fullscreen_request(&self, fullscreen: bool) -> Request {
        configure_if(self.initial_configure_sent)
    }

    open spec fn with_activated(self, activated: bool) -> Self {
        ToplevelSurface { pending: ToplevelState { activated, ..self.pending }, ..self }
    }

    open spec fn activated_request(&self, activated: bool) -> Request {
        configure_if(self.initial_configure_sent)
    }

    open spec fn close_request(&self) -> Request {
        Request::Close
    }

    open spec fn title_text(&self) -> Option<String> {
        self.title
    }

    open spec fn app_id_text(&self) -> Option<String> {
        self.app_id
    }

    open spec fn attached(&self) -> Option<SurfaceData> {
        self.data
    }

    fn surface(&self) -> (r: u64) {
        self.surface
    }

    fn maybe_surface(&self) -> (r: Option<u64>) {
        Some(self.surface)
    }

    fn alive(&self) -> (r: bool) {
        self.alive
    }

    fn initial_configure_sent(&self) -> (r: bool) {
        self.initial_configure_sent
    }

    fn set_state(&mut self, state: ToplevelState) -> (r: Request) {
        self.pending = state;
        send_if(self.initial_configure_sent)
    }

    fn resize(&mut self, size: Size) -> (r: Request) {
        self.pending.size = Some(size);
        send_if(self.initial_configure_sent)
    }

    fn acked_size(&self) -> (r: Size) {
        unwrap_size(self.current_size)
    }

    fn geometry(&self) -> (r: Option<Rectangle>) {
        self.geometry
    }

    fn set_fullscreen(&mut self, fullscreen: bool) -> (r: Request) {
        self.pending.fullscreen = fullscreen;
        send_if(self.initial_configure_sent)
    }

    fn set_activated(&mut self, activated: bool) -> (r: Request) {
        self.pending.activated = activated;
        send_if(self.initial_configure_sent)
    }

    fn send_close(&self) -> (r: Request) {
        Request::Close
    }

    fn title(&self) -> (r: Option<String>) {
        clone_opt(&self.title)
    }

    fn app_id(&self) -> (r: Option<String>) {
        clone_opt(&self.app_id)
    }

    fn surface_data(&self) -> (r: Option<SurfaceData>) {
        self.data
    }
}

/// X11 window.
#[derive(Debug, PartialEq, Eq)]
pub struct X11Surface {
    pub window: u32,
    pub alive: bool,
    /// Associated Wayland surface, missing until XWayland has announced it.
    pub wl_surface: Option<u64>,
    pub title: String,
    pub class: String,
    pub geometry: Rectangle,
    pub data: Option<SurfaceData>,
}

/// A wrapper for different shell surfaces.
#[derive(Debug, PartialEq, Eq)]
pub enum ShellSurface {
    Xdg(ToplevelSurface),
    X11(X11Surface),
}

impl ShellSurface {
    /// Handle of the surface.
    pub open spec fn as_handle(&self) -> SurfaceHandle {
        match self {
            ShellSurface::Xdg(s) => SurfaceHandle::Xdg(s.surface),
            ShellSurface::X11(s) => SurfaceHandle::X11(s.window),
        }
    }

    /// Get the handle of the surface.
    pub fn handle(&self) -> (r: SurfaceHandle)
        ensures
            r == self.as_handle(),
    {
        match self {
            ShellSurface::Xdg(s) => SurfaceHandle::Xdg(s.surface),
            ShellSurface::X11(s) => SurfaceHandle::X11(s.window),
        }
    }
}

impl Surface for ShellSurface {
    type State = ();

    open spec fn wl_surface(&self) -> Option<u64> {
        match self {
            ShellSurface::Xdg(s) => s.wl_surface(),
            ShellSurface::X11(s) => s.wl_surface,
        }
    }

    open spec fn is_alive(&self) -> bool {
        match self {
            ShellSurface::Xdg(s) => s.alive,
            ShellSurface::X11(s) => s.alive,
        }
    }

    open spec fn configured(&self) -> bool {
        match self {
            ShellSurface::Xdg(s) => s.configured(),
            ShellSurface::X11(_) => true,
        }
    }

    open spec fn takes_state(&self) -> bool {
        false
    }

    open spec fn with_state(self, state: ()) -> Self {
        self
    }

    open spec fn with_size(self, size: Size) -> Self {
        match self {
            ShellSurface::Xdg(s) => ShellSurface::Xdg(s.with_size(size)),
            ShellSurface::X11(s) => ShellSurface::X11(s),
        }
    }

    open spec fn size_request(&self, size: Size) -> Request {
        match self {
            ShellSurface::Xdg(s) => s.size_request(size),
            ShellSurface::X11(_) => Request::X11Configure(Rectangle::of_size(size)),
        }
    }

    open spec fn size_acked(&self) -> Size {
        match self {
            ShellSurface::Xdg(s) => s.size_acked(),
            ShellSurface::X11(s) => s.geometry.size,
        }
    }

    open spec fn visible_bounds(&self) -> Option<Rectangle> {
        match self {
            ShellSurface::Xdg(s) => s.visible_bounds(),
            ShellSurface::X11(s) => Some(s.geometry),
        }
    }

    open spec fn with_fullscreen(self, fullscreen: bool) -> Self {
        match self {
            ShellSurface::Xdg(s) => ShellSurface::Xdg(s.with_fullscreen(fullscreen)),
            ShellSurface::X11(s) => ShellSurface::X11(s),
        }
    }

    open spec fn fullscreen_request(&self, fullscreen: bool) -> Request {
        match self {
            ShellSurface::Xdg(s) => s.fullscreen_request(fullscreen),
            ShellSurface::X11(_) => Request::X11Fullscreen(fullscreen),
        }
    }

    open spec fn with_activated(self, activated: bool) -> Self {
        match self {
            ShellSurface::Xdg(s) => ShellSurface::Xdg(s.with_activated(activated)),
            ShellSurface::X11(s) => ShellSurface::X11(s),
        }
    }

    open spec fn activated_request(&self, activated: bool) -> Request {
        match self {
            ShellSurface::Xdg(s) => s.activated_request(activated),
            ShellSurface::X11(_) => Request::X11Activated(activated),
        }
    }

    open spec fn close_request(&self) -> Request {
        match self {
            ShellSurface::Xdg(s) => s.close_request(),
            ShellSurface::X11(_) => Request::X11Close,
        }
    }

    open spec fn title_text(&self) -> Option<String> {
        match self {
            ShellSurface::Xdg(s) => s.title,
            ShellSurface::X11(s) => Some(s.title),
        }
    }

    open spec fn app_id_text(&self) -> Option<String> {
        match self {
            ShellSurface::Xdg(s) => s.app_id,
            ShellSurface::X11(s) => Some(s.class),
        }
    }

    open spec fn attached(&self) -> Option<SurfaceData> {
        match self {
            ShellSurface::Xdg(s) => s.data,
            ShellSurface::X11(s) => if s.wl_surface is Some {
                s.data
            } else {
                None
            },
        }
    }

    fn surface(&self) -> (r: u64) {
        match self {
            ShellSurface::Xdg(s) => s.surface,
            ShellSurface::X11(s) => s.wl_surface.unwrap(),
        }
    }

    fn maybe_surface(&self) -> (r: Option<u64>) {
        match self {
            ShellSurface::Xdg(s) => Some(s.surface),
            ShellSurface::X11(s) => s.wl_surface,
        }
    }

    fn alive(&self) -> (r: bool) {
        match self {
            ShellSurface::Xdg(s) => s.alive,
            ShellSurface::X11(s) => s.alive,
        }
    }

    fn initial_configure_sent(&self) -> (r: bool) {
        match self {
            ShellSurface::Xdg(s) => s.initial_configure_sent,
            ShellSurface::X11(_) => true,
        }
    }

    /// Shell surfaces have no state in common, use specific methods.
    fn set_state(&mut self, state: ()) -> (r: Request) {
        Request::Nothing
    }

    fn resize(&mut self, size: Size) -> (r: Request) {
        match self {
            ShellSurface::Xdg(s) => s.resize(size),
            ShellSurface::X11(_) => Request::X11Configure(Rectangle::from_size(size)),
        }
    }

    fn acked_size(&self) -> (r: Size) {
        match self {
            ShellSurface::Xdg(s) => s.acked_size(),
            ShellSurface::X11(s) => s.geometry.size,
        }
    }

    fn geometry(&self) -> (r: Option<Rectangle>) {
        match self {
            ShellSurface::Xdg(s) => s.geometry,
            ShellSurface::X11(s) => Some(s.geometry),
        }
    }

    fn set_fullscreen(&mut self, fullscreen: bool) -> (r: Request) {
        match self {
            ShellSurface::Xdg(s) => s.set_fullscreen(fullscreen),
            ShellSurface::X11(_) => Request::X11Fullscreen(fullscreen),
        }
    }

    fn set_activated(&mut self, activated: bool) -> (r: Request) {
        match self {
            ShellSurface::Xdg(s) => s.set_activated(activated),
            ShellSurface::X11(_) => Request::X11Activated(activated),
        }
    }

    fn send_close(&self) -> (r: Request) {
        match self {
            ShellSurface::Xdg(_) => Request::Close,
            ShellSurface::X11(_) => Request::X11Close,
        }
    }

    fn title(&self) -> (r: Option<String>) {
        match self {
            ShellSurface::Xdg(s) => clone_opt(&s.title),
            ShellSurface::X11(s) => Some(s.title.clone()),
        }
    }

    fn app_id(&self) -> (r: Option<String>) {
        match self {
            ShellSurface::Xdg(s) => clone_opt(&s.app_id),
            ShellSurface::X11(s) => Some(s.class.clone()),
        }
    }

    fn surface_data(&self) -> (r: Option<SurfaceData>) {
        match self {
            ShellSurface::Xdg(s) => s.data,
            ShellSurface::X11(s) => if s.wl_surface.is_some() {
                s.data
            } else {
                None
            },
        }
    }
}

/// State of an XDG popup.
#[derive(Clone, Copy, Debug, PartialEq, Eq, Structural)]
pub struct PopupState {
    /// Size of the popup.
    pub rect_size: Size,
    /// Location relative to the popup's parent.
    pub geometry: Rectangle,
}

/// XDG popup.
#[derive(Clone, Copy, Debug, PartialEq, Eq, Structural)]
pub struct PopupSurface {
    pub surface: u64,
    pub alive: bool,
    pub initial_configure_sent: bool,
    /// State for the next configure.
    pub pending: PopupState,
    /// Geometry set by the client.
    pub geometry: Option<Rectangle>,
    pub data: Option<SurfaceData>,
}

impl Surface for PopupSurface {
    type State = PopupState;

    open spec fn wl_surface(&self) -> Option<u64> {
        Some(self.surface)
    }

    open spec fn is_alive(&self) -> bool {
        self.alive
    }

    open spec fn configured(&self) -> bool {
        self.initial_configure_sent
    }

    open spec fn takes_state(&self) -> bool {
        true
    }

    open spec fn with_state(self, state: PopupState) -> Self {
        PopupSurface { pending: state, ..self }
    }

    open spec fn with_size(self, size: Size) -> Self {
        self
    }

    open spec fn size_request(&self, size: Size) -> Request {
        Request::Nothing
    }

    open spec fn size_acked(&self) -> Size {
        self.pending.rect_size
    }

    open spec fn visible_bounds(&self) -> Option<Rectangle> {
        self.geometry
    }

    open spec fn with_fullscreen(self, fullscreen: bool) -> Self {
        self
    }

    open spec fn fullscreen_request(&self, fullscreen: bool) -> Request {
        Request::Nothing
    }

    open spec fn with_activated(self, activated: bool) -> Self {
        self
    }

    open spec fn activated_request(&self, activated: bool) -> Request {
        Request::Nothing
    }

    open spec fn close_request(&self) -> Request {
        Request::Nothing
    }

    open spec fn title_text(&self) -> Option<String> {
        None
    }

    open spec fn app_id_text(&self) -> Option<String> {
        None
    }

    open spec fn attached(&self) -> Option<SurfaceData> {
        self.data
    }

    fn surface(&self) -> (r: u64) {
        self.surface
    }

    fn maybe_surface(&self) -> (r: Option<u64>) {
        Some(self.surface)
    }

    fn alive(&self) -> (r: bool) {
        self.alive
    }

    fn initial_configure_sent(&self) -> (r: bool) {
        self.initial_configure_sent
    }

    fn set_state(&mut self, state: PopupState) -> (r: Request) {
        self.pending = state;
        send_if(self.initial_configure_sent)
    }

    fn resize(&mut self, size: Size) -> (r: Request) {
        Request::Nothing
    }

    fn acked_size(&self) -> (r: Size) {
        self.pending.rect_size
    }

    fn geometry(&self) -> (r: Option<Rectangle>) {
        self.geometry
    }

    fn set_fullscreen(&mut self, fullscreen: bool) -> (r: Request) {
        Request::Nothing
    }

    fn set_activated(&mut self, activated: bool) -> (r: Request) {
        Request::Nothing
    }

    fn send_close(&self) -> (r: Request) {
        Request::Nothing
    }

    fn title(&self) -> (r: Option<String>) {
        None
    }

    fn app_id(&self) -> (r: Option<String>) {
        None
    }

    fn surface_data(&self) -> (r: Option<SurfaceData>) {
        self.data
    }
}

/// Space that a layer shell window asks for.
#[derive(Clone, Copy, Debug, PartialEq, Eq, Structural)]
pub enum ExclusiveZone {
    /// Keep other windows out of this distance from the edge.
    Exclusive(u32),
    /// Stay clear of other exclusive zones.
    Neutral,
    /// Use the whole space.
    DontCare,
}

/// Edges that a layer shell window is anchored to.
#[derive(Clone, Copy, Debug, PartialEq, Eq, Structural)]
pub struct Anchor {
    pub top: bool,
    pub bottom: bool,
    pub left: bool,
    pub right: bool,
}

/// Layer shell surface.
#[derive(Clone, Copy, Debug, PartialEq, Eq, Structural)]
pub struct LayerSurface {
    pub surface: u64,
    pub alive: bool,
    pub initial_configure_sent: bool,
    /// Size for the next configure.
    pub pending_size: Option<Size>,
    /// Size in the state acknowledged last.
    pub current_size: Option<Size>,
    pub data: Option<SurfaceData>,
}

/// Layer shell surface with its place on the output.
#[derive(Clone, Copy, Debug, PartialEq, Eq, Structural)]
pub struct CatacombLayerSurface {
    pub exclusive_zone: ExclusiveZone,
    pub anchor: Anchor,
    pub surface: LayerSurface,
    pub layer: Layer,
}

impl CatacombLayerSurface {
    /// Create a surface which is anchored nowhere and reserves no space.
    pub fn new(layer: Layer, surface: LayerSurface) -> (r: Self)
        ensures
            r == (CatacombLayerSurface {
                exclusive_zone: ExclusiveZone::Neutral,
                anchor: Anchor { top: false, bottom: false, left: false, right: false },
                surface: surface,
                layer: layer,
            }),
    {
        CatacombLayerSurface {
            exclusive_zone: ExclusiveZone::Neutral,
            anchor: Anchor { top: false, bottom: false, left: false, right: false },
            surface,
            layer,
        }
    }

    /// Get the layer.
    pub fn layer(&self) -> (r: Layer)
        ensures
            r == self.layer,
    {
        self.layer
    }
}

impl Surface for CatacombLayerSurface {
    type State = Option<Size>;

    open spec fn wl_surface(&self) -> Option<u64> {
        Some(self.surface.surface)
    }

    open spec fn is_alive(&self) -> bool {
        self.surface.alive
    }

    open spec fn configured(&self) -> bool {
        self.surface.initial_configure_sent
    }

    open spec fn takes_state(&self) -> bool {
        true
    }

    open spec fn with_state(self, state: Option<Size>) -> Self {
        CatacombLayerSurface {
            surface: LayerSurface { pending_size: state, ..self.surface },
            ..self
        }
    }

    open spec fn with_size(self, size: Size) -> Self {
        self.with_state(Some(size))
    }

    open spec fn size_request(&self, size: Size) -> Request {
        configure_if(self.configured())
    }

    open spec fn size_acked(&self) -> Size {
        size_or_none(self.surface.current_size)
    }

    open spec fn visible_bounds(&self) -> Option<Rectangle> {
        None
    }

    open spec fn with_fullscreen(self, fullscreen: bool) -> Self {
        self
    }

    open spec fn fullscreen_request(&self, fullscreen: bool) -> Request {
        Request::Nothing
    }

    open spec fn with_activated(self, activated: bool) -> Self {
        self
    }

    open spec fn activated_request(&self, activated: bool) -> Request {
        Request::Nothing
    }

    open spec fn close_request(&self) -> Request {
        Request::Nothing
    }

    open spec fn title_text(&self) -> Option<String> {
        None
    }

    open spec fn app_id_text(&self) -> Option<String> {
        None
    }

    open spec fn attached(&self) -> Option<SurfaceData> {
        self.surface.data
    }

    fn surface(&self) -> (r: u64) {
        self.surface.surface
    }

    fn maybe_surface(&self) -> (r: Option<u64>) {
        Some(self.surface.surface)
    }

    fn alive(&self) -> (r: bool) {
        self.surface.alive
    }

    fn initial_configure_sent(&self) -> (r: bool) {
        self.surface.initial_configure_sent
    }

    fn set_state(&mut self, state: Option<Size>) -> (r: Request) {
        self.surface.pending_size = state;
        send_if(self.surface.initial_configure_sent)
    }

    fn resize(&mut self, size: Size) -> (r: Request) {
        self.set_state(Some(size))
    }

    fn acked_size(&self) -> (r: Size) {
        unwrap_size(self.surface.current_size)
    }

    fn geometry(&self) -> (r: Option<Rectangle>) {
        None
    }

    fn set_fullscreen(&mut self, fullscreen: bool) -> (r: Request) {
        Request::Nothing
    }

    fn set_activated(&mut self, activated: bool) -> (r: Request) {
        Request::Nothing
    }

    fn send_close(&self) -> (r: Request) {
        Request::Nothing
    }

    fn title(&self) -> (r: Option<String>) {
        None
    }

    fn app_id(&self) -> (r: Option<String>) {
        None
    }

    fn surface_data(&self) -> (r: Option<SurfaceData>) {
        self.surface.data
    }
}

/// Size of a session lock surface.
#[derive(Clone, Copy, Debug, PartialEq, Eq, Structural)]
pub struct LockSize {
    pub w: u32,
    pub h: u32,
}

/// Session lock surface.
#[derive(Clone, Copy, Debug, PartialEq, Eq, Structural)]
pub struct LockSurface {
    pub surface: u64,
    pub alive: bool,
    /// Size for the next configure.
    pub pending_size: Option<LockSize>,
    /// Size in the state acknowledged last.
    pub current_size: Option<LockSize>,
    pub data: Option<SurfaceData>,
}

impl Surface for LockSurface {
    type State = Option<LockSize>;

    open spec fn wl_surface(&self) -> Option<u64> {
        Some(self.surface)
    }

    open spec fn is_alive(&self) -> bool {
        self.alive
    }

    open spec fn configured(&self) -> bool {
        true
    }

    open spec fn takes_state(&self) -> bool {
        true
    }

    open spec fn with_state(self, state: Option<LockSize>) -> Self {
        LockSurface { pending_size: state, ..self }
    }

    open spec fn with_size(self, size: Size) -> Self {
        self.with_state(Some(LockSize { w: size.w as u32, h: size.h as u32 }))
    }

    open spec fn size_request(&self, size: Size) -> Request {
        Request::Configure
    }

    open spec fn size_acked(&self) -> Size {
        match self.current_size {
            Some(size) => Size { w: size.w as i32, h: size.h as i32 },
            None => no_size(),
        }
    }

    open spec fn visible_bounds(&self) -> Option<Rectangle> {
        None
    }

    open spec fn with_fullscreen(self, fullscreen: bool) -> Self {
        self
    }

    open spec fn fullscreen_request(&self, fullscreen: bool) -> Request {
        Request::Nothing
    }

    open spec fn with_activated(self, activated: bool) -> Self {
        self
    }

    open spec fn activated_request(&self, activated: bool) -> Request {
        Request::Nothing
    }

    open spec fn close_request(&self) -> Request {
        Request::Nothing
    }

    open spec fn title_text(&self) -> Option<String> {
        None
    }

    open spec fn app_id_text(&self) -> Option<String> {
        None
    }

    open spec fn attached(&self) -> Option<SurfaceData> {
        self.data
    }

    fn surface(&self) -> (r: u64) {
        self.surface
    }

    fn maybe_surface(&self) -> (r: Option<u64>) {
        Some(self.surface)
    }

    fn alive(&self) -> (r: bool) {
        self.alive
    }

    /// The initial configure is sent as soon as the surface is bound.
    fn initial_configure_sent(&self) -> (r: bool) {
        true
    }

    fn set_state(&mut self, state: Option<LockSize>) -> (r: Request) {
        self.pending_size = state;
        Request::Configure
    }

    fn resize(&mut self, size: Size) -> (r: Request) {
        self.set_state(
            Some(
                LockSize {
                    w: #[verifier::truncate] (size.w as u32),
                    h: #[verifier::truncate] (size.h as u32),
                },
            ),
        )
    }

    fn acked_size(&self) -> (r: Size) {
        match self.current_size {
            Some(size) => Size {
                w: #[verifier::truncate] (size.w as i32),
                h: #[verifier::truncate] (size.h as i32),
            },
            None => Size { w: 0, h: 0 },
        }
    }

    fn geometry(&self) -> (r: Option<Rectangle>) {
        None
    }

    fn set_fullscreen(&mut self, fullscreen: bool) -> (r: Request) {
        Request::Nothing
    }

    fn set_activated(&mut self, activated: bool) -> (r: Request) {
        Request::Nothing
    }

    fn send_close(&self) -> (r: Request) {
        Request::Nothing
    }

    fn title(&self) -> (r: Option<String>) {
        None
    }

    fn app_id(&self) -> (r: Option<String>) {
        None
    }

    fn surface_data(&self) -> (r: Option<SurfaceData>) {
        self.data
    }
}

/// Location with fractions.
#[derive(Clone, Copy, Debug, PartialEq, Eq, Structural)]
pub struct FloatPoint {
    pub x: FloatBits,
    pub y: FloatBits,
}

/// Surface for touch input handling.
#[derive(Debug, PartialEq, Eq)]
pub struct InputSurface {
    pub toplevel: Option<InputSurfaceKind>,
    pub surface_offset: FloatPoint,
    pub surface_scale: FloatBits,
    pub surface: u64,
}

impl InputSurface {
    /// Create a surface which does not take the focus.
    pub fn new(surface: u64, surface_offset: FloatPoint, surface_scale: FloatBits) -> (r: Self)
        ensures
            r == (InputSurface {
                toplevel: None,
                surface_offset: surface_offset,
                surface_scale: surface_scale,
                surface: surface,
            }),
    {
        InputSurface { surface, surface_scale, surface_offset, toplevel: None }
    }
}

/// Types of input surfaces.
#[derive(Debug, PartialEq, Eq)]
pub enum InputSurfaceKind {
    /// Window in the layouts by its key, with its App ID.
    Layout((u64, Option<String>)),
    /// Layer shell window by its surface, with its App ID.
    Layer((u64, Option<String>)),
}

impl InputSurfaceKind {
    /// App ID of the surface.
    pub open spec fn id(self) -> Option<String> {
        match self {
            InputSurfaceKind::Layout((_, app_id)) => app_id,
            InputSurfaceKind::Layer((_, app_id)) => app_id,
        }
    }

    /// The same surface without App ID.
    pub open spec fn anonymous(self) -> InputSurfaceKind {
        match self {
            InputSurfaceKind::Layout((window, _)) => InputSurfaceKind::Layout((window, None)),
            InputSurfaceKind::Layer((surface, _)) => InputSurfaceKind::Layer((surface, None)),
        }
    }

    /// Extract the App ID from this surface.
    pub fn take_app_id(&mut self) -> (r: Option<String>)
        ensures
            r == old(self).id(),
            *final(self) == old(self).anonymous(),
    {
        match self {
            InputSurfaceKind::Layout(kind) => kind.1.take(),
            InputSurfaceKind::Layer(kind) => kind.1.take(),
        }
    }
}

} // verus!
