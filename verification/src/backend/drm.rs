//! DRM/KMS output backend.

use indexmap::IndexSet;
use vstd::prelude::*;

use crate::backend::formats::{all_planes, any_plane, contents};
use crate::backend::formats::{scanout_tranches, Plane, Tranches};
use crate::backend::modes::{is_wanted, modes_comparable, signed, wanted_mode};
use crate::backend::modes::{find_mode, to_signed, DrmMode, ModeNotFound};
use crate::backend::sorting::sort_indices;
use crate::backend::sorting::stable_order;
use crate::geometry::{Rectangle, Size};
use crate::lists::{first, first_index};
use crate::text::{contains_text, text_is};
use crate::text::occurs_in;
use crate::trials::Trials;
use crate::windows::scene::Mode;

verus! {

/// Attempts to find a connector with high resolution.
pub const SEARCH_ATTEMPTS: u32 = 60;

/// Attempts after which lower resolutions are accepted.
pub const PATIENT_ATTEMPTS: u32 = 10;

/// Pause between two attempts in milliseconds.
pub const SEARCH_PAUSE: u64 = 500;

/// Width of a high resolution.
pub const HIGH_WIDTH: u16 = 1920;

/// Smallest width which can be used.
pub const LOW_WIDTH: u16 = 640;

/// Connector of a display.
#[derive(Debug, PartialEq, Eq)]
pub struct ConnectorInfo {
    pub handle: u32,
    pub connected: bool,
    /// Name of the connector's interface.
    pub interface: String,
    pub modes: Vec<DrmMode>,
    /// Physical size of the display in millimeters.
    pub size: Option<(u32, u32)>,
}

/// Largest width among the first `n` modes.
pub open spec fn widest(modes: Seq<DrmMode>, n: int) -> u16
    decreases n,
{
    if n <= 0 {
        0
    } else if modes[n - 1].hdisplay > widest(modes, n - 1) {
        modes[n - 1].hdisplay
    } else {
        widest(modes, n - 1)
    }
}

/// Phase in the search for a connector.
#[derive(Clone, Copy, Debug, PartialEq, Eq, Structural)]
pub enum SearchPhase {
    /// Look for a high resolution, counting the attempts from one.
    HighResolution(u32),
    /// Look for any connected display.
    Connected,
    /// Look for any port that a display can be connected to.
    Port,
}

/// Next step in the search for a connector.
#[derive(Clone, Copy, Debug, PartialEq, Eq, Structural)]
pub enum SearchStep {
    /// Use the connector at an index.
    Found(usize),
    /// Go on after some milliseconds.
    Continue { phase: SearchPhase, pause: u64 },
    /// There is no connector.
    Failed,
}

impl ConnectorInfo {
    /// Largest width of the connector's modes.
    pub open spec fn max_width(self) -> u16 {
        widest(self.modes@, self.modes.len() as int)
    }

    /// Whether the connector can be used in a phase of the search.
    pub open spec fn usable(self, phase: SearchPhase) -> bool {
        match phase {
            SearchPhase::HighResolution(attempt) => self.connected && (self.max_width()
                >= HIGH_WIDTH || (attempt > PATIENT_ATTEMPTS && self.max_width() >= LOW_WIDTH)),
            SearchPhase::Connected => self.connected,
            SearchPhase::Port => occurs_in("HDMI"@, self.interface@) || occurs_in(
                "DisplayPort"@,
                self.interface@,
            ),
        }
    }

    /// Get the largest width of the connector's modes.
    fn find_max_width(&self) -> (r: u16)
        ensures
            r == self.max_width(),
    {
        let mut width: u16 = 0;
        let mut i: usize = 0;
        while i < self.modes.len()
            invariant
                i <= self.modes.len(),
                width == widest(self.modes@, i as int),
            decreases self.modes.len() - i,
        {
            if self.modes[i].hdisplay > width {
                width = self.modes[i].hdisplay;
            }
            i += 1;
        }
        width
    }

    /// Check if the connector can be used in a phase of the search.
    fn check_usable(&self, phase: SearchPhase) -> (r: bool)
        ensures
            r == self.usable(phase),
    {
        match phase {
            SearchPhase::HighResolution(attempt) => {
                let max_width: u16 = self.find_max_width();
                self.connected && (max_width >= HIGH_WIDTH || (attempt > PATIENT_ATTEMPTS
                    && max_width >= LOW_WIDTH))
            },
            SearchPhase::Connected => self.connected,
            SearchPhase::Port => contains_text(self.interface.as_str(), "HDMI") || contains_text(
                self.interface.as_str(),
                "DisplayPort",
            ),
        }
    }
}

/// Condition on connectors to be known and usable.
pub open spec fn usable_in(phase: SearchPhase) -> spec_fn(Option<ConnectorInfo>) -> bool {
    |c: Option<ConnectorInfo>| c matches Some(info) && info.usable(phase)
}

/// What follows a phase without usable connector.
pub open spec fn after_phase(phase: SearchPhase) -> SearchStep {
    match phase {
        SearchPhase::HighResolution(attempt) => if attempt < SEARCH_ATTEMPTS {
            SearchStep::Continue {
                phase: SearchPhase::HighResolution((attempt + 1) as u32),
                pause: SEARCH_PAUSE,
            }
        } else {
            SearchStep::Continue { phase: SearchPhase::Connected, pause: 0 }
        },
        SearchPhase::Connected => SearchStep::Continue { phase: SearchPhase::Port, pause: 0 },
        SearchPhase::Port => SearchStep::Failed,
    }
}

/// Next step in a search, given the connectors.
pub open spec fn search_result(
    phase: SearchPhase,
    connectors: Seq<Option<ConnectorInfo>>,
) -> SearchStep {
    match first_index(connectors, usable_in(phase), 0) {
        Some(i) => SearchStep::Found(i as usize),
        None => after_phase(phase),
    }
}

/// Look for a connector.
///
/// The handshake with a display can be slow, so high resolutions are waited
/// for. Connectors whose state could not be read are missing.
pub fn search_connector(phase: SearchPhase, connectors: &Vec<Option<ConnectorInfo>>) -> (r: SearchStep)
    ensures
        r == search_result(phase, connectors@),
        r == (match first_index(connectors@, usable_in(phase), 0) {
            Some(i) => SearchStep::Found(i as usize),
            None => after_phase(phase),
        }),
        r matches SearchStep::Found(i) ==> i < connectors.len() && connectors@[i as int] is Some,
{
    let mut i: usize = 0;
    while i < connectors.len()
        invariant
            i <= connectors.len(),
            first_index(connectors@, usable_in(phase), 0) == first_index(
                connectors@,
                usable_in(phase),
                i as int,
            ),
        decreases connectors.len() - i,
    {
        if let Some(connector) = &connectors[i] {
            if connector.check_usable(phase) {
                return SearchStep::Found(i);
            }
        }
        i += 1;
    }
    match phase {
        SearchPhase::HighResolution(attempt) => {
            if attempt < SEARCH_ATTEMPTS {
                SearchStep::Continue {
                    phase: SearchPhase::HighResolution(attempt + 1),
                    pause: SEARCH_PAUSE,
                }
            } else {
                SearchStep::Continue { phase: SearchPhase::Connected, pause: 0 }
            }
        },
        SearchPhase::Connected => SearchStep::Continue { phase: SearchPhase::Port, pause: 0 },
        SearchPhase::Port => SearchStep::Failed,
    }
}

/// Steps left in a search which never finds anything.
pub open spec fn steps_left(phase: SearchPhase) -> nat {
    match phase {
        SearchPhase::HighResolution(attempt) => if attempt < SEARCH_ATTEMPTS {
            (SEARCH_ATTEMPTS - attempt + 3) as nat
        } else {
            3
        },
        SearchPhase::Connected => 2,
        SearchPhase::Port => 1,
    }
}

/// Milliseconds waited in a search which never finds anything.
pub open spec fn pause_left(phase: SearchPhase) -> nat
    decreases steps_left(phase),
{
    match after_phase(phase) {
        SearchStep::Continue { phase: next, pause } => if steps_left(next) < steps_left(phase) {
            pause as nat + pause_left(next)
        } else {
            0
        },
        _ => 0,
    }
}

/// The search ends, after waiting for at most half a minute.
pub proof fn law_search_ends(phase: SearchPhase)
    requires
        phase matches SearchPhase::HighResolution(attempt) ==> 1 <= attempt,
    ensures
        after_phase(phase) matches SearchStep::Continue { phase: next, pause } ==> steps_left(next)
            < steps_left(phase),
        pause_left(phase) < 30_000,
        steps_left(SearchPhase::HighResolution(1)) == 62,
    decreases steps_left(phase),
{
    lemma_pause(phase);
}

proof fn lemma_pause(phase: SearchPhase)
    ensures
        pause_left(phase) == (match phase {
            SearchPhase::HighResolution(attempt) => if attempt < SEARCH_ATTEMPTS {
                (SEARCH_ATTEMPTS - attempt) * SEARCH_PAUSE
            } else {
                0
            },
            _ => 0,
        }),
    decreases steps_left(phase),
{
    if let SearchStep::Continue { phase: next, pause } = after_phase(phase) {
        lemma_pause(next);
    }
}

/// Value for a property of the connector which saves bandwidth.
pub open spec fn saving_value(name: Seq<char>) -> Option<u64> {
    if name == "Colorspace"@ {
        Some(10)
    } else if name == "max bpc"@ {
        Some(8)
    } else {
        None
    }
}

/// Get the value for a property of the connector which saves bandwidth.
///
/// The color space is `BT2020_YCC`, and the color depth is limited to eight
/// bits.
pub fn bandwidth_setting(name: &String) -> (r: Option<u64>)
    ensures
        r == saving_value(name@),
{
    if text_is(name, "Colorspace") {
        Some(10)
    } else if text_is(name, "max bpc") {
        Some(8)
    } else {
        None
    }
}

/// Physical size of a display.
pub open spec fn millimeters(size: Option<(u32, u32)>) -> Size {
    match size {
        Some((w, h)) => Size { w: signed(w) as i32, h: signed(h) as i32 },
        None => Size { w: 0, h: 0 },
    }
}

/// Get the physical size of a display, or nothing if it is unknown.
pub fn physical_size(size: Option<(u32, u32)>) -> (r: Size)
    ensures
        r == millimeters(size),
{
    match size {
        Some((w, h)) => Size { w: to_signed(w), h: to_signed(h) },
        None => Size { w: 0, h: 0 },
    }
}

/// Whether the refresh rates of all modes can be represented.
pub open spec fn refreshes_fit(modes: Seq<DrmMode>) -> bool {
    forall|i: int| 0 <= i < modes.len() ==> (#[trigger] modes[i]).refresh_fits()
}

/// Check if the refresh rates of all modes can be represented.
pub fn are_refreshes_representable(modes: &Vec<DrmMode>) -> (r: bool)
    ensures
        r == refreshes_fit(modes@),
{
    let mut i: usize = 0;
    while i < modes.len()
        invariant
            i <= modes.len(),
            forall|j: int| 0 <= j < i ==> (#[trigger] modes@[j]).refresh_fits(),
        decreases modes.len() - i,
    {
        if !modes[i].is_refresh_representable() {
            assert(!modes@[i as int].refresh_fits());
            return false;
        }
        i += 1;
    }
    true
}

/// Get the output modes of a display.
pub fn output_modes(modes: &Vec<DrmMode>) -> (r: Vec<Mode>)
    requires
        refreshes_fit(modes@),
    ensures
        r@ == modes@.map_values(|m: DrmMode| m.as_output()),
{
    let mut r: Vec<Mode> = Vec::new();
    let mut i: usize = 0;
    while i < modes.len()
        invariant
            i <= modes.len(),
            refreshes_fit(modes@),
            r.len() == i,
            forall|j: int| 0 <= j < i ==> r@[j] == modes@[j].as_output(),
        decreases modes.len() - i,
    {
        r.push(modes[i].output_mode());
        i += 1;
    }
    assert(r@ =~= modes@.map_values(|m: DrmMode| m.as_output()));
    r
}

/// Display controller with its number of overlay planes, if that is known.
#[derive(Clone, Copy, Debug, PartialEq, Eq, Structural)]
pub struct Crtc {
    pub handle: u32,
    pub overlays: Option<u32>,
}

impl Crtc {
    /// Number by which controllers are sorted.
    pub open spec fn key(self) -> i64 {
        match self.overlays {
            Some(overlays) => (0 - overlays) as i64,
            None => 0,
        }
    }
}

/// Numbers by which controllers are sorted.
pub open spec fn crtc_keys(crtcs: Seq<Crtc>) -> Seq<i64> {
    crtcs.map_values(|c: Crtc| c.key())
}

/// Whether handles are those of controllers in the order in which they are tried.
pub open spec fn crtc_order(crtcs: Seq<Crtc>, handles: Seq<u32>) -> bool {
    exists|order: Seq<usize>| #[trigger]
        stable_order(crtc_keys(crtcs), order) && handles == Seq::new(
            order.len(),
            |i: int| crtcs[order[i] as int].handle,
        )
}

/// Sort controllers by maximum number of overlay planes.
pub fn sort_crtcs(crtcs: &Vec<Crtc>) -> (r: Vec<u32>)
    ensures
        crtc_order(crtcs@, r@),
{
    let mut keys: Vec<i64> = Vec::new();
    let mut i: usize = 0;
    while i < crtcs.len()
        invariant
            i <= crtcs.len(),
            keys.len() == i,
            forall|j: int| 0 <= j < i ==> keys@[j] == crtcs@[j].key(),
        decreases crtcs.len() - i,
    {
        keys.push(
            match crtcs[i].overlays {
                Some(overlays) => 0 - overlays as i64,
                None => 0,
            },
        );
        i += 1;
    }
    assert(keys@ =~= crtc_keys(crtcs@));
    let order = sort_indices(&keys);
    let mut r: Vec<u32> = Vec::new();
    let mut i: usize = 0;
    while i < order.len()
        invariant
            i <= order.len(),
            keys.len() == crtcs.len(),
            stable_order(keys@, order@),
            r.len() == i,
            forall|j: int| 0 <= j < i ==> r@[j] == crtcs@[order@[j] as int].handle,
        decreases order.len() - i,
    {
        r.push(crtcs[order[i]].handle);
        i += 1;
    }
    assert(r@ =~= Seq::new(order.len() as nat, |i: int| crtcs@[order@[i] as int].handle));
    assert(stable_order(crtc_keys(crtcs@), order@));
    r
}

/// Whether handles are those of the controllers tried for the first `n` encoders.
///
/// Encoders which could not be read are skipped.
pub open spec fn surface_order(encoders: Seq<Option<Vec<Crtc>>>, handles: Seq<u32>, n: int) -> bool
    decreases n,
{
    if n <= 0 {
        handles.len() == 0
    } else {
        match encoders[n - 1] {
            Some(crtcs) => exists|k: int|
                #![trigger handles.take(k)]
                0 <= k <= handles.len() && surface_order(encoders, handles.take(k), n - 1)
                    && crtc_order(crtcs@, handles.skip(k)),
            None => surface_order(encoders, handles, n - 1),
        }
    }
}

/// Start to try controllers for a surface, most suitable first.
///
/// Each encoder of the connector comes with its compatible controllers. The
/// first controller which can show the surface is the one to use.
pub fn create_surface(encoders: &Vec<Option<Vec<Crtc>>>) -> (r: Trials<u32>)
    ensures
        surface_order(encoders@, r.items@, encoders.len() as int),
        r == (Trials { items: r.items, failed: 0, worked: false }),
{
    let mut r: Vec<u32> = Vec::new();
    let mut i: usize = 0;
    while i < encoders.len()
        invariant
            i <= encoders.len(),
            surface_order(encoders@, r@, i as int),
        decreases encoders.len() - i,
    {
        if let Some(crtcs) = &encoders[i] {
            let mut sorted = sort_crtcs(crtcs);
            let ghost before = r@;
            let ghost added = sorted@;
            r.append(&mut sorted);
            proof {
                let k = before.len() as int;
                assert(r@.take(k) =~= before);
                assert(r@.skip(k) =~= added);
                assert(surface_order(encoders@, r@, i as int + 1));
            }
        }
        i += 1;
    }
    Trials::new(r)
}

/// Name of a property which could not be read.
#[derive(Clone, Copy, Debug, PartialEq, Eq, Structural)]
pub enum PropertyError {
    /// The property's description is not available.
    Unavailable,
    /// The property's name is no text.
    InvalidName,
    /// No property has the name.
    Missing,
}

/// Property of a controller.
#[derive(Debug, PartialEq, Eq)]
pub struct Property {
    pub handle: u32,
    pub name: Result<String, PropertyError>,
}

/// Condition on properties to end the search for a name.
pub open spec fn ends_search(name: Seq<char>) -> spec_fn(Property) -> bool {
    |p: Property|
        match p.name {
            Ok(text) => text@ == name,
            Err(_) => true,
        }
}

/// Handle of the property with a name.
pub open spec fn property_handle(properties: Seq<Property>, name: Seq<char>) -> Result<
    u32,
    PropertyError,
> {
    match first(properties, ends_search(name)) {
        Some(property) => match property.name {
            Ok(_) => Ok(property.handle),
            Err(err) => Err(err),
        },
        None => Err(PropertyError::Missing),
    }
}

/// Get DRM property handle.
///
/// A property which cannot be read ends the search before the properties that
/// follow it.
pub fn get_drm_property(properties: &Vec<Property>, name: &str) -> (r: Result<u32, PropertyError>)
    ensures
        r == property_handle(properties@, name@),
        r == (match first(properties@, ends_search(name@)) {
            Some(property) => match property.name {
                Ok(_) => Ok::<u32, PropertyError>(property.handle),
                Err(err) => Err(err),
            },
            None => Err(PropertyError::Missing),
        }),
{
    let mut i: usize = 0;
    while i < properties.len()
        invariant
            i <= properties.len(),
            first_index(properties@, ends_search(name@), 0) == first_index(
                properties@,
                ends_search(name@),
                i as int,
            ),
        decreases properties.len() - i,
    {
        match &properties[i].name {
            Ok(text) => {
                if text_is(text, name) {
                    return Ok(properties[i].handle);
                }
            },
            Err(err) => {
                return Err(*err);
            },
        }
        i += 1;
    }
    Err(PropertyError::Missing)
}

proof fn lemma_product_fits(a: i32, b: i32)
    ensures
        i64::MIN <= a * b <= i64::MAX,
{
    assert(-0x4000_0000_0000_0000 <= a * b <= 0x4000_0000_0000_0000) by (nonlinear_arith)
        requires
            -0x8000_0000 <= a <= 0x7fff_ffff,
            -0x8000_0000 <= b <= 0x7fff_ffff,
    ;
}

/// Shared memory buffer of a client.
#[derive(Clone, Copy, Debug, PartialEq, Eq, Structural)]
pub struct ShmBuffer {
    /// Whether pixels are stored as 32 bit ARGB.
    pub argb: bool,
    pub stride: i32,
    pub height: i32,
    /// Length in bytes.
    pub len: usize,
}

/// The buffer does not fit the region which is copied.
#[derive(Clone, Copy, Debug, PartialEq, Eq, Structural)]
pub struct InvalidBuffer;

impl ShmBuffer {
    /// Length in bytes read as a signed number.
    pub open spec fn signed_len(&self) -> int {
        signed((self.len as int % 0x1_0000_0000) as u32)
    }

    /// Whether the rows of a region fill the buffer exactly.
    pub open spec fn matches_rows(&self, size: Size) -> bool {
        self.argb && self.stride == size.w * 4 && self.height == size.h
    }

    /// Whether a region fills the buffer exactly.
    pub open spec fn matches_region(&self, size: Size) -> bool {
        self.matches_rows(size) && self.signed_len() == self.stride * self.height
    }

    /// Whether the buffer can be compared with a region.
    pub open spec fn comparable(&self, size: Size) -> bool {
        &&& self.argb ==> i32::MIN <= size.w * 4 <= i32::MAX
        &&& self.matches_rows(size) ==> i32::MIN <= self.stride * self.height <= i32::MAX
        &&& self.matches_region(size) ==> 0 <= size.w * size.h <= i32::MAX
    }

    /// Check if the buffer can be compared with a region.
    pub fn is_comparable(&self, size: Size) -> (r: bool)
        ensures
            r == self.comparable(size),
    {
        if !self.argb {
            return true;
        }
        let row: i64 = size.w as i64 * 4;
        if row < -0x8000_0000 || row > 0x7fff_ffff {
            return false;
        }
        if self.stride as i64 != row || self.height != size.h {
            return true;
        }
        proof {
            lemma_product_fits(self.stride, self.height);
            lemma_product_fits(size.w, size.h);
        }
        let len: i64 = self.stride as i64 * self.height as i64;
        if len < -0x8000_0000 || len > 0x7fff_ffff {
            return false;
        }
        let own: u32 = (self.len as u64 % 0x1_0000_0000) as u32;
        if to_signed(own) as i64 != len {
            return true;
        }
        let count: i64 = size.w as i64 * size.h as i64;
        0 <= count && count <= 0x7fff_ffff
    }

    /// Number of pixels to copy to the buffer.
    pub open spec fn copied_pixels(&self, size: Size) -> Result<usize, InvalidBuffer> {
        if self.matches_region(size) {
            Ok((size.w * size.h) as usize)
        } else {
            Err(InvalidBuffer)
        }
    }

    /// Get the number of pixels to copy to the buffer.
    pub fn pixel_count(&self, size: Size) -> (r: Result<usize, InvalidBuffer>)
        requires
            self.comparable(size),
        ensures
            r == self.copied_pixels(size),
            match r {
                Ok(count) => self.matches_region(size) && count == size.w * size.h,
                Err(_) => !self.matches_region(size),
            },
    {
        if !self.argb {
            return Err(InvalidBuffer);
        }
        if self.stride != size.w * 4 {
            return Err(InvalidBuffer);
        }
        if self.height != size.h {
            return Err(InvalidBuffer);
        }
        let len: u32 = (self.len as u64 % 0x1_0000_0000) as u32;
        if to_signed(len) != self.stride * self.height {
            return Err(InvalidBuffer);
        }
        Ok((size.w * size.h) as usize)
    }
}

/// Bytes with the first and third byte of each of the first `count` pixels swapped.
pub open spec fn swapped(bytes: Seq<u8>, count: int) -> Seq<u8> {
    Seq::new(
        bytes.len(),
        |k: int|
            if k >= 4 * count {
                bytes[k]
            } else if k % 4 == 0 {
                bytes[k + 2]
            } else if k % 4 == 2 {
                bytes[k - 2]
            } else {
                bytes[k]
            },
    )
}

/// Convert OpenGL's RGBA to ARGB.
pub fn swap_channels(bytes: &mut Vec<u8>, count: usize)
    requires
        4 * count <= old(bytes).len(),
    ensures
        final(bytes)@ == swapped(old(bytes)@, count as int),
{
    let ghost before = bytes@;
    assert(swapped(before, 0) =~= before);
    let mut i: usize = 0;
    while i < count
        invariant
            i <= count,
            4 * count <= bytes.len(),
            bytes.len() == before.len(),
            bytes@ == swapped(before, i as int),
        decreases count - i,
    {
        let at: usize = i * 4;
        let red: u8 = bytes[at];
        let blue: u8 = bytes[at + 2];
        bytes.set(at, blue);
        bytes.set(at + 2, red);
        assert(bytes@ =~= swapped(before, i as int + 1));
        i += 1;
    }
}

/// Converting twice leads back to the same bytes.
pub proof fn law_swap_undoes_itself(bytes: Seq<u8>, count: int)
    requires
        0 <= count,
        4 * count <= bytes.len(),
    ensures
        swapped(swapped(bytes, count), count) == bytes,
{
    assert(swapped(swapped(bytes, count), count) =~= bytes);
}

/// Kind of a client's buffer.
#[derive(Clone, Copy, Debug, PartialEq, Eq, Structural)]
pub enum BufferKind {
    Dma,
    Shm,
    /// Any other kind, or an unknown one.
    Other,
}

/// Way to copy the frame to a client's buffer.
#[derive(Clone, Copy, Debug, PartialEq, Eq, Structural)]
pub enum CopyMethod {
    /// Blit the frame.
    Blit,
    /// Render again and read the pixels back.
    ReadBack,
}

/// The kind of buffer is not supported.
#[derive(Clone, Copy, Debug, PartialEq, Eq, Structural)]
pub struct UnsupportedBuffer;

/// Way to copy the frame to a kind of buffer.
pub open spec fn method_for(kind: BufferKind) -> Result<CopyMethod, UnsupportedBuffer> {
    match kind {
        BufferKind::Dma => Ok(CopyMethod::Blit),
        BufferKind::Shm => Ok(CopyMethod::ReadBack),
        BufferKind::Other => Err(UnsupportedBuffer),
    }
}

/// Choose the way to copy the frame to a client's buffer.
pub fn copy_method(kind: BufferKind) -> (r: Result<CopyMethod, UnsupportedBuffer>)
    ensures
        r == method_for(kind),
        r == (match kind {
            BufferKind::Dma => Ok::<CopyMethod, UnsupportedBuffer>(CopyMethod::Blit),
            BufferKind::Shm => Ok(CopyMethod::ReadBack),
            BufferKind::Other => Err(UnsupportedBuffer),
        }),
{
    match kind {
        BufferKind::Dma => Ok(CopyMethod::Blit),
        BufferKind::Shm => Ok(CopyMethod::ReadBack),
        BufferKind::Other => Err(UnsupportedBuffer),
    }
}

/// Device node which might be able to render.
#[derive(Clone, Copy, Debug, PartialEq, Eq, Structural)]
pub struct DeviceNode {
    pub id: u64,
    pub has_render: bool,
}

/// No device is able to render.
#[derive(Clone, Copy, Debug, PartialEq, Eq, Structural)]
pub struct NoRenderNode;

/// Condition on devices to be able to render.
pub open spec fn renders() -> spec_fn(DeviceNode) -> bool {
    |node: DeviceNode| node.has_render
}

/// Device for buffer feedback.
pub open spec fn chosen_device(own: DeviceNode, devices: Seq<DeviceNode>) -> Option<u64> {
    if own.has_render {
        Some(own.id)
    } else {
        match first(devices, renders()) {
            Some(node) => Some(node.id),
            None => None,
        }
    }
}

/// Choose the device for buffer feedback.
///
/// This device is expected to have a render node, so if the output's own
/// device doesn't have one, we fall back to the first one that does.
pub fn feedback_device(own: DeviceNode, devices: &Vec<DeviceNode>) -> (r: Result<u64, NoRenderNode>)
    ensures
        r == (match chosen_device(own, devices@) {
            Some(id) => Ok::<u64, NoRenderNode>(id),
            None => Err(NoRenderNode),
        }),
{
    if own.has_render {
        return Ok(own.id);
    }
    let mut i: usize = 0;
    while i < devices.len()
        invariant
            i <= devices.len(),
            !own.has_render,
            first_index(devices@, renders(), 0) == first_index(devices@, renders(), i as int),
        decreases devices.len() - i,
    {
        if devices[i].has_render {
            return Ok(devices[i].id);
        }
        i += 1;
    }
    Err(NoRenderNode)
}

/// Information about a rendered frame.
#[derive(Clone, Copy, Debug, PartialEq, Eq, Structural)]
pub struct RenderedFrame {
    /// File descriptor of a fence for measuring frame completion.
    pub gpu_fence: Option<i32>,
    pub rendered: bool,
}

/// Request to copy the next frame.
#[derive(Clone, Copy, Debug, PartialEq, Eq, Structural)]
pub struct Screencopy {
    pub id: u64,
    pub region: Rectangle,
}

/// Target device for rendering.
#[derive(Debug, PartialEq, Eq)]
pub struct OutputDevice {
    pub id: u64,
    /// Registration of the device's events.
    pub token: u64,
    pub connector: u32,
    /// Path of the device, if it is known.
    pub path: Option<String>,
    pub screencopy: Option<Screencopy>,
}

/// What has to be done with a rendered frame.
#[derive(Clone, Copy, Debug, PartialEq, Eq)]
pub struct FrameResult {
    /// Copy to make before the frame is shown, with its damage.
    pub copy: Option<(Screencopy, Rectangle)>,
    /// Whether the frame is queued for display.
    pub queue: bool,
}

/// Change of a controller's property.
#[derive(Clone, Copy, Debug, PartialEq, Eq, Structural)]
pub struct PropertyChange {
    pub property: u32,
    pub value: bool,
}

/// Buffer formats announced to clients.
pub struct DmabufFeedback {
    /// Device for rendering.
    pub device: u64,
    /// Formats in the order of preference.
    pub tranches: Tranches,
}

impl OutputDevice {
    /// Create the device for a connector.
    pub fn new(id: u64, token: u64, connector: u32, path: Option<String>) -> (r: OutputDevice)
        ensures
            r == (OutputDevice {
                id: id,
                token: token,
                connector: connector,
                path: path,
                screencopy: None,
            }),
    {
        OutputDevice { id, token, connector, path, screencopy: None }
    }

    /// Set the output mode.
    ///
    /// Returns the hardware mode to use, out of the modes of the connector.
    pub fn set_mode(&self, modes: &Vec<DrmMode>, mode: Mode) -> (r: Result<DrmMode, ModeNotFound>)
        requires
            modes_comparable(modes@, mode),
        ensures
            r == wanted_mode(modes@, mode),
            match first(modes@, is_wanted(mode)) {
                Some(found) => r == Ok::<DrmMode, ModeNotFound>(
                    if found.four_k() {
                        found.reduced()
                    } else {
                        found
                    },
                ),
                None => r == Err::<DrmMode, ModeNotFound>(ModeNotFound),
            },
    {
        find_mode(modes, mode)
    }

    /// Change of the output's power state.
    pub open spec fn power_change(properties: Seq<Property>, enabled: bool) -> Result<
        PropertyChange,
        PropertyError,
    > {
        match property_handle(properties, "ACTIVE"@) {
            Ok(property) => Ok(PropertyChange { property, value: enabled }),
            Err(err) => Err(err),
        }
    }

    /// Set output DPMS state.
    ///
    /// Returns the change to make, out of the properties of the controller.
    pub fn set_enabled(&self, properties: &Vec<Property>, enabled: bool) -> (r: Result<
        PropertyChange,
        PropertyError,
    >)
        ensures
            r == Self::power_change(properties@, enabled),
            r == (match first(properties@, ends_search("ACTIVE"@)) {
                Some(property) => match property.name {
                    Ok(_) => Ok::<PropertyChange, PropertyError>(
                        PropertyChange { property: property.handle, value: enabled },
                    ),
                    Err(err) => Err(err),
                },
                None => Err(PropertyError::Missing),
            }),
    {
        match get_drm_property(properties, "ACTIVE") {
            Ok(property) => Ok(PropertyChange { property, value: enabled }),
            Err(err) => Err(err),
        }
    }

    /// What has to be done with a frame.
    pub open spec fn frame_handling(&self, empty: bool) -> FrameResult {
        FrameResult {
            copy: match self.screencopy {
                Some(screencopy) => Some(
                    (screencopy, Rectangle::of_size(screencopy.region.size)),
                ),
                None => None,
            },
            queue: !empty,
        }
    }

    /// Render a frame.
    ///
    /// Takes what has to be done with the frame. A requested copy covers its
    /// region entirely and is made only once. Nothing is queued if everything
    /// used direct scanout.
    pub fn render(&mut self, empty: bool) -> (r: FrameResult)
        ensures
            r == old(self).frame_handling(empty),
            *final(self) == (OutputDevice { screencopy: None, ..*old(self) }),
            r == (FrameResult {
                copy: match old(self).screencopy {
                    Some(screencopy) => Some(
                        (screencopy, Rectangle::of_size(screencopy.region.size)),
                    ),
                    None => None,
                },
                queue: !empty,
            }),
    {
        let copy = match self.screencopy.take() {
            Some(screencopy) => Some((screencopy, Rectangle::from_size(screencopy.region.size))),
            None => None,
        };
        FrameResult { copy, queue: !empty }
    }

    /// Default dma surface feedback.
    ///
    /// `own` is the output's own device, and `devices` are all devices.
    pub fn default_dmabuf_feedback(
        &self,
        renderer: &IndexSet<(u32, u64)>,
        primary: &Vec<Plane>,
        overlay: &Vec<Plane>,
        own: DeviceNode,
        devices: &Vec<DeviceNode>,
    ) -> (r: Result<DmabufFeedback, NoRenderNode>)
        ensures
            match chosen_device(own, devices@) {
                Some(device) => {
                    &&& r matches Ok(feedback) && {
                        &&& feedback.device == device
                        &&& feedback.tranches.renderer@ == contents(*renderer)
                        &&& feedback.tranches.all_overlay@ == all_planes(
                            overlay@,
                            contents(*renderer),
                        )
                        &&& feedback.tranches.any_overlay@ == any_plane(
                            overlay@,
                            contents(*renderer),
                        )
                        &&& feedback.tranches.primary@ == any_plane(primary@, contents(*renderer))
                    }
                },
                None => r is Err,
            },
    {
        let tranches = scanout_tranches(renderer, primary, overlay);
        match feedback_device(own, devices) {
            Ok(device) => Ok(DmabufFeedback { device, tranches }),
            Err(err) => Err(err),
        }
    }
}

} // verus!
