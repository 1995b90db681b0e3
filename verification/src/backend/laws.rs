//! What holds of output devices and their setup.

use vstd::prelude::*;

use crate::backend::drm::{
    after_phase, chosen_device, crtc_keys, crtc_order, ends_search, method_for, millimeters,
    property_handle, renders, saving_value, search_result, surface_order, swapped, usable_in,
    widest, BufferKind, ConnectorInfo, CopyMethod, Crtc, DeviceNode, OutputDevice, Property,
    PropertyChange, PropertyError, RenderedFrame, Screencopy, SearchPhase, SearchStep, ShmBuffer,
    UnsupportedBuffer,
};
use crate::backend::formats::{
    any_plane, chosen, contents, distinct, lemma_chosen, linear, plane_formats, render_formats,
    selected, within, Format, Plane,
};
use crate::backend::modes::{
    is_wanted, law_modes_are_found_exactly, law_reduced_modes_differ_in_one_flag, signed,
    trial_order, wanted_mode, within_bandwidth, DrmMode, ModeNotFound,
};
use crate::backend::setup::{attempt_of, tunings, DrmSetup, NamedProperty, SetupPhase, Tuning};
use crate::backend::sorting::{lemma_order_is_complete, precedes, stable_order};
use crate::backend::udev::{frame_after, DeviceError, NextFrame, Udev};
use crate::geometry::{Point, Rectangle, Size};
use crate::lists::{first, lemma_first_index};
use crate::text::occurs_in;
use crate::trials::Trials;
use crate::windows::scene::Mode;

verus! {

/// The largest width is that of some mode, and no mode is wider.
pub proof fn law_widest_mode(modes: Seq<DrmMode>, n: int)
    requires
        0 <= n <= modes.len(),
    ensures
        forall|i: int| 0 <= i < n ==> (#[trigger] modes[i]).hdisplay <= widest(modes, n),
        n > 0 ==> exists|i: int| 0 <= i < n && (#[trigger] modes[i]).hdisplay == widest(modes, n),
        n == 0 ==> widest(modes, n) == 0,
    decreases n,
{
    if n > 0 {
        law_widest_mode(modes, n - 1);
        if modes[n - 1].hdisplay > widest(modes, n - 1) {
            assert(modes[n - 1].hdisplay == widest(modes, n));
        } else if n - 1 > 0 {
            let i = choose|i: int|
                0 <= i < n - 1 && (#[trigger] modes[i]).hdisplay == widest(modes, n - 1);
            assert(modes[i].hdisplay == widest(modes, n));
        } else {
            assert(modes[0].hdisplay == widest(modes, 1));
        }
    }
}

/// High resolutions are waited for, and lower ones are taken after ten attempts.
///
/// After the search for a resolution any connected display is taken, and then
/// any port for one, whether it is connected or not.
pub proof fn law_usable_connectors(info: ConnectorInfo, attempt: u32)
    ensures
        info.max_width() == widest(info.modes@, info.modes.len() as int),
        info.connected && info.max_width() >= 1920 ==> info.usable(
            SearchPhase::HighResolution(attempt),
        ),
        info.connected && attempt > 10 && info.max_width() >= 640 ==> info.usable(
            SearchPhase::HighResolution(attempt),
        ),
        attempt <= 10 && info.max_width() < 1920 ==> !info.usable(
            SearchPhase::HighResolution(attempt),
        ),
        info.max_width() < 640 ==> !info.usable(SearchPhase::HighResolution(attempt)),
        !info.connected ==> !info.usable(SearchPhase::HighResolution(attempt)),
        info.usable(SearchPhase::Connected) <==> info.connected,
        occurs_in("HDMI"@, info.interface@) ==> info.usable(SearchPhase::Port),
        occurs_in("DisplayPort"@, info.interface@) ==> info.usable(SearchPhase::Port),
        info.usable(SearchPhase::Port) ==> occurs_in("HDMI"@, info.interface@) || occurs_in(
            "DisplayPort"@,
            info.interface@,
        ),
{
}

/// The first usable connector is taken.
pub proof fn law_first_usable_connector_is_taken(
    phase: SearchPhase,
    connectors: Seq<Option<ConnectorInfo>>,
    at: int,
)
    requires
        0 <= at < connectors.len(),
        connectors.len() <= usize::MAX,
    ensures
        (connectors[at] matches Some(info) && info.usable(phase)) && (forall|i: int|
            0 <= i < at ==> !(#[trigger] connectors[i] matches Some(info) && info.usable(phase)))
            ==> search_result(phase, connectors) == SearchStep::Found(at as usize)
            && DrmSetup::phase_after_search(phase, connectors) == SetupPhase::Tune(connectors[at]->0)
            && DrmSetup::search_pause(phase, connectors) is None,
        !(search_result(phase, connectors) is Found) ==> !(connectors[at] matches Some(info)
            && info.usable(phase)),
{
    let p = usable_in(phase);
    lemma_first_index(connectors, p, 0);
    assert forall|i: int| 0 <= i < connectors.len() implies p(connectors[i]) == (
    #[trigger] connectors[i] matches Some(info) && info.usable(phase)) by {}
}

/// Without usable connector the search goes on: every half a second for sixty attempts, and then
/// at once with less demanding phases.
pub proof fn law_search_becomes_less_demanding(
    phase: SearchPhase,
    connectors: Seq<Option<ConnectorInfo>>,
)
    requires
        forall|i: int|
            0 <= i < connectors.len() ==> !(#[trigger] connectors[i] matches Some(info)
                && info.usable(phase)),
    ensures
        search_result(phase, connectors) == after_phase(phase),
        phase matches SearchPhase::HighResolution(attempt) ==> attempt < 60 ==> {
            let next = SearchPhase::HighResolution((attempt + 1) as u32);
            &&& search_result(phase, connectors) == SearchStep::Continue { phase: next, pause: 500 }
            &&& DrmSetup::phase_after_search(phase, connectors) == SetupPhase::Search(next)
            &&& DrmSetup::search_pause(phase, connectors) == Some(500u64)
        },
        phase matches SearchPhase::HighResolution(attempt) ==> attempt >= 60 ==> {
            &&& search_result(phase, connectors) == SearchStep::Continue {
                phase: SearchPhase::Connected,
                pause: 0,
            }
            &&& DrmSetup::phase_after_search(phase, connectors) == SetupPhase::Search(
                SearchPhase::Connected,
            )
            &&& DrmSetup::search_pause(phase, connectors) == Some(0u64)
        },
        phase is Connected ==> {
            &&& search_result(phase, connectors) == SearchStep::Continue {
                phase: SearchPhase::Port,
                pause: 0,
            }
            &&& DrmSetup::phase_after_search(phase, connectors) == SetupPhase::Search(
                SearchPhase::Port,
            )
            &&& DrmSetup::search_pause(phase, connectors) == Some(0u64)
        },
        phase is Port ==> {
            &&& search_result(phase, connectors) == SearchStep::Failed
            &&& DrmSetup::phase_after_search(phase, connectors) == SetupPhase::Failed
            &&& DrmSetup::search_pause(phase, connectors) is None
        },
{
    let p = usable_in(phase);
    lemma_first_index(connectors, p, 0);
    assert forall|i: int| 0 <= i < connectors.len() implies p(connectors[i]) == (
    #[trigger] connectors[i] matches Some(info) && info.usable(phase)) by {}
}

/// Bandwidth is saved by the color space and by the color depth, and by no other property.
pub proof fn law_two_properties_save_bandwidth(name: Seq<char>)
    ensures
        name == "Colorspace"@ ==> saving_value(name) == Some(10u64),
        name == "max bpc"@ ==> saving_value(name) == Some(8u64),
        name != "Colorspace"@ && name != "max bpc"@ ==> saving_value(name) is None,
{
    reveal_strlit("Colorspace");
    reveal_strlit("max bpc");
    assert("Colorspace"@.len() != "max bpc"@.len());
}

/// Properties are tuned one by one in their order, each with the value that saves bandwidth.
pub proof fn law_properties_are_tuned_in_order(properties: Seq<NamedProperty>, n: int)
    requires
        0 <= n < properties.len(),
    ensures
        tunings(properties, 0).len() == 0,
        saving_value(properties[n].name@) is None ==> tunings(properties, n + 1) == tunings(
            properties,
            n,
        ),
        saving_value(properties[n].name@) matches Some(value) ==> tunings(properties, n + 1)
            == tunings(properties, n) + seq![Tuning { property: properties[n].handle, value }],
{
}

/// The physical size of a display keeps its width and height, and is empty if it is unknown.
pub proof fn law_physical_size(w: u32, h: u32)
    ensures
        w <= i32::MAX ==> millimeters(Some((w, h))).w == w,
        h <= i32::MAX ==> millimeters(Some((w, h))).h == h,
        millimeters(None) == (Size { w: 0, h: 0 }),
{
}

/// Sorting lists each index once, by its key, with equal keys in their order.
pub proof fn law_sorted_by_key(keys: Seq<i64>, order: Seq<usize>, i: int, j: int, k: usize)
    requires
        keys.len() <= usize::MAX,
        stable_order(keys, order),
        0 <= i < j < order.len(),
        k < keys.len(),
    ensures
        order.len() == keys.len(),
        order[i] < keys.len(),
        order[j] < keys.len(),
        keys[order[i] as int] <= keys[order[j] as int],
        keys[order[i] as int] == keys[order[j] as int] ==> order[i] < order[j],
        order[i] != order[j],
        order.contains(k),
{
    lemma_order_is_complete(keys, order);
    assert(precedes(keys, order[i] as int, order[j] as int));
}

/// Controllers with more overlay planes are tried first, and equal ones in their order.
///
/// A controller whose planes are unknown counts as one without any.
pub proof fn law_controllers_with_more_overlays_come_first(
    crtcs: Seq<Crtc>,
    handles: Seq<u32>,
    i: int,
    j: int,
)
    requires
        crtcs.len() <= usize::MAX,
        crtc_order(crtcs, handles),
        0 <= i < j < handles.len(),
    ensures
        handles.len() == crtcs.len(),
        exists|a: int, b: int|
            0 <= a < crtcs.len() && 0 <= b < crtcs.len() && a != b && (
            #[trigger] crtcs[a]).handle == handles[i] && (#[trigger] crtcs[b]).handle == handles[j]
                && ({
                let first: int = match crtcs[a].overlays {
                    Some(overlays) => overlays as int,
                    None => 0,
                };
                let second: int = match crtcs[b].overlays {
                    Some(overlays) => overlays as int,
                    None => 0,
                };
                first > second || (first == second && a < b)
            }),
        forall|c: int|
            0 <= c < crtcs.len() ==> handles.contains((#[trigger] crtcs[c]).handle),
{
    let keys = crtc_keys(crtcs);
    let order = choose|order: Seq<usize>| #[trigger]
        stable_order(keys, order) && handles == Seq::new(
            order.len(),
            |i: int| crtcs[order[i] as int].handle,
        );
    lemma_order_is_complete(keys, order);
    assert(precedes(keys, order[i] as int, order[j] as int));
    let a = order[i] as int;
    let b = order[j] as int;
    assert(crtcs[a].handle == handles[i]);
    assert(crtcs[b].handle == handles[j]);
    assert(keys[a] == crtcs[a].key());
    assert(keys[b] == crtcs[b].key());
    assert forall|c: int| 0 <= c < crtcs.len() implies handles.contains(
        (#[trigger] crtcs[c]).handle,
    ) by {
        assert(order.contains(c as usize));
        let k = choose|k: int| 0 <= k < order.len() && order[k] == c as usize;
        assert(handles[k] == crtcs[c].handle);
    }
}

/// Encoders are tried in their order, without those which could not be read.
pub proof fn law_encoders_are_tried_in_order(
    encoders: Seq<Option<Vec<Crtc>>>,
    handles: Seq<u32>,
    crtcs: Vec<Crtc>,
)
    requires
        encoders.len() == 1,
    ensures
        encoders[0] == Some(crtcs) ==> (surface_order(encoders, handles, 1) <==> crtc_order(
            crtcs@,
            handles,
        )),
        encoders[0] is None ==> (surface_order(encoders, handles, 1) <==> handles.len() == 0),
{
    reveal_with_fuel(surface_order, 2);
    assert(handles.take(0).len() == 0);
    assert(handles.skip(0) =~= handles);
    assert(surface_order(encoders, handles.take(0), 0));
}

/// More encoders go on where fewer have ended.
pub proof fn law_encoders_follow_each_other(
    encoders: Seq<Option<Vec<Crtc>>>,
    before: Seq<u32>,
    after: Seq<u32>,
    n: int,
)
    requires
        0 <= n < encoders.len(),
        surface_order(encoders, before, n),
    ensures
        encoders[n] matches Some(crtcs) ==> crtc_order(crtcs@, after) ==> surface_order(
            encoders,
            before + after,
            n + 1,
        ),
        encoders[n] is None ==> surface_order(encoders, before, n + 1),
{
    let k = before.len() as int;
    assert((before + after).take(k) =~= before);
    assert((before + after).skip(k) =~= after);
}

/// A property is found by its name, unless one before it cannot be read.
pub proof fn law_properties_are_found_by_name(
    properties: Seq<Property>,
    name: Seq<char>,
    at: int,
)
    requires
        0 <= at < properties.len(),
        forall|i: int|
            0 <= i < at ==> ((#[trigger] properties[i]).name matches Ok(text) && text@ != name),
    ensures
        properties[at].name matches Ok(text) ==> text@ == name ==> property_handle(properties, name)
            == Ok::<u32, PropertyError>(properties[at].handle),
        properties[at].name matches Err(err) ==> property_handle(properties, name) == Err::<
            u32,
            PropertyError,
        >(err),
        at == properties.len() - 1 ==> (properties[at].name matches Ok(text) ==> text@ != name
            ==> property_handle(properties, name) == Err::<u32, PropertyError>(
            PropertyError::Missing,
        )),
{
    let p = ends_search(name);
    lemma_first_index(properties, p, 0);
    assert(p(properties[at]) == (match properties[at].name {
        Ok(text) => text@ == name,
        Err(_) => true,
    }));
    assert forall|i: int| 0 <= i < at implies !p(#[trigger] properties[i]) by {}
}

/// The output is switched on or off by the property for that.
pub proof fn law_power_is_a_property(properties: Seq<Property>, enabled: bool)
    ensures
        property_handle(properties, "ACTIVE"@) matches Ok(handle) ==> OutputDevice::power_change(
            properties,
            enabled,
        ) == Ok::<PropertyChange, PropertyError>(
            PropertyChange { property: handle, value: enabled },
        ),
        property_handle(properties, "ACTIVE"@) matches Err(err) ==> OutputDevice::power_change(
            properties,
            enabled,
        ) == Err::<PropertyChange, PropertyError>(err),
{
}

/// Pixels are copied to a buffer of exactly the region's size, row by row.
pub proof fn law_buffers_fit_their_region(buffer: ShmBuffer, size: Size)
    requires
        buffer.comparable(size),
        buffer.len <= i32::MAX,
    ensures
        buffer.copied_pixels(size) is Ok <==> buffer.argb && buffer.stride == size.w * 4
            && buffer.height == size.h && buffer.len == buffer.stride * buffer.height,
        buffer.copied_pixels(size) matches Ok(count) ==> count == size.w * size.h,
{
}

/// The first and third byte of each copied pixel change places, and all others stay.
pub proof fn law_channels_are_swapped(bytes: Seq<u8>, count: int, pixel: int, byte: int)
    requires
        0 <= count,
        4 * count <= bytes.len(),
    ensures
        swapped(bytes, count).len() == bytes.len(),
        0 <= pixel < count ==> {
            let r = swapped(bytes, count);
            &&& r[4 * pixel] == bytes[4 * pixel + 2]
            &&& r[4 * pixel + 1] == bytes[4 * pixel + 1]
            &&& r[4 * pixel + 2] == bytes[4 * pixel]
            &&& r[4 * pixel + 3] == bytes[4 * pixel + 3]
        },
        4 * count <= byte < bytes.len() ==> swapped(bytes, count)[byte] == bytes[byte],
{
}

/// Buffers in video memory are blitted, shared memory is read back, and nothing else is copied.
pub proof fn law_copies_depend_on_the_buffer()
    ensures
        method_for(BufferKind::Dma) == Ok::<CopyMethod, UnsupportedBuffer>(CopyMethod::Blit),
        method_for(BufferKind::Shm) == Ok::<CopyMethod, UnsupportedBuffer>(CopyMethod::ReadBack),
        method_for(BufferKind::Other) is Err,
{
}

/// The output's own device is preferred for buffers, and the first one that renders replaces it.
pub proof fn law_first_rendering_device_is_chosen(
    own: DeviceNode,
    devices: Seq<DeviceNode>,
    at: int,
)
    requires
        0 <= at < devices.len(),
    ensures
        own.has_render ==> chosen_device(own, devices) == Some(own.id),
        !own.has_render && devices[at].has_render && (forall|i: int|
            0 <= i < at ==> !(#[trigger] devices[i]).has_render) ==> chosen_device(own, devices)
            == Some(devices[at].id),
        !own.has_render && chosen_device(own, devices) is None ==> !devices[at].has_render,
        !own.has_render && (forall|i: int|
            0 <= i < devices.len() ==> !(#[trigger] devices[i]).has_render) ==> chosen_device(
            own,
            devices,
        ) is None,
{
    let p = renders();
    lemma_first_index(devices, p, 0);
    assert forall|i: int| 0 <= i < devices.len() implies p(devices[i]) == (
    #[trigger] devices[i]).has_render by {}
}

/// A requested copy covers its region, and frames are queued unless they are empty.
pub proof fn law_copies_cover_their_region(device: OutputDevice, empty: bool)
    ensures
        device.frame_handling(empty).queue <==> !empty,
        device.screencopy is None ==> device.frame_handling(empty).copy is None,
        device.screencopy matches Some(copy) ==> device.frame_handling(empty).copy == Some(
            (copy, Rectangle { loc: Point { x: 0, y: 0 }, size: copy.region.size }),
        ),
{
}

/// A mode which is set has the wanted size and refresh rate, with reduced chroma for 4K alone.
pub proof fn law_wanted_modes_are_set(modes: Seq<DrmMode>, wanted: Mode, at: int)
    requires
        0 <= at < modes.len(),
        modes[at].hdisplay == wanted.size.w,
        modes[at].vdisplay == wanted.size.h,
        signed(modes[at].vrefresh) * 1000 == wanted.refresh,
        forall|i: int|
            0 <= i < at ==> (#[trigger] modes[i]).hdisplay != wanted.size.w || modes[i].vdisplay
                != wanted.size.h || signed(modes[i].vrefresh) * 1000 != wanted.refresh,
    ensures
        ({
            let large = (modes[at].hdisplay == 3840 || modes[at].hdisplay == 4096)
                && modes[at].vdisplay == 2160;
            &&& !large ==> wanted_mode(modes, wanted) == Ok::<DrmMode, ModeNotFound>(modes[at])
            &&& large ==> (wanted_mode(modes, wanted) matches Ok(mode) && mode == (DrmMode {
                flags: mode.flags,
                ..modes[at]
            }) && mode.flags & 0x8000 == 0x8000 && mode.flags & !0x8000u32 == modes[at].flags
                & !0x8000u32)
        }),
{
    law_modes_are_found_exactly(modes, wanted, at);
    law_reduced_modes_differ_in_one_flag(modes[at]);
}

/// Without the wanted mode, none is set.
pub proof fn law_other_modes_are_not_set(modes: Seq<DrmMode>, wanted: Mode)
    requires
        forall|i: int|
            0 <= i < modes.len() ==> (#[trigger] modes[i]).hdisplay != wanted.size.w
                || modes[i].vdisplay != wanted.size.h || signed(modes[i].vrefresh) * 1000
                != wanted.refresh,
    ensures
        wanted_mode(modes, wanted) == Err::<DrmMode, ModeNotFound>(ModeNotFound),
{
    let p = is_wanted(wanted);
    lemma_first_index(modes, p, 0);
    assert forall|i: int| 0 <= i < modes.len() implies !p(#[trigger] modes[i]) by {}
}

/// All modes of a connector are tried as they fit the bandwidth, and a connector without modes
/// fails.
pub proof fn law_connectors_are_tried_with_all_modes(
    after: SetupPhase,
    info: ConnectorInfo,
    at: int,
)
    requires
        DrmSetup::tries_modes(after, info),
    ensures
        info.modes.len() == 0 ==> after == SetupPhase::Failed,
        info.modes.len() > 0 ==> (after matches SetupPhase::Try { connector, trials } && {
            &&& connector.handle == info.handle
            &&& connector.interface == info.interface
            &&& connector.size == info.size
            &&& connector.connected == info.connected
            &&& connector.modes.len() == info.modes.len()
            &&& 0 <= at < info.modes.len() ==> connector.modes[at] == within_bandwidth(
                info.modes[at],
            )
            &&& trial_order(connector.modes@, trials.items@)
            &&& trials.failed == 0
            &&& !trials.worked
        }),
{
}

/// A mode which works ends the setup with the hardware mode that was tried, and one which does
/// not work makes room for the next one.
pub proof fn law_attempts_end_or_go_on(
    setup: DrmSetup,
    connector: ConnectorInfo,
    trials: Trials<DrmMode>,
)
    requires
        setup.phase == (SetupPhase::Try { connector, trials }),
        trials.failed < trials.items.len(),
        !trials.worked,
    ensures
        ({
            let candidate = trials.items[trials.failed as int];
            let done = setup.with_attempt_done(true);
            let next = setup.with_attempt_done(false);
            &&& setup.upcoming() == Some(attempt_of(candidate))
            &&& attempt_of(candidate).candidate == candidate
            &&& candidate.hdisplay != 3840 || candidate.vdisplay != 2160
                ==> attempt_of(candidate).hardware == candidate
            &&& candidate.hdisplay == 3840 && candidate.vdisplay == 2160
                ==> attempt_of(candidate).hardware.flags & 0x8000 == 0x8000
            &&& done.phase == SetupPhase::Done { connector, attempt: attempt_of(candidate) }
            &&& done.upcoming() is None
            &&& trials.failed + 1 < trials.items.len() ==> next.upcoming() == Some(
                attempt_of(trials.items[trials.failed + 1]),
            )
            &&& trials.failed + 1 == trials.items.len() ==> next.phase == SetupPhase::Failed
            &&& done.formats == setup.formats
            &&& next.formats == setup.formats
        }),
{
    law_reduced_modes_differ_in_one_flag(trials.items[trials.failed as int]);
}

/// First occurrences are all that there is, and nothing comes twice.
proof fn lemma_distinct(list: Seq<Format>, n: int)
    requires
        0 <= n <= list.len(),
    ensures
        forall|f: Format|
            #![trigger distinct(list, n).contains(f)]
            distinct(list, n).contains(f) <==> list.take(n).contains(f),
        distinct(list, n).no_duplicates(),
    decreases n,
{
    if n > 0 {
        lemma_distinct(list, n - 1);
        let before = distinct(list, n - 1);
        let after = distinct(list, n);
        assert forall|f: Format|
            #![trigger after.contains(f)]
            after.contains(f) <==> list.take(n).contains(f) by {
            if after.contains(f) {
                if before.contains(f) {
                    let head = list.take(n - 1);
                    let i = choose|i: int| 0 <= i < head.len() && head[i] == f;
                    assert(list.take(n)[i] == f);
                } else {
                    let k = choose|k: int| 0 <= k < after.len() && after[k] == f;
                    if k < before.len() {
                        assert(before[k] == f);
                    }
                    assert(list.take(n)[n - 1] == f);
                }
            }
            if list.take(n).contains(f) {
                let head = list.take(n);
                let i = choose|i: int| 0 <= i < head.len() && head[i] == f;
                if i < n - 1 {
                    assert(list.take(n - 1)[i] == f);
                    assert(before.contains(f));
                }
                if before.contains(f) {
                    let k = choose|k: int| 0 <= k < before.len() && before[k] == f;
                    assert(after[k] == f);
                } else {
                    assert(after[before.len() as int] == f);
                }
            }
        }
    } else {
        assert(list.take(0).len() == 0);
    }
}

proof fn lemma_plane_formats(planes: Seq<Plane>, n: int, format: Format)
    requires
        0 <= n <= planes.len(),
    ensures
        plane_formats(planes, n).contains(format) <==> exists|i: int|
            0 <= i < n && contents((#[trigger] planes[i]).formats).contains(format),
    decreases n,
{
    if n > 0 {
        lemma_plane_formats(planes, n - 1, format);
        let before = plane_formats(planes, n - 1);
        let last = contents(planes[n - 1].formats);
        let after = plane_formats(planes, n);
        if before.contains(format) {
            let k = choose|k: int| 0 <= k < before.len() && before[k] == format;
            assert(after[k] == format);
        }
        if last.contains(format) {
            let k = choose|k: int| 0 <= k < last.len() && last[k] == format;
            assert(after[before.len() + k] == format);
        }
        if after.contains(format) {
            let k = choose|k: int| 0 <= k < after.len() && after[k] == format;
            if k < before.len() {
                assert(before[k] == format);
            } else {
                assert(last[k - before.len()] == format);
            }
        }
    }
}

/// A format is preferred for planes exactly if the renderer and some plane support it.
pub proof fn law_any_supporting_plane_suffices(
    planes: Seq<Plane>,
    renderer: Seq<Format>,
    format: Format,
)
    ensures
        any_plane(planes, renderer).contains(format) <==> renderer.contains(format) && exists|
            i: int,
        |
            0 <= i < planes.len() && contents((#[trigger] planes[i]).formats).contains(format),
{
    let all = plane_formats(planes, planes.len() as int);
    let once = distinct(all, all.len() as int);
    lemma_chosen(once, within(renderer), once.len() as int);
    lemma_distinct(all, all.len() as int);
    lemma_plane_formats(planes, planes.len() as int, format);
    assert(all.take(all.len() as int) =~= all);
    assert(once.take(once.len() as int) =~= once);
    assert(once.contains(format) <==> all.contains(format));
    assert(any_plane(planes, renderer).contains(format) <==> within(renderer)(format)
        && once.contains(format));
}

/// Formats without modifier are used if there are any, and else all formats in their order.
pub proof fn law_linear_formats_are_used(list: Seq<Format>, format: Format)
    ensures
        (exists|i: int| 0 <= i < list.len() && (#[trigger] list[i]).1 == 0) ==> (render_formats(
            list,
        ).contains(format) <==> list.contains(format) && format.1 == 0),
        (forall|i: int| 0 <= i < list.len() ==> (#[trigger] list[i]).1 != 0) ==> render_formats(list)
            == list,
{
    let linear_formats = chosen(list, linear(), list.len() as int);
    lemma_chosen(list, linear(), list.len() as int);
    assert(list.take(list.len() as int) =~= list);
    if exists|i: int| 0 <= i < list.len() && (#[trigger] list[i]).1 == 0 {
        let i = choose|i: int| 0 <= i < list.len() && (#[trigger] list[i]).1 == 0;
        assert(list.contains(list[i]));
        assert(linear()(list[i]));
        assert(linear_formats.contains(list[i]));
        assert(linear_formats.contains(format) <==> linear()(format) && list.contains(format));
    } else if linear_formats.len() > 0 {
        let f = linear_formats[0];
        assert(linear_formats.contains(f));
        assert(linear()(f) && list.contains(f));
        let i = choose|i: int| 0 <= i < list.len() && list[i] == f;
        assert(list[i].1 == 0);
    }
}

/// Formats keep their order when some of them are chosen.
pub proof fn law_chosen_formats_keep_their_order(
    list: Seq<Format>,
    p: spec_fn(Format) -> bool,
    n: int,
)
    requires
        0 <= n < list.len(),
    ensures
        chosen(list, p, 0).len() == 0,
        p(list[n]) ==> chosen(list, p, n + 1) == chosen(list, p, n) + seq![list[n]],
        !p(list[n]) ==> chosen(list, p, n + 1) == chosen(list, p, n),
{
}

/// A frame is drawn just in time for the next vertical blank, or at once if it takes longer or
/// if that is unknown.
pub proof fn law_next_frame(interval: u64, needed: u64)
    ensures
        frame_after(interval, None) == NextFrame::Now,
        needed >= interval ==> frame_after(interval, Some(needed)) == NextFrame::Now,
        needed < interval ==> (frame_after(interval, Some(needed)) matches NextFrame::After(delay)
            && delay + needed == interval),
{
}

/// A copy is requested from the output device, in place of an earlier request.
pub proof fn law_copies_are_requested_from_the_device(u: Udev, screencopy: Screencopy)
    ensures
        u.output_device is None ==> u.with_screencopy(screencopy) == u,
        u.output_device matches Some(device) ==> {
            let t = u.with_screencopy(screencopy);
            &&& t.output_device matches Some(new) && new.screencopy == Some(screencopy) && new
                == (OutputDevice { screencopy: new.screencopy, ..device })
            &&& t.scheduled_redraws == u.scheduled_redraws
        },
{
}

/// A device which works becomes the output device, and a failure keeps the previous one.
///
/// Only opening a device which would block is tried again, if at all, after a
/// quarter of a second.
pub proof fn law_blocked_devices_are_tried_again(
    u: Udev,
    result: Result<OutputDevice, DeviceError>,
    retry: bool,
)
    ensures
        result matches Ok(device) ==> u.with_device(result).output_device == Some(device),
        result is Err ==> u.with_device(result) == u,
        u.with_device(result).scheduled_redraws == u.scheduled_redraws,
        retry && result == Err::<OutputDevice, DeviceError>(DeviceError::Open(Some(11i32)))
            ==> Udev::retry_delay(result, retry) == Some(250u64),
        !retry ==> Udev::retry_delay(result, retry) is None,
        result != Err::<OutputDevice, DeviceError>(DeviceError::Open(Some(11i32)))
            ==> Udev::retry_delay(result, retry) is None,
{
}

/// Only the output device is removed by its ID or replaced, and replacing it takes its path.
pub proof fn law_only_the_output_device_is_replaced(u: Udev, id: u64)
    ensures
        u.output_device is None ==> u.device_token(id) is None && u.device_path(id) is None
            && u.replacement(id) is None,
        u.output_device matches Some(device) ==> {
            &&& device.id == id ==> u.device_token(id) == Some(device.token) && u.device_path(id)
                == device.path
            &&& device.id != id ==> u.device_token(id) is None && u.replacement(id) is None
            &&& device.id == id ==> (device.path matches Some(path) ==> (u.replacement(
                id,
            ) matches Some(r) && r.token == device.token && r.path == path))
            &&& device.path is None ==> u.replacement(id) is None
        },
        u.replacement(id) is None ==> u.with_device_changed(id) == u,
        u.replacement(id) is Some ==> u.with_device_changed(id).output_device is None,
        u.without_device().output_device is None,
        u.without_device().scheduled_redraws == u.scheduled_redraws,
        u.with_device_changed(id).scheduled_redraws == u.scheduled_redraws,
{
}

/// Without output device nothing is set, drawn or rendered.
pub proof fn law_devices_are_needed_for_output<E>(
    u: Udev,
    on: bool,
    result: Result<RenderedFrame, E>,
)
    ensures
        u.output_device is Some ==> u.display_change(on).0 && u.display_change(on).1 == on,
        u.output_device is None ==> !u.display_change(on).0 && !u.display_change(on).1,
        u.output_device is Some ==> (result matches Ok(frame) ==> u.frame_of(result) == frame),
        u.output_device is None || result is Err ==> !u.frame_of(result).rendered && u.frame_of(
            result,
        ).gpu_fence is None,
{
}

/// The output device decides, and is known by its ID.
///
/// Without it a mode is set by doing nothing, and there are no buffer formats.
pub proof fn law_output_device_decides<E, T>(
    u: Udev,
    mode: Result<(), E>,
    feedback: Result<T, DeviceError>,
)
    ensures
        u.output_device matches Some(device) ==> {
            &&& u.mode_outcome(mode) == mode
            &&& u.feedback_outcome(feedback) == feedback
            &&& u.device_id() == Some(device.id)
        },
        u.output_device is None ==> {
            &&& u.mode_outcome(mode) is Ok
            &&& u.feedback_outcome(feedback) == Err::<T, DeviceError>(DeviceError::Missing)
            &&& u.device_id() is None
        },
{
}

/// Formats are selected for rendering as soon as there is any, and a setup starts with them.
pub proof fn law_setups_need_formats(formats: Seq<Format>, setup: DrmSetup)
    ensures
        formats.len() == 0 <==> selected(formats) is None,
        selected(formats) matches Some(list) ==> list == render_formats(formats) && list.len() > 0,
        setup.starts_with(formats) ==> setup.formats@ == render_formats(formats) && setup.phase
            == SetupPhase::Search(SearchPhase::HighResolution(1)),
{
}

/// New information on a connector replaces the previous one, which is used without any.
pub proof fn law_refreshed_connectors_are_used(previous: ConnectorInfo, info: ConnectorInfo)
    ensures
        DrmSetup::latest_info(previous, Some(info)) == info,
        DrmSetup::latest_info(previous, None) == previous,
{
}

} // verus!
