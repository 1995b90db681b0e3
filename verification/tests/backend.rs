use catacomb::backend::drm::{
    are_refreshes_representable, bandwidth_setting, copy_method, create_surface, feedback_device,
    get_drm_property, output_modes, physical_size, search_connector, sort_crtcs, swap_channels,
    BufferKind, ConnectorInfo, CopyMethod, Crtc, DeviceNode, InvalidBuffer, NoRenderNode, OutputDevice,
    Property, PropertyChange, PropertyError, RenderedFrame, Screencopy, SearchPhase, SearchStep,
    ShmBuffer, UnsupportedBuffer,
};
use catacomb::backend::formats::{scanout_tranches, select_formats, supported_by_all, Plane};
use catacomb::backend::modes::{
    are_comparable, candidate_modes, find_mode, fit_bandwidth, prepare_mode, to_signed, DrmMode, ModeNotFound,
    PREFERRED, YCBCR420_ONLY,
};
use catacomb::backend::setup::{DrmSetup, NamedProperty, SetupPhase, Tuning};
use catacomb::backend::sorting::sort_indices;
use catacomb::backend::udev::{
    add_device, next_frame, DeviceError, NextFrame, Replacement, Udev, DRM_RETRY_DELAY, WOULD_BLOCK,
};
use catacomb::geometry::{Point, Rectangle, Size};
use catacomb::windows::scene::Mode;
use indexmap::IndexSet;

fn mode(w: u16, h: u16, vrefresh: u32) -> DrmMode {
    DrmMode {
        clock: 1,
        hdisplay: w,
        hsync_start: 0,
        hsync_end: 0,
        htotal: 0,
        hskew: 0,
        vdisplay: h,
        vsync_start: 0,
        vsync_end: 0,
        vtotal: 0,
        vscan: 0,
        vrefresh,
        flags: 1,
        mode_type: 0,
        name: [7; 32],
    }
}

fn preferred(mode: DrmMode) -> DrmMode {
    DrmMode { mode_type: PREFERRED | 64, ..mode }
}

fn reduced(mode: DrmMode) -> DrmMode {
    DrmMode { flags: mode.flags | YCBCR420_ONLY, ..mode }
}

fn connector(handle: u32, connected: bool, interface: &str, width: u16) -> Option<ConnectorInfo> {
    Some(ConnectorInfo {
        handle,
        connected,
        interface: interface.to_string(),
        modes: vec![mode(320, 200, 60), mode(width, 480, 60)],
        size: Some((160, u32::MAX)),
    })
}

fn set(formats: &[(u32, u64)]) -> IndexSet<(u32, u64)> {
    formats.iter().copied().collect()
}

fn plane(formats: &[(u32, u64)]) -> Plane {
    Plane { formats: set(formats) }
}

#[test]
fn numbers_are_read_as_signed() {
    for number in [0, 1, 0x7fff_ffff, 0x8000_0000, 0x8000_0001, u32::MAX] {
        assert_eq!(to_signed(number), number as i32);
    }
}

#[test]
fn sorting_is_stable() {
    assert_eq!(sort_indices(&vec![3, 1, 2, 1, 3]), vec![1, 3, 2, 0, 4]);
    assert_eq!(sort_indices(&Vec::new()), Vec::new());
}

#[test]
fn fast_4k_modes_are_reduced() {
    let before =
        vec![mode(3840, 2160, 50), mode(3840, 2160, 49), mode(4096, 2160, 60), mode(1920, 1080, 60)];
    let mut modes = before.clone();
    fit_bandwidth(&mut modes);
    assert_eq!(modes, vec![reduced(before[0]), before[1], reduced(before[2]), before[3]]);
    let once = modes.clone();
    fit_bandwidth(&mut modes);
    assert_eq!(modes, once);
}

#[test]
fn best_modes_are_tried_first() {
    let a = mode(800, 600, 60);
    let b = mode(1024, 768, 60);
    let fast = mode(640, 480, 144);
    let best = preferred(mode(1920, 1080, 30));
    let trials = candidate_modes(&vec![a, b, a, fast, best, fast]);
    assert_eq!(trials, vec![best, fast, a, b]);
    let other = DrmMode { name: [8; 32], ..a };
    assert_eq!(candidate_modes(&vec![a, other]), vec![a, other]);
}

#[test]
fn ultra_hd_modes_are_reduced_on_the_hardware() {
    let slow = mode(3840, 2160, 24);
    assert_eq!(prepare_mode(&slow), reduced(slow));
    assert_eq!(prepare_mode(&reduced(slow)), reduced(slow));
    let wide = mode(4096, 2160, 60);
    assert_eq!(prepare_mode(&wide), wide);
}

#[test]
fn refresh_rates_have_to_be_representable() {
    let fast = mode(1920, 1080, 2_147_484);
    assert!(!fast.is_refresh_representable());
    assert!(mode(1920, 1080, 2_147_483).is_refresh_representable());
    assert!(mode(1920, 1080, u32::MAX).is_refresh_representable());
    let modes = vec![mode(1920, 1080, 60), fast];
    assert!(!are_refreshes_representable(&modes));
    let wanted = |w, h, refresh| Mode { size: Size { w, h }, refresh };
    assert!(are_comparable(&modes, wanted(1920, 1080, 60_000)));
    assert!(!are_comparable(&modes, wanted(1920, 1080, 59_000)));
    assert!(are_comparable(&modes, wanted(640, 480, 59_000)));
}

#[test]
fn modes_are_found_by_size_and_refresh_rate() {
    let modes = vec![mode(1920, 1080, 30), mode(1920, 1080, 60), mode(4096, 2160, 24)];
    let wanted = |w, h, refresh| Mode { size: Size { w, h }, refresh };
    assert_eq!(find_mode(&modes, wanted(1920, 1080, 60_000)), Ok(modes[1]));
    assert_eq!(find_mode(&modes, wanted(4096, 2160, 24_000)), Ok(reduced(modes[2])));
    assert_eq!(find_mode(&modes, wanted(1920, 1080, 59_999)), Err(ModeNotFound));
    let device = OutputDevice::new(1, 2, 3, None);
    assert_eq!(device.set_mode(&modes, wanted(1920, 1080, 30_000)), Ok(modes[0]));
    assert_eq!(output_modes(&modes)[2], wanted(4096, 2160, 24_000));
}

#[test]
fn high_resolutions_are_waited_for() {
    let low = vec![None, connector(1, true, "DSI", 640)];
    let next = |attempt| SearchStep::Continue {
        phase: SearchPhase::HighResolution(attempt),
        pause: 500,
    };
    let high = SearchPhase::HighResolution;
    assert_eq!(search_connector(high(1), &low), next(2));
    assert_eq!(search_connector(high(10), &low), next(11));
    assert_eq!(search_connector(high(11), &low), SearchStep::Found(1));
    let tiny = vec![connector(1, true, "DSI", 639)];
    let connected = SearchStep::Continue { phase: SearchPhase::Connected, pause: 0 };
    assert_eq!(search_connector(high(60), &tiny), connected);
    assert_eq!(search_connector(SearchPhase::Connected, &tiny), SearchStep::Found(0));
    let both = vec![connector(1, true, "DSI", 800), connector(2, true, "HDMI-A", 1920)];
    assert_eq!(search_connector(high(1), &both), SearchStep::Found(1));
}

#[test]
fn ports_are_the_last_resort() {
    let unplugged = vec![connector(1, false, "DSI", 1920), connector(2, false, "DisplayPort", 0)];
    let next = SearchStep::Continue { phase: SearchPhase::Port, pause: 0 };
    assert_eq!(search_connector(SearchPhase::Connected, &unplugged), next);
    assert_eq!(search_connector(SearchPhase::Port, &unplugged), SearchStep::Found(1));
    let hdmi = vec![connector(1, false, "HDMIA", 0)];
    assert_eq!(search_connector(SearchPhase::Port, &hdmi), SearchStep::Found(0));
    assert_eq!(search_connector(SearchPhase::Port, &vec![None]), SearchStep::Failed);
}

#[test]
fn search_ends() {
    let mut phase = SearchPhase::HighResolution(1);
    let mut waited = 0;
    let mut steps = 0;
    loop {
        steps += 1;
        match search_connector(phase, &Vec::new()) {
            SearchStep::Continue { phase: next, pause } => {
                phase = next;
                waited += pause;
            },
            SearchStep::Failed => break,
            SearchStep::Found(_) => unreachable!(),
        }
    }
    assert_eq!((steps, waited), (62, 29_500));
}

#[test]
fn displays_have_a_physical_size() {
    assert_eq!(physical_size(Some((160, u32::MAX))), Size { w: 160, h: -1 });
    assert_eq!(physical_size(None), Size { w: 0, h: 0 });
}

#[test]
fn output_is_set_up() {
    assert_eq!(DrmSetup::create_drm_compositor(Vec::new()), None);
    let mut setup = DrmSetup::create_drm_compositor(vec![(1, 9), (2, 0)]).unwrap();
    assert_eq!(setup.formats, vec![(2, 0)]);
    assert_eq!(setup.connectors_read(vec![None]), Some(500));
    assert_eq!(setup.phase, SetupPhase::Search(SearchPhase::HighResolution(2)));
    let found = vec![None, connector(5, true, "HDMI-A", 1920), connector(6, true, "DSI", 1920)];
    assert_eq!(setup.connectors_read(found), None);
    let named = |handle, name: &str| NamedProperty { handle, name: name.to_string() };
    let properties = vec![named(1, "max bpc"), named(2, "DPMS"), named(3, "Colorspace")];
    assert_eq!(setup.tune(&properties), vec![
        Tuning { property: 1, value: 8 },
        Tuning { property: 3, value: 10 }
    ]);
    assert_eq!(bandwidth_setting(&"DPMS".to_string()), None);

    let mut refreshed = connector(5, true, "HDMI-A", 1920).unwrap();
    let uhd = mode(3840, 2160, 60);
    refreshed.modes.push(preferred(uhd));
    setup.connector_refreshed(Some(refreshed));
    let attempt = setup.next_attempt().unwrap();
    assert_eq!(attempt.candidate, reduced(preferred(uhd)));
    assert_eq!(attempt.hardware, reduced(preferred(uhd)));
    assert_eq!(setup.next_attempt(), Some(attempt));
    setup.attempt_done(false);
    let attempt = setup.next_attempt().unwrap();
    assert_eq!(attempt.candidate, mode(320, 200, 60));

    // The first mode which works ends the setup.
    setup.attempt_done(true);
    assert_eq!(setup.next_attempt(), None);
    match setup.phase {
        SetupPhase::Done { connector, attempt: done } => {
            assert_eq!(connector.handle, 5);
            assert_eq!(done, attempt);
        },
        phase => panic!("{phase:?}"),
    }
}

#[test]
fn setup_fails_when_no_mode_works() {
    let mut setup = DrmSetup::create_drm_compositor(vec![(1, 9)]).unwrap();
    setup.phase = SetupPhase::Tune(connector(5, true, "DSI", 800).unwrap());
    setup.connector_refreshed(None);
    setup.attempt_done(false);
    assert_eq!(setup.next_attempt().unwrap().hardware, mode(800, 480, 60));
    setup.attempt_done(false);
    assert_eq!(setup.phase, SetupPhase::Failed);
    assert_eq!(setup.next_attempt(), None);

    // There is nothing to try without modes.
    let bare = ConnectorInfo { modes: Vec::new(), ..connector(5, true, "DSI", 800).unwrap() };
    setup.phase = SetupPhase::Tune(bare);
    setup.connector_refreshed(None);
    assert_eq!(setup.phase, SetupPhase::Failed);
}

#[test]
fn setup_without_display_fails() {
    let mut setup = DrmSetup::create_drm_compositor(vec![(1, 9)]).unwrap();
    assert_eq!(setup.formats, vec![(1, 9)]);
    setup.phase = SetupPhase::Search(SearchPhase::Port);
    assert_eq!(setup.connectors_read(Vec::new()), None);
    assert_eq!(setup.phase, SetupPhase::Failed);
    setup.phase = SetupPhase::Tune(connector(5, true, "DSI", 800).unwrap());
    setup.connector_refreshed(None);
    assert_eq!(setup.next_attempt().unwrap().candidate, mode(320, 200, 60));
}

#[test]
fn controllers_with_most_overlays_come_first() {
    let crtc = |handle, overlays| Crtc { handle, overlays };
    let crtcs = vec![crtc(1, None), crtc(2, Some(1)), crtc(3, Some(4)), crtc(4, Some(1))];
    assert_eq!(sort_crtcs(&crtcs), vec![3, 2, 4, 1]);
    let encoders = vec![Some(crtcs), None, Some(vec![crtc(5, Some(0)), crtc(3, Some(4))])];
    let mut trials = create_surface(&encoders);
    assert_eq!(trials.items, vec![3, 2, 4, 1, 3, 5]);

    // The first controller which works is used.
    assert_eq!(trials.next(), Some(3));
    trials.outcome(false);
    assert_eq!(trials.next(), Some(2));
    assert_eq!(trials.result(), None);
    trials.outcome(true);
    assert_eq!(trials.next(), None);
    assert_eq!(trials.result(), Some(2));

    let mut trials = create_surface(&vec![Some(vec![crtc(7, None)])]);
    trials.outcome(false);
    assert_eq!(trials.next(), None);
    assert_eq!(trials.result(), None);
}

#[test]
fn properties_are_found_by_name() {
    let property = |handle, name: &str| Property { handle, name: Ok(name.to_string()) };
    let broken = |error| Property { handle: 9, name: Err(error) };
    let mut properties = vec![property(1, "MODE_ID"), property(2, "ACTIVE")];
    assert_eq!(get_drm_property(&properties, "ACTIVE"), Ok(2));
    assert_eq!(get_drm_property(&properties, "GAMMA"), Err(PropertyError::Missing));
    properties.push(broken(PropertyError::InvalidName));
    properties.push(property(3, "GAMMA"));
    assert_eq!(get_drm_property(&properties, "ACTIVE"), Ok(2));
    assert_eq!(get_drm_property(&properties, "GAMMA"), Err(PropertyError::InvalidName));
    let device = OutputDevice::new(1, 2, 3, None);
    let change = PropertyChange { property: 2, value: false };
    assert_eq!(device.set_enabled(&properties, false), Ok(change));
    let unavailable = vec![broken(PropertyError::Unavailable)];
    assert_eq!(device.set_enabled(&unavailable, true), Err(PropertyError::Unavailable));
}

#[test]
fn shared_buffers_have_to_fit() {
    let buffer = ShmBuffer { argb: true, stride: 40, height: 3, len: 120 };
    let size = Size { w: 10, h: 3 };
    assert!(buffer.is_comparable(size));
    assert!(!buffer.is_comparable(Size { w: 0x2000_0000, h: 1 }));
    let tall = ShmBuffer { stride: 4, height: 0x2000_0000, ..buffer };
    assert!(!tall.is_comparable(Size { w: 1, h: 0x2000_0000 }));
    assert_eq!(buffer.pixel_count(size), Ok(30));
    let wrong = [
        ShmBuffer { argb: false, ..buffer },
        ShmBuffer { stride: 44, ..buffer },
        ShmBuffer { height: 4, ..buffer },
        ShmBuffer { len: 121, ..buffer },
    ];
    for buffer in wrong {
        assert_eq!(buffer.pixel_count(size), Err(InvalidBuffer));
    }
}

#[test]
fn swapping_channels_twice_does_nothing() {
    let before: Vec<u8> = (0..10).collect();
    let mut bytes = before.clone();
    swap_channels(&mut bytes, 2);
    assert_eq!(bytes, vec![2, 1, 0, 3, 6, 5, 4, 7, 8, 9]);
    swap_channels(&mut bytes, 2);
    assert_eq!(bytes, before);
}

#[test]
fn frames_are_copied_by_the_kind_of_buffer() {
    assert_eq!(copy_method(BufferKind::Dma), Ok(CopyMethod::Blit));
    assert_eq!(copy_method(BufferKind::Shm), Ok(CopyMethod::ReadBack));
    assert_eq!(copy_method(BufferKind::Other), Err(UnsupportedBuffer));
}

#[test]
fn feedback_needs_a_device_which_renders() {
    let node = |id, has_render| DeviceNode { id, has_render };
    let devices = vec![node(1, false), node(2, true), node(3, true)];
    assert_eq!(feedback_device(node(9, true), &devices), Ok(9));
    assert_eq!(feedback_device(node(9, false), &devices), Ok(2));
    assert_eq!(feedback_device(node(9, false), &Vec::new()), Err(NoRenderNode));
    let device = OutputDevice::new(1, 2, 3, None);
    let renderer = set(&[(1, 0)]);
    let none = Vec::new();
    let feedback = device
        .default_dmabuf_feedback(&renderer, &Vec::new(), &Vec::new(), node(9, false), &devices)
        .unwrap_or_else(|_| unreachable!());
    assert_eq!(feedback.device, 2);
    assert_eq!(feedback.tranches.renderer, vec![(1, 0)]);
    let missing = device.default_dmabuf_feedback(
        &renderer,
        &Vec::new(),
        &Vec::new(),
        node(9, false),
        &none,
    );
    assert!(matches!(missing, Err(NoRenderNode)));
}

#[test]
fn linear_formats_are_selected() {
    assert_eq!(select_formats(vec![(1, 5), (2, 0), (3, 0)]), Some(vec![(2, 0), (3, 0)]));
    assert_eq!(select_formats(vec![(1, 5), (2, 6)]), Some(vec![(1, 5), (2, 6)]));
    assert_eq!(select_formats(Vec::new()), None);
}

#[test]
fn formats_are_sorted_by_what_planes_scan_out() {
    let renderer = set(&[(4, 0), (1, 0), (2, 0), (3, 0)]);
    let primary = vec![plane(&[(2, 0), (9, 0)])];
    let overlay = vec![plane(&[(1, 0), (3, 0)]), plane(&[(3, 0), (8, 0), (4, 0), (1, 0)])];
    let tranches = scanout_tranches(&renderer, &primary, &overlay);
    assert_eq!(tranches.renderer, vec![(4, 0), (1, 0), (2, 0), (3, 0)]);
    assert_eq!(tranches.primary, vec![(2, 0)]);
    assert_eq!(tranches.any_overlay, vec![(1, 0), (3, 0), (4, 0)]);
    assert_eq!(tranches.all_overlay, vec![(1, 0), (3, 0)]);
    assert_eq!(renderer.len(), 4);
    assert!(supported_by_all(&overlay, &(3, 0)));
    assert!(!supported_by_all(&overlay, &(4, 0)));
}

#[test]
fn everything_is_scanned_out_without_planes() {
    let renderer = set(&[(1, 0), (2, 0)]);
    let tranches = scanout_tranches(&renderer, &Vec::new(), &Vec::new());
    assert_eq!(tranches.all_overlay, vec![(1, 0), (2, 0)]);
    assert!(tranches.any_overlay.is_empty() && tranches.primary.is_empty());
}

fn screencopy() -> Screencopy {
    let region = Rectangle { loc: Point { x: 1, y: 2 }, size: Size { w: 3, h: 4 } };
    Screencopy { id: 8, region }
}

#[test]
fn frames_are_copied_once() {
    let mut udev = Udev::new();
    udev.request_screencopy(screencopy());
    assert_eq!(udev.output_device, None);
    udev.output_device = Some(OutputDevice::new(1, 2, 3, None));
    udev.request_screencopy(screencopy());
    let device = udev.output_device.as_mut().unwrap();
    let frame = device.render(false);
    let damage = Rectangle { loc: Point { x: 0, y: 0 }, size: Size { w: 3, h: 4 } };
    assert_eq!(frame.copy, Some((screencopy(), damage)));
    assert!(frame.queue);
    let frame = device.render(true);
    assert_eq!(frame.copy, None);
    assert!(!frame.queue);
}

#[test]
fn redraws_are_cancelled() {
    let mut udev = Udev::new();
    udev.schedule_redraw(4);
    udev.schedule_redraw(3);
    assert_eq!(udev.cancel_scheduled_redraws(), vec![4, 3]);
    assert!(udev.cancel_scheduled_redraws().is_empty());
}

#[test]
fn frames_are_done_in_time() {
    assert_eq!(next_frame(16_000, Some(6_000)), NextFrame::After(10_000));
    assert_eq!(next_frame(16_000, Some(16_000)), NextFrame::Now);
    assert_eq!(next_frame(16_000, None), NextFrame::Now);
}

#[test]
fn blocked_devices_are_tried_again() {
    let mut udev = Udev::new();
    let blocked = DeviceError::Open(Some(WOULD_BLOCK));
    assert_eq!(udev.add_device(Err(blocked), true), (Err(blocked), Some(DRM_RETRY_DELAY)));
    assert_eq!(udev.add_device(Err(blocked), false), (Err(blocked), None));
    for error in [DeviceError::Open(Some(1)), DeviceError::Open(None), DeviceError::Create] {
        assert_eq!(udev.add_device(Err(error), true), (Err(error), None));
    }
    assert!(!add_device(&Err(blocked)));
    let device = OutputDevice::new(1, 2, 3, Some("/dev".to_string()));
    assert_eq!(udev.add_device(Ok(device), true), (Ok(()), None));
    assert!(add_device(&Ok(())));
    assert!(udev.renderer());
    assert_eq!(udev.active_device(), Some(1));
}

#[test]
fn devices_are_replaced_and_removed() {
    let mut udev = Udev::new();
    assert_eq!(udev.active_device(), None);
    assert_eq!(udev.change_device(1), None);
    udev.output_device = Some(OutputDevice::new(1, 2, 3, Some("/dev".to_string())));
    assert_eq!(udev.change_device(7), None);
    let replacement = Replacement { token: 2, path: "/dev".to_string() };
    assert_eq!(udev.change_device(1), Some(replacement));
    assert_eq!(udev.output_device, None);
    udev.output_device = Some(OutputDevice::new(1, 2, 3, None));
    assert_eq!(udev.change_device(1), None);
    assert!(udev.renderer());
    assert_eq!(udev.remove_device(1), Some(2));
    udev.output_device = Some(OutputDevice::new(1, 2, 3, None));
    assert_eq!(udev.remove_device(5), None);
    assert!(!udev.renderer());
}

#[test]
fn nothing_happens_without_device() {
    let mut udev = Udev::new();
    let frame = RenderedFrame { gpu_fence: Some(3), rendered: true };
    let empty = RenderedFrame { gpu_fence: None, rendered: false };
    assert_eq!(udev.set_display_status(true), (false, false));
    assert_eq!(udev.set_mode(Err(ModeNotFound)), Ok(()));
    assert_eq!(udev.render::<()>(Ok(frame)), empty);
    assert_eq!(udev.default_dmabuf_feedback(Ok(5)), Err(DeviceError::Missing));
    udev.output_device = Some(OutputDevice::new(1, 2, 3, None));
    assert_eq!(udev.set_display_status(true), (true, true));
    assert_eq!(udev.set_display_status(false), (true, false));
    assert_eq!(udev.set_mode(Err(ModeNotFound)), Err(ModeNotFound));
    assert_eq!(udev.render::<()>(Ok(frame)), frame);
    assert_eq!(udev.render(Err(())), empty);
    assert_eq!(udev.default_dmabuf_feedback(Ok(5)), Ok(5));
}
