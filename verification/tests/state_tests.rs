use policast::capturer::{capture_geometry, geometry_is_computable, CaptureError, Capturer, RecordingPlan};
use policast::crop::{CropFilter, Ratio, RelativeScreenCrop};
use policast::devices::DeviceListError;
use policast::ffmpeg::TargetOs;
use policast::gui::{hotkey_command, route_back, Navigator, Role, Route, UiCommand};
use policast::hotkey::{HotkeyAction, Modifiers};
use policast::playback::{fetch_outcome, FetchOutcome, PlayEffect, Playback, PlaybackStatus, RenderAction};
use policast::screen::Screen;
use policast::server::{caster_playlist_url, discovery_message_bytes, is_discovery_message, CasterRegistry, TTL_NS};
use policast::settings::{Settings, CAPTURE_PERIOD_NS};
use policast::util::{fallback_candidate, fallback_filename, fallback_step, modifiers_to_string};
use policast::videocaster::{CasterError, VideoCaster};

#[test]
fn playback_starts_pauses_resumes_and_stops() {
    let mut p = Playback::new();
    assert_eq!(p.status(), PlaybackStatus::Stopped);
    p.set_video_link("http://h/hls/output.m3u8".to_string());
    assert_eq!(p.play(), PlayEffect::StartDecoder);
    assert_eq!(p.status(), PlaybackStatus::Playing);
    assert_eq!(p.play(), PlayEffect::Nothing);
    p.pause();
    assert_eq!(p.status(), PlaybackStatus::Paused);
    assert_eq!(p.play(), PlayEffect::ResumeDecoder);
    assert!(p.stop());
    assert_eq!(p.status(), PlaybackStatus::Stopped);
    assert!(!p.stop());
    assert_eq!(p.video_link(), Some("http://h/hls/output.m3u8".to_string()));
}

#[test]
fn pause_does_nothing_unless_playing() {
    let mut p = Playback::new();
    p.pause();
    assert_eq!(p.status(), PlaybackStatus::Stopped);
}

#[test]
fn render_paces_frames_by_the_capture_period() {
    let mut p = Playback::new();
    assert_eq!(p.render(0), RenderAction::ShowStopped);
    p.set_video_link("x".to_string());
    p.play();
    assert_eq!(p.render(1_000), RenderAction::FetchNext { must_arrive: true });
    assert_eq!(p.render(1_000 + CAPTURE_PERIOD_NS), RenderAction::ShowLast { repaint: true });
    assert_eq!(p.render(1_001 + CAPTURE_PERIOD_NS), RenderAction::FetchNext { must_arrive: false });
    // the refresh time moved by one period: the next frame is due one period later
    assert_eq!(p.render(1_001 + 2 * CAPTURE_PERIOD_NS), RenderAction::FetchNext { must_arrive: false });
    assert_eq!(p.render(500), RenderAction::ShowLast { repaint: true });
    p.pause();
    assert_eq!(p.render(10 * CAPTURE_PERIOD_NS), RenderAction::ShowLast { repaint: false });
    p.play();
    assert_eq!(p.render(11 * CAPTURE_PERIOD_NS), RenderAction::FetchNext { must_arrive: true });
}

#[test]
fn discovery_message_is_policast() {
    assert_eq!(discovery_message_bytes(), b"policast".to_vec());
    assert!(is_discovery_message(b"policast"));
    assert!(!is_discovery_message(b"policas"));
    assert!(!is_discovery_message(b"policast!"));
    assert!(!is_discovery_message(&[0xff, 0xfe]));
}

#[test]
fn casters_are_listed_until_their_time_to_live_passes() {
    let mut reg = CasterRegistry::new();
    let a = 0xC0A8_0134u32;
    let b = 0xC0A8_0135u32;
    assert!(reg.record_packet(b"policast", a, 0));
    assert!(!reg.record_packet(b"hello", b, 0));
    assert!(reg.record_packet(b"policast", b, 3_000_000_000));
    assert!(reg.record_packet(b"policast", a, 1_000_000_000));
    let mut ips = reg.get_caster_ips(4_000_000_000);
    ips.sort();
    assert_eq!(ips, vec![a, b]);
    assert_eq!(reg.get_caster_ips(1_000_000_000 + TTL_NS), vec![b]);
    assert_eq!(reg.get_caster_ips(1_000_000_000 + TTL_NS), vec![b]);
    assert_eq!(reg.get_caster_ips(3_000_000_000 + TTL_NS), Vec::<u32>::new());
}

#[test]
fn playlist_url_of_a_caster() {
    let ip = 0xC0A8_0134u32;
    assert_eq!(caster_playlist_url(ip), "http://192.168.1.52:3000/hls/output.m3u8");
    assert_eq!(caster_playlist_url(0), "http://0.0.0.0:3000/hls/output.m3u8");
}

fn screens() -> Vec<Screen> {
    Screen::get_all(vec![
        ("1".to_string(), "Capture screen 0".to_string()),
        ("2".to_string(), "Capture screen 1".to_string()),
    ])
}

#[test]
fn screen_without_name_is_named_by_its_handle() {
    let s = Screen::new("3".to_string(), None);
    assert_eq!(s.name(), "3");
    assert_eq!(s.handle(), "3");
    let t = Screen::new("3".to_string(), Some("Main".to_string()));
    assert_eq!(t.name(), "Main");
    assert!(t.selected_area.is_none());
}

#[test]
fn capturer_selects_only_known_devices() {
    let mut c = Capturer::new();
    c.set_capture_devices(screens());
    assert_eq!(c.get_capture_devices().len(), 2);
    assert_eq!(c.set_selected_device(Some("9".to_string())), Err(CaptureError::DeviceNotFound));
    assert_eq!(c.get_selected_device(), None);
    assert_eq!(c.set_selected_device(Some("2".to_string())), Ok(()));
    assert_eq!(c.get_selected_device(), Some(1));
    assert_eq!(c.set_selected_device(None), Ok(()));
    assert_eq!(c.get_selected_device(), None);
    assert_eq!(CaptureError::DeviceNotFound.message(), "Device index not found");
}

#[test]
fn capturer_records_the_selected_device() {
    let mut c = Capturer::new();
    c.set_capture_devices(screens());
    assert!(!c.stop_recording());
    assert_eq!(c.start_recording(), Err(CaptureError::NoDeviceSelected));
    assert_eq!(CaptureError::NoDeviceSelected.message(), "No device selected for recording");
    assert!(!c.is_recording());
    let crop = RelativeScreenCrop {
        x: Ratio { numer: 0, denom: 1 },
        y: Ratio { numer: 0, denom: 1 },
        width: Ratio { numer: 1, denom: 2 },
        height: Ratio { numer: 1, denom: 2 },
    };
    c.set_selected_area(crop);
    c.set_selected_device(Some("1".to_string())).unwrap();
    assert_eq!(c.start_recording(), Ok(RecordingPlan { device: 0, crop: Some(crop) }));
    assert!(c.is_recording());
    assert!(c.stop_recording());
    assert!(!c.is_recording());
}

#[test]
fn capture_geometry_scales_to_1080_lines() {
    let g = capture_geometry(2880, 1800, None);
    assert_eq!((g.crop, g.width, g.height, g.frame_bytes), (None, 1728, 1080, 1728 * 1080 * 4));
    let half = RelativeScreenCrop {
        x: Ratio { numer: 1, denom: 4 },
        y: Ratio { numer: 1, denom: 4 },
        width: Ratio { numer: 1, denom: 2 },
        height: Ratio { numer: 1, denom: 2 },
    };
    let g = capture_geometry(1920, 1080, Some(half));
    assert_eq!(g.crop, Some(CropFilter { x: 480, y: 270, width: 960, height: 540 }));
    assert_eq!((g.width, g.height, g.frame_bytes), (960, 540, 960 * 540 * 4));
}

#[test]
fn video_caster_lists_selects_and_records() {
    let mut v = VideoCaster::new();
    assert_eq!(v.start_recording(800, 600, 0, 0, TargetOs::MacOs), Err(CasterError::NoDeviceSelected));
    assert_eq!(v.list_devices(Err(DeviceListError::UnsupportedOs)), Err(CasterError::Listing(DeviceListError::UnsupportedOs)));
    assert_eq!(v.list_devices(Ok(vec![])), Err(CasterError::NoDevices));
    assert_eq!(v.get_first_device(), None);
    let devices = vec![("1".to_string(), "Capture screen 0".to_string()), ("2".to_string(), "Capture screen 1".to_string())];
    assert_eq!(v.list_devices(Ok(devices)), Ok(()));
    assert_eq!(v.get_device_list(), "[1] Capture screen 0\n[2] Capture screen 1");
    assert_eq!(v.get_first_device(), Some("1".to_string()));
    assert_eq!(v.set_selected_device("7".to_string()), Err(CasterError::DeviceNotFound));
    assert_eq!(v.get_selected_device(), None);
    assert_eq!(v.set_selected_device("2".to_string()), Ok(()));
    assert_eq!(v.get_selected_device(), Some("2".to_string()));
    let args = v.start_recording(800, 600, 10, 20, TargetOs::MacOs).unwrap();
    assert_eq!(args[5], "2");
    assert_eq!(args[9], "crop=800:600:10:20");
    assert!(!v.get_status());
    assert_eq!(v.stop_recording(), Err(CasterError::NoActiveRecording));
    assert_eq!(CasterError::NoActiveRecording.message(), "No active recording to stop");
    v.recording_started();
    assert!(v.get_status());
    assert_eq!(v.stop_recording(), Ok(()));
    v.recording_stopped();
    assert!(!v.get_status());
}

#[test]
fn modifiers_are_joined_by_plus() {
    let none = Modifiers::none();
    assert_eq!(modifiers_to_string(&none), "");
    let m = Modifiers { alt: false, ctrl: true, shift: true, mac_cmd: false, command: true };
    assert_eq!(modifiers_to_string(&m), "CTRL + SHIFT");
    let all = Modifiers { alt: true, ctrl: true, shift: true, mac_cmd: true, command: true };
    assert_eq!(modifiers_to_string(&all), "ALT + CTRL + SHIFT + CMD");
    assert_eq!(modifiers_to_string(&Modifiers::mac_cmd()), "CMD");
}

#[test]
fn fallback_candidates() {
    assert_eq!(fallback_candidate("capture", "mp4", 0), ("capture.mp4".to_string(), "capture".to_string()));
    assert_eq!(fallback_candidate("capture", "mp4", 12), ("capture_12.mp4".to_string(), "capture_12".to_string()));
}

#[test]
fn settings_keep_the_player_options() {
    let mut s = Settings::new("/a".to_string(), Some("/videos".to_string()), false);
    s.set_save_dir("/b");
    assert_eq!(s.get_save_dir(), "/b");
    assert_eq!(s.player_save_dir, Some("/videos".to_string()));
    assert!(!s.player_save_enabled);
}

#[test]
fn navigation_and_hotkey_commands() {
    let mut n = Navigator::new();
    assert_eq!(n.route(), Route::SelectRole);
    assert!(n.is_first_render());
    n.end_frame(Route::SelectRole);
    assert!(!n.is_first_render());
    n.route_to(Route::CasterSettings);
    n.end_frame(Route::SelectRole);
    assert!(n.is_first_render());
    n.go_back();
    assert_eq!(n.route(), Route::CasterControls);
    n.go_to_root();
    assert_eq!(n.route(), Route::SelectRole);
    assert_eq!(route_back(Route::PlayerControls), Route::SelectRole);
    assert_eq!(hotkey_command(HotkeyAction::PlayPlayback, Route::PlayerControls), UiCommand::PlayPlayback);
    assert_eq!(hotkey_command(HotkeyAction::PlayPlayback, Route::CasterControls), UiCommand::Ignore);
    assert_eq!(hotkey_command(HotkeyAction::SelectArea, Route::CasterControls), UiCommand::SelectArea);
    assert_eq!(hotkey_command(HotkeyAction::BackToRoot, Route::CasterSettings), UiCommand::RouteToRoot);
    assert_ne!(Role::Caster, Role::Player);
}

#[test]
fn geometry_is_computable_only_where_it_fits() {
    assert!(!geometry_is_computable(1920, 0, None));
    assert!(geometry_is_computable(1920, 1080, None));
    assert!(!geometry_is_computable(usize::MAX, 1080, None));
    let crop = RelativeScreenCrop {
        x: Ratio { numer: 1, denom: 4 },
        y: Ratio { numer: 1, denom: 4 },
        width: Ratio { numer: 1, denom: 2 },
        height: Ratio { numer: 1, denom: 2 },
    };
    assert!(geometry_is_computable(1920, 1080, Some(crop)));
    let bad = RelativeScreenCrop { x: Ratio { numer: 1, denom: 0 }, ..crop };
    assert!(!geometry_is_computable(1920, 1080, Some(bad)));
}

#[test]
fn free_file_name_search() {
    assert_eq!(fallback_filename("/no/such/directory/anywhere", "capture", "mp4"), "capture");
    assert_eq!(fallback_filename("/etc", "ld.so", "conf"), "ld.so_1");
}

#[test]
fn stopping_twice_changes_nothing_more() {
    let mut p = Playback::new();
    p.set_video_link("http://10.0.0.1:3000/hls/output.m3u8".to_string());
    assert_eq!(p.play(), PlayEffect::StartDecoder);
    assert!(p.stop());
    assert!(!p.stop());
    assert_eq!(p.status(), PlaybackStatus::Stopped);
    assert_eq!(p.video_link(), Some("http://10.0.0.1:3000/hls/output.m3u8".to_string()));
}

#[test]
fn fallback_steps_stop_at_the_first_free_file() {
    assert_eq!(fallback_step("capture", 0, false), Some("capture".to_string()));
    assert_eq!(fallback_step("capture", 0, true), None);
    assert_eq!(fallback_step("capture", 3, false), Some("capture_3".to_string()));
    assert_eq!(fallback_step("capture", usize::MAX, true), Some(format!("capture_{}", usize::MAX)));
}

#[test]
fn missing_frames_stop_or_fault() {
    assert_eq!(fetch_outcome(true, true), FetchOutcome::Shown);
    assert_eq!(fetch_outcome(true, false), FetchOutcome::Shown);
    assert_eq!(fetch_outcome(false, false), FetchOutcome::StopPlayback);
    assert_eq!(fetch_outcome(false, true), FetchOutcome::Fault);
}
