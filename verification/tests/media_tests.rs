use policast::capture;
use policast::crop::{checked_scaled, truncate_to_even, CropFilter, Ratio, RelativeScreenCrop};
use policast::decoder::get_ffmpeg_decoder_args;
use policast::devices::{lines_of, list_screen_capture_devices_macos, DeviceListError};
use policast::ffmpeg::{
    bmp_to_image, ffmpeg_capture_args, get_ffmpeg_args, list_screen_capture_devices, raw_encoder_args_for,
    screenshot_args_for, TargetOs,
};
use policast::text::usize_to_string;

fn r(numer: u64, denom: u64) -> Ratio {
    Ratio { numer, denom }
}

fn strs(v: &[&str]) -> Vec<String> {
    v.iter().map(|s| s.to_string()).collect()
}

#[test]
fn decimal_formatting() {
    assert_eq!(usize_to_string(0), "0");
    assert_eq!(usize_to_string(7), "7");
    assert_eq!(usize_to_string(10), "10");
    assert_eq!(usize_to_string(1234567890), "1234567890");
    assert_eq!(usize_to_string(usize::MAX), usize::MAX.to_string());
}

#[test]
fn truncation_to_even() {
    assert_eq!(truncate_to_even(0), 0);
    assert_eq!(truncate_to_even(7), 6);
    assert_eq!(truncate_to_even(8), 8);
    assert_eq!(truncate_to_even(usize::MAX), usize::MAX - 1);
}

#[test]
fn crop_filter_scales_rounds_and_evens() {
    let rel = RelativeScreenCrop { x: r(1, 4), y: r(1, 3), width: r(1, 3), height: r(1, 2) };
    let c = CropFilter::from(&rel, 1000, 1081);
    // 250, 360.33 -> 360, 333.33 -> 333 -> 332, 540.5 -> 541 -> 540
    assert_eq!(c, CropFilter { x: 250, y: 360, width: 332, height: 540 });
}

#[test]
fn crop_filter_rounds_halves_up() {
    let rel = RelativeScreenCrop { x: r(1, 2), y: r(5, 2), width: r(1, 1), height: r(0, 7) };
    let c = CropFilter::from(&rel, 5, 1);
    // 2.5 -> 3, 2.5 -> 3, 5 -> 4, 0 -> 0
    assert_eq!(c, CropFilter { x: 3, y: 3, width: 4, height: 0 });
}

#[test]
fn capture_args_on_macos() {
    let crop = CropFilter { x: 10, y: 20, width: 640, height: 480 };
    let args = get_ffmpeg_args(Some(1080), Some(crop), "1", "/tmp/cap", TargetOs::MacOs);
    assert_eq!(
        args,
        strs(&[
            "-f", "avfoundation", "-r", "25", "-i", "1",
            "-filter_complex", "[0:v]scale=trunc(oh*a/2)*2:1080,crop=640:480:10:20,split=2[out1][out2]",
            "-map", "[out1]", "-c:v", "libx264", "-preset", "ultrafast", "-tune", "zerolatency",
            "-g", "50", "-keyint_min", "50", "-sc_threshold", "0", "-f", "hls", "-hls_time", "2",
            "-hls_list_size", "4", "-hls_flags", "delete_segments",
            "-hls_segment_filename", "/tmp/cap/output_%03d.ts", "/tmp/cap/output.m3u8",
            "-map", "[out2]", "-pix_fmt", "rgba", "-f", "rawvideo", "-",
        ])
    );
}

#[test]
fn capture_args_drop_an_empty_target() {
    let args = ffmpeg_capture_args(None, None, "", "seg.ts", "list.m3u8", TargetOs::Windows);
    assert_eq!(&args[..5], &strs(&["-f", "gdigrab", "-framerate", "25", "-i"])[..]);
    assert_eq!(args[5], "-filter_complex");
    assert_eq!(args[6], "[0:v]split=2[out1][out2]");
    assert!(args.iter().all(|a| !a.is_empty()));
    assert_eq!(args.len(), 39);
}

#[test]
fn capture_args_on_linux_with_a_directory_ending_in_a_separator() {
    let args = get_ffmpeg_args(None, None, ":0.0", "out/", TargetOs::Linux);
    assert_eq!(&args[..6], &strs(&["-f", "x11grab", "-r", "25", "-i", ":0.0"])[..]);
    assert!(args.contains(&"out/output_%03d.ts".to_string()));
    assert!(args.contains(&"out/output.m3u8".to_string()));
}

#[test]
fn decoder_args() {
    assert_eq!(
        get_ffmpeg_decoder_args("http://10.0.0.2:3000/hls/output.m3u8"),
        strs(&[
            "-hide_banner", "-loglevel", "error", "-i", "http://10.0.0.2:3000/hls/output.m3u8", "-r", "25", "-vf",
            "fps=25,scale=1280:720,format=rgba", "-pix_fmt", "rgba", "-f", "rawvideo", "-",
        ])
    );
}

#[test]
fn encoder_and_screenshot_args() {
    assert_eq!(
        raw_encoder_args_for(1280, 720, "/videos/capture_1"),
        strs(&["-f", "rawvideo", "-pix_fmt", "rgba", "-s", "1280x720", "-r", "25", "-i", "-", "/videos/capture_1.mp4"])
    );
    assert_eq!(
        screenshot_args_for("1"),
        strs(&[
            "-f", "avfoundation", "-framerate", "1", "-i", "1", "-frames:v", "1", "-pix_fmt", "rgba", "-f",
            "image2pipe", "-vcodec", "bmp", "-",
        ])
    );
}

#[test]
fn legacy_capture_args() {
    assert_eq!(
        capture::get_ffmpeg_args(800, 600, 200, 100, "1", TargetOs::MacOs),
        strs(&[
            "-f", "avfoundation", "-r", "25", "-i", "1", "-video_size", "800x600", "-vf", "crop=800:600:200:100",
            "-c:v", "libx264", "-f", "hls", "-hls_time", "2", "-hls_list_size", "0", "-hls_flags", "delete_segments",
            "-hls_segment_filename", "target/output_%03d.ts", "target/output.m3u8",
        ])
    );
    let win = capture::get_ffmpeg_args(1, 2, 3, 4, "desktop", TargetOs::Windows);
    assert_eq!(&win[..6], &strs(&["-f", "gdigrab", "-framerate", "30", "-i", "desktop"])[..]);
    assert_eq!(win.len(), 21);
    let linux = capture::get_ffmpeg_args(1, 2, 3, 4, ":0", TargetOs::Linux);
    assert_eq!(&linux[..8], &strs(&["-f", "x11grab", "-r", "30", "-s", "1x2", "-i", ":0"])[..]);
    assert_eq!(linux[9], "crop=1:2:3:4");
}

const LISTING: &str = "[AVFoundation indev @ 0x7f] AVFoundation video devices:\n\
[AVFoundation indev @ 0x7f] [0] FaceTime HD Camera\n\
[AVFoundation indev @ 0x7f] [1] Capture screen 0\r\n\
[AVFoundation indev @ 0x7f] [2] Capture screen 1\n\
[AVFoundation indev @ 0x7f] AVFoundation audio devices:\n\
[AVFoundation indev @ 0x7f] [0] MacBook Pro Microphone\n\
: Input/output error\n";

#[test]
fn lines_like_str_lines() {
    for text in ["", "a", "a\n", "a\r\nb\n\nc", "\n", "x\r", "é\nü\r\n", LISTING] {
        let expected: Vec<String> = text.lines().map(String::from).collect();
        assert_eq!(lines_of(text), expected, "{:?}", text);
    }
}

#[test]
fn macos_listing_names_the_screens() {
    let mut devices = list_screen_capture_devices_macos(LISTING).unwrap();
    devices.sort();
    assert_eq!(
        devices,
        vec![
            ("1".to_string(), "Capture screen 0".to_string()),
            ("2".to_string(), "Capture screen 1".to_string()),
        ]
    );
}

#[test]
fn macos_listing_without_screens_is_an_error() {
    assert_eq!(list_screen_capture_devices_macos("[0] FaceTime HD Camera\n"), Err(DeviceListError::NoDevices));
    assert_eq!(list_screen_capture_devices_macos(""), Err(DeviceListError::NoDevices));
    assert_eq!(DeviceListError::NoDevices.message(), "No screen capture devices found");
}

#[test]
fn later_screen_lines_replace_earlier_ones() {
    let devices = list_screen_capture_devices_macos("[3] Capture screen A\n[3] Capture screen B\n").unwrap();
    assert_eq!(devices, vec![("3".to_string(), "Capture screen B".to_string())]);
}

#[test]
fn device_lists_per_system() {
    assert_eq!(
        list_screen_capture_devices(TargetOs::Windows, ""),
        Ok(vec![("desktop".to_string(), "desktop".to_string())])
    );
    assert_eq!(list_screen_capture_devices(TargetOs::Other, LISTING), Err(DeviceListError::UnsupportedOs));
    assert_eq!(DeviceListError::UnsupportedOs.message(), "Unsupported operating system");
    assert_eq!(list_screen_capture_devices(TargetOs::MacOs, LISTING).unwrap().len(), 2);
    assert_eq!(capture::list_screen_capture_devices(TargetOs::Other, ""), Err(DeviceListError::UnsupportedOs));
    assert_eq!(capture::list_screen_capture_devices(TargetOs::MacOs, LISTING).unwrap().len(), 2);
}

#[test]
fn unhandled_systems_get_an_error_when_listing() {
    assert_eq!(list_screen_capture_devices(TargetOs::Linux, LISTING), Err(DeviceListError::UnsupportedOs));
    assert_eq!(capture::list_screen_capture_devices(TargetOs::Windows, LISTING), Err(DeviceListError::UnsupportedOs));
    assert_eq!(capture::list_screen_capture_devices(TargetOs::Linux, LISTING), Err(DeviceListError::UnsupportedOs));
}

#[test]
fn capture_paths_are_joined_under_the_save_dir() {
    let crop = CropFilter { x: 10, y: 20, width: 640, height: 480 };
    let args = get_ffmpeg_args(Some(1080), Some(crop), ":0.0", "/tmp/cap", TargetOs::Linux);
    assert_eq!(args.len(), 40);
    assert_eq!(args[5], ":0.0");
    assert_eq!(args[7], "[0:v]scale=trunc(oh*a/2)*2:1080,crop=640:480:10:20,split=2[out1][out2]");
    assert_eq!(args[17], "50");
    assert_eq!(args[27], "4");
    assert_eq!(args[31], "/tmp/cap/output_%03d.ts");
    assert_eq!(args[32], "/tmp/cap/output.m3u8");
    assert_eq!(args[39], "-");
    let plain = get_ffmpeg_args(None, None, "1", "out", TargetOs::Linux);
    assert_eq!(plain.len(), 40);
    assert_eq!(plain[3], "25");
    assert_eq!(plain[7], "[0:v]split=2[out1][out2]");
    assert_eq!(plain[31], "out/output_%03d.ts");
    assert_eq!(plain[32], "out/output.m3u8");
}

#[test]
fn checked_scaling_refuses_what_overflows() {
    assert_eq!(checked_scaled(r(1, 2), 1920), Some(960));
    assert_eq!(checked_scaled(r(1, 0), 1920), None);
    assert_eq!(checked_scaled(r(u64::MAX, 1), 2), None);
}

fn tiny_bmp() -> Vec<u8> {
    // 2x1 pixels, 24 bits, bottom-up; a red and a green pixel
    let mut b = vec![b'B', b'M'];
    b.extend_from_slice(&62u32.to_le_bytes());
    b.extend_from_slice(&0u32.to_le_bytes());
    b.extend_from_slice(&54u32.to_le_bytes());
    b.extend_from_slice(&40u32.to_le_bytes());
    b.extend_from_slice(&2i32.to_le_bytes());
    b.extend_from_slice(&1i32.to_le_bytes());
    b.extend_from_slice(&1u16.to_le_bytes());
    b.extend_from_slice(&24u16.to_le_bytes());
    b.extend_from_slice(&0u32.to_le_bytes());
    b.extend_from_slice(&8u32.to_le_bytes());
    b.extend_from_slice(&2835u32.to_le_bytes());
    b.extend_from_slice(&2835u32.to_le_bytes());
    b.extend_from_slice(&0u32.to_le_bytes());
    b.extend_from_slice(&0u32.to_le_bytes());
    b.extend_from_slice(&[0, 0, 255, 0, 255, 0, 0, 0]);
    b
}

#[test]
fn bmp_decodes_to_rgb() {
    let img = bmp_to_image(tiny_bmp()).expect("a valid BMP");
    assert_eq!((img.width, img.height), (2, 1));
    assert_eq!(img.pixels, vec![255, 0, 0, 0, 255, 0]);
}

#[test]
fn garbage_is_no_bmp() {
    assert!(bmp_to_image(vec![1, 2, 3]).is_none());
}
