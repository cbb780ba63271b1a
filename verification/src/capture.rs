use vstd::prelude::*;
use crate::devices::{devices_outcome, line_captures, list_screen_capture_devices_macos, text_lines, DeviceListError};
use crate::ffmpeg::TargetOs;
use crate::text::{decimal, push_arg, push_string, usize_to_string, views};

verus! {

/// `crop=W:H:X:Y`: the crop filter of the first command-line tool.
pub open spec fn legacy_crop_filter(width: u32, height: u32, x: u32, y: u32) -> Seq<char> {
    "crop="@ + decimal(width as nat) + ":"@ + decimal(height as nat) + ":"@ + decimal(x as nat) + ":"@
        + decimal(y as nat)
}

/// `WxH`: a video size.
pub open spec fn video_size(width: u32, height: u32) -> Seq<char> {
    decimal(width as nat) + "x"@ + decimal(height as nat)
}

/// The HLS output of the first command-line tool, into `target/`.
pub open spec fn legacy_output_args(crop_filter: Seq<char>) -> Seq<Seq<char>> {
    seq![
        "-vf"@, crop_filter,
        "-c:v"@, "libx264"@,
        "-f"@, "hls"@,
        "-hls_time"@, "2"@,
        "-hls_list_size"@, "0"@,
        "-hls_flags"@, "delete_segments"@,
        "-hls_segment_filename"@, "target/output_%03d.ts"@,
        "target/output.m3u8"@,
    ]
}

/// The whole command line of the first command-line tool.
pub open spec fn legacy_capture_args(width: u32, height: u32, x: u32, y: u32, target: Seq<char>, os: TargetOs) -> Seq<Seq<char>> {
    let crop = legacy_crop_filter(width, height, x, y);
    let size = video_size(width, height);
    match os {
        TargetOs::MacOs => seq!["-f"@, "avfoundation"@, "-r"@, "25"@, "-i"@, target, "-video_size"@, size]
            + legacy_output_args(crop),
        TargetOs::Windows => seq!["-f"@, "gdigrab"@, "-framerate"@, "30"@, "-i"@, target] + legacy_output_args(crop),
        TargetOs::Linux => seq!["-f"@, "x11grab"@, "-r"@, "30"@, "-s"@, size, "-i"@, target]
            + legacy_output_args(crop),
        TargetOs::Other => seq![],
    }
}

fn video_size_string(width: u32, height: u32) -> (s: String)
    ensures
        s@ == video_size(width, height),
{
    let mut s = usize_to_string(width as usize);
    s.append("x");
    let h = usize_to_string(height as usize);
    s.append(h.as_str());
    s
}

/// The ffmpeg command line that records the `video_width` x `video_height`
/// area at (`x`, `y`) of the screen `target` as an HLS stream in `target/`.
/// Systems other than macOS, Windows and Linux are left out.
pub fn get_ffmpeg_args(video_width: u32, video_height: u32, x: u32, y: u32, target: &str, os: TargetOs) -> (args: Vec<String>)
    requires
        os != TargetOs::Other,
    ensures
        views(args@) == legacy_capture_args(video_width, video_height, x, y, target@, os),
{
    let mut crop_filter = String::from_str("crop=");
    let w = usize_to_string(video_width as usize);
    crop_filter.append(w.as_str());
    crop_filter.append(":");
    let h = usize_to_string(video_height as usize);
    crop_filter.append(h.as_str());
    crop_filter.append(":");
    let xs = usize_to_string(x as usize);
    crop_filter.append(xs.as_str());
    crop_filter.append(":");
    let ys = usize_to_string(y as usize);
    crop_filter.append(ys.as_str());
    let mut args: Vec<String> = Vec::new();
    match os {
        TargetOs::MacOs => {
            push_arg(&mut args, "-f");
            push_arg(&mut args, "avfoundation");
            push_arg(&mut args, "-r");
            push_arg(&mut args, "25");
            push_arg(&mut args, "-i");
            push_arg(&mut args, target);
            push_arg(&mut args, "-video_size");
            push_string(&mut args, video_size_string(video_width, video_height));
        },
        TargetOs::Windows => {
            push_arg(&mut args, "-f");
            push_arg(&mut args, "gdigrab");
            push_arg(&mut args, "-framerate");
            push_arg(&mut args, "30");
            push_arg(&mut args, "-i");
            push_arg(&mut args, target);
        },
        _ => {
            push_arg(&mut args, "-f");
            push_arg(&mut args, "x11grab");
            push_arg(&mut args, "-r");
            push_arg(&mut args, "30");
            push_arg(&mut args, "-s");
            push_string(&mut args, video_size_string(video_width, video_height));
            push_arg(&mut args, "-i");
            push_arg(&mut args, target);
        },
    }
    let ghost input = views(args@);
    push_arg(&mut args, "-vf");
    push_string(&mut args, crop_filter);
    push_arg(&mut args, "-c:v");
    push_arg(&mut args, "libx264");
    push_arg(&mut args, "-f");
    push_arg(&mut args, "hls");
    push_arg(&mut args, "-hls_time");
    push_arg(&mut args, "2");
    push_arg(&mut args, "-hls_list_size");
    push_arg(&mut args, "0");
    push_arg(&mut args, "-hls_flags");
    push_arg(&mut args, "delete_segments");
    push_arg(&mut args, "-hls_segment_filename");
    push_arg(&mut args, "target/output_%03d.ts");
    push_arg(&mut args, "target/output.m3u8");
    proof {
        assert(views(args@) =~= input + legacy_output_args(legacy_crop_filter(video_width, video_height, x, y)));
        assert(views(args@) =~= legacy_capture_args(video_width, video_height, x, y, target@, os));
    }
    args
}

/// The screens that can be captured by the first command-line tool, on any
/// system: on macOS those that the listing names; Windows and Linux are not
/// handled yet and, like other systems, are answered with `UnsupportedOs`.
pub fn list_screen_capture_devices(os: TargetOs, listing: &str) -> (r: Result<Vec<(String, String)>, DeviceListError>)
    ensures
        os == TargetOs::MacOs ==> devices_outcome(r, line_captures(text_lines(listing@))),
        os != TargetOs::MacOs ==> r == Err::<Vec<(String, String)>, DeviceListError>(DeviceListError::UnsupportedOs),
{
    match os {
        TargetOs::MacOs => list_screen_capture_devices_macos(listing),
        _ => Err(DeviceListError::UnsupportedOs),
    }
}

} // verus!
