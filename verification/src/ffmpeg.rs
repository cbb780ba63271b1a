use vstd::prelude::*;
use crate::crop::CropFilter;
use crate::settings::{CAPTURE_FPS, HLS_LIST_SIZE, HLS_SEGMENT_DURATION};
use crate::assoc::str_pairs;
use crate::devices::{devices_outcome, line_captures, list_screen_capture_devices_macos, text_lines, windows_devices, DeviceListError};
use crate::text::{decimal, digit_char, drop_empty, lemma_nonempty_only, lemma_nonempty_only_append, lemma_nonempty_only_keeps_nonempty, nonempty_only, push_arg, push_string, usize_to_string, views};

verus! {

/// The operating system the program was built for; it decides which ffmpeg
/// input device grabs the screen.
#[derive(Clone, Copy, PartialEq, Eq, Debug, Structural)]
pub enum TargetOs {
    MacOs,
    Windows,
    Linux,
    Other,
}

/// The `scale` part of the capture filter: scale to `height` lines, keeping
/// the aspect ratio with an even width.
pub open spec fn size_filter(resolution: Option<usize>) -> Seq<char> {
    match resolution {
        Some(height) => "scale=trunc(oh*a/2)*2:"@ + decimal(height as nat) + ","@,
        None => seq![],
    }
}

/// The `crop` part of the capture filter.
pub open spec fn crop_filter(crop: Option<CropFilter>) -> Seq<char> {
    match crop {
        Some(c) => "crop="@ + decimal(c.width as nat) + ":"@ + decimal(c.height as nat) + ":"@
            + decimal(c.x as nat) + ":"@ + decimal(c.y as nat) + ","@,
        None => seq![],
    }
}

/// The ffmpeg arguments that open the screen `target` as input.
pub open spec fn capture_input_args(target: Seq<char>, os: TargetOs) -> Seq<Seq<char>> {
    let framerate = decimal(CAPTURE_FPS as nat);
    match os {
        TargetOs::MacOs => seq!["-f"@, "avfoundation"@, "-r"@, framerate, "-i"@, target],
        TargetOs::Windows => seq!["-f"@, "gdigrab"@, "-framerate"@, framerate, "-i"@, target],
        TargetOs::Linux => seq!["-f"@, "x11grab"@, "-r"@, framerate, "-i"@, target],
        TargetOs::Other => seq![],
    }
}

/// The ffmpeg arguments that split the capture in an HLS stream, written to
/// `segment_path` and `playlist_path`, and raw RGBA frames on standard output.
pub open spec fn capture_output_args(
    resolution: Option<usize>,
    crop: Option<CropFilter>,
    segment_path: Seq<char>,
    playlist_path: Seq<char>,
) -> Seq<Seq<char>> {
    let complex_filter = "[0:v]"@ + size_filter(resolution) + crop_filter(crop) + "split=2[out1][out2]"@;
    let frames_per_segment = decimal((HLS_SEGMENT_DURATION * CAPTURE_FPS) as nat);
    seq![
        "-filter_complex"@, complex_filter,
        "-map"@, "[out1]"@,
        "-c:v"@, "libx264"@,
        "-preset"@, "ultrafast"@,
        "-tune"@, "zerolatency"@,
        "-g"@, frames_per_segment,
        "-keyint_min"@, frames_per_segment,
        "-sc_threshold"@, "0"@,
        "-f"@, "hls"@,
        "-hls_time"@, "2"@,
        "-hls_list_size"@, decimal(HLS_LIST_SIZE as nat),
        "-hls_flags"@, "delete_segments"@,
        "-hls_segment_filename"@, segment_path,
        playlist_path,
        "-map"@, "[out2]"@,
        "-pix_fmt"@, "rgba"@,
        "-f"@, "rawvideo"@,
        "-"@,
    ]
}

/// The whole capture command line, without its empty arguments.
pub open spec fn capture_args(
    resolution: Option<usize>,
    crop: Option<CropFilter>,
    target: Seq<char>,
    segment_path: Seq<char>,
    playlist_path: Seq<char>,
    os: TargetOs,
) -> Seq<Seq<char>> {
    nonempty_only(capture_input_args(target, os) + capture_output_args(resolution, crop, segment_path, playlist_path))
}

/// The capture command line holds no empty argument.
pub proof fn law_capture_args_have_no_empty_argument(
    resolution: Option<usize>,
    crop: Option<CropFilter>,
    target: Seq<char>,
    segment_path: Seq<char>,
    playlist_path: Seq<char>,
    os: TargetOs,
)
    ensures
        forall|i: int| 0 <= i < capture_args(resolution, crop, target, segment_path, playlist_path, os).len()
            ==> #[trigger] capture_args(resolution, crop, target, segment_path, playlist_path, os)[i].len() > 0,
{
    lemma_nonempty_only(capture_input_args(target, os) + capture_output_args(resolution, crop, segment_path, playlist_path));
}

/// What std's `Path::new(dir).join(file)`, turned back into text with
/// `to_string_lossy`, gives on the platform the library is built for.
pub uninterp spec fn path_join(dir: Seq<char>, file: Seq<char>) -> Seq<char>;

/// On every system with a screen grabber, the capture command line opens
/// the screen to grab as its input: it starts with the grabber's format and
/// 25 frames per second, then `-i` and the target right after it
/// (`-f gdigrab -framerate 25 -i target` on Windows, `-f avfoundation -r 25
/// -i target` on macOS, `-f x11grab -r 25 -i target` on Linux).
pub proof fn law_capture_grabs_the_target(
    resolution: Option<usize>,
    crop: Option<CropFilter>,
    target: Seq<char>,
    segment_path: Seq<char>,
    playlist_path: Seq<char>,
    os: TargetOs,
)
    requires
        os != TargetOs::Other,
        target.len() > 0,
    ensures
        capture_args(resolution, crop, target, segment_path, playlist_path, os).len() >= 6,
        capture_args(resolution, crop, target, segment_path, playlist_path, os)[4] == "-i"@,
        capture_args(resolution, crop, target, segment_path, playlist_path, os)[5] == target,
        os == TargetOs::Windows ==> capture_args(resolution, crop, target, segment_path, playlist_path, os).take(6)
            == seq!["-f"@, "gdigrab"@, "-framerate"@, "25"@, "-i"@, target],
        os == TargetOs::MacOs ==> capture_args(resolution, crop, target, segment_path, playlist_path, os).take(6)
            == seq!["-f"@, "avfoundation"@, "-r"@, "25"@, "-i"@, target],
        os == TargetOs::Linux ==> capture_args(resolution, crop, target, segment_path, playlist_path, os).take(6)
            == seq!["-f"@, "x11grab"@, "-r"@, "25"@, "-i"@, target],
{
    reveal_strlit("-f");
    reveal_strlit("gdigrab");
    reveal_strlit("avfoundation");
    reveal_strlit("x11grab");
    reveal_strlit("-framerate");
    reveal_strlit("-r");
    reveal_strlit("25");
    reveal_strlit("-i");
    assert(decimal(2) == seq![digit_char(2)]);
    assert(decimal(25) =~= "25"@);
    let input = capture_input_args(target, os);
    let output = capture_output_args(resolution, crop, segment_path, playlist_path);
    assert(input.len() == 6);
    assert(forall|i: int| 0 <= i < input.len() ==> #[trigger] input[i].len() > 0);
    lemma_nonempty_only_keeps_nonempty(input);
    lemma_nonempty_only_append(input, output);
    let all = capture_args(resolution, crop, target, segment_path, playlist_path, os);
    assert(all == input + nonempty_only(output));
    assert(all.take(6) =~= input);
}

/// Joins a directory and a file name with std's `Path::join`, and turns the
/// result back into text with `to_string_lossy`. The contract names the
/// outcome `path_join(dir, file)`: it depends on the two texts alone, for a
/// given build target. Which separator it inserts, and how a Windows verbatim
/// prefix normalises the path, is left to std and unsaid here.
#[verifier::external_body]
pub(crate) fn join_path(dir: &str, file: &str) -> (path: String)
    ensures
        path@ == path_join(dir@, file@),
{
    std::path::Path::new(dir).join(file).to_string_lossy().into_owned()
}

fn size_filter_string(resolution: Option<usize>) -> (s: String)
    ensures
        s@ == size_filter(resolution),
{
    match resolution {
        Some(height) => {
            let mut s = String::from_str("scale=trunc(oh*a/2)*2:");
            let h = usize_to_string(height);
            s.append(h.as_str());
            s.append(",");
            s
        },
        None => String::new(),
    }
}

fn crop_filter_string(crop: &Option<CropFilter>) -> (s: String)
    ensures
        s@ == crop_filter(*crop),
{
    match crop {
        Some(c) => {
            let mut s = String::from_str("crop=");
            let w = usize_to_string(c.width);
            s.append(w.as_str());
            s.append(":");
            let h = usize_to_string(c.height);
            s.append(h.as_str());
            s.append(":");
            let x = usize_to_string(c.x);
            s.append(x.as_str());
            s.append(":");
            let y = usize_to_string(c.y);
            s.append(y.as_str());
            s.append(",");
            s
        },
        None => String::new(),
    }
}

fn push_capture_input_args(args: &mut Vec<String>, target: &str, os: TargetOs)
    ensures
        views(final(args)@) == views(old(args)@) + capture_input_args(target@, os),
{
    let ghost start = views(args@);
    let framerate = usize_to_string(CAPTURE_FPS);
    match os {
        TargetOs::MacOs => {
            push_arg(args, "-f");
            push_arg(args, "avfoundation");
            push_arg(args, "-r");
            push_string(args, framerate);
            push_arg(args, "-i");
            push_arg(args, target);
        },
        TargetOs::Windows => {
            push_arg(args, "-f");
            push_arg(args, "gdigrab");
            push_arg(args, "-framerate");
            push_string(args, framerate);
            push_arg(args, "-i");
            push_arg(args, target);
        },
        TargetOs::Linux => {
            push_arg(args, "-f");
            push_arg(args, "x11grab");
            push_arg(args, "-r");
            push_string(args, framerate);
            push_arg(args, "-i");
            push_arg(args, target);
        },
        TargetOs::Other => {},
    }
    proof {
        assert(views(args@) =~= start + capture_input_args(target@, os));
    }
}

#[verifier::spinoff_prover]
fn push_capture_output_args(
    all: &mut Vec<String>,
    complex_filter: String,
    frames_per_segment: String,
    frames_per_segment_again: String,
    hls_list_size: String,
    segment_path: &str,
    playlist_path: &str,
)
    requires
        frames_per_segment@ == frames_per_segment_again@,
    ensures
        views(final(all)@) == views(old(all)@) + seq![
            "-filter_complex"@, complex_filter@,
            "-map"@, "[out1]"@,
            "-c:v"@, "libx264"@,
            "-preset"@, "ultrafast"@,
            "-tune"@, "zerolatency"@,
            "-g"@, frames_per_segment@,
            "-keyint_min"@, frames_per_segment@,
            "-sc_threshold"@, "0"@,
            "-f"@, "hls"@,
            "-hls_time"@, "2"@,
            "-hls_list_size"@, hls_list_size@,
            "-hls_flags"@, "delete_segments"@,
            "-hls_segment_filename"@, segment_path@,
            playlist_path@,
            "-map"@, "[out2]"@,
            "-pix_fmt"@, "rgba"@,
            "-f"@, "rawvideo"@,
            "-"@,
        ],
{
    let ghost start = views(all@);
    let ghost cf = complex_filter@;
    let ghost fs = frames_per_segment@;
    let ghost ls = hls_list_size@;
    push_arg(all, "-filter_complex");
    push_string(all, complex_filter);
    push_arg(all, "-map");
    push_arg(all, "[out1]");
    push_arg(all, "-c:v");
    push_arg(all, "libx264");
    push_arg(all, "-preset");
    push_arg(all, "ultrafast");
    push_arg(all, "-tune");
    push_arg(all, "zerolatency");
    push_arg(all, "-g");
    push_string(all, frames_per_segment);
    push_arg(all, "-keyint_min");
    push_string(all, frames_per_segment_again);
    push_arg(all, "-sc_threshold");
    push_arg(all, "0");
    push_arg(all, "-f");
    push_arg(all, "hls");
    push_arg(all, "-hls_time");
    push_arg(all, "2");
    push_arg(all, "-hls_list_size");
    push_string(all, hls_list_size);
    push_arg(all, "-hls_flags");
    push_arg(all, "delete_segments");
    push_arg(all, "-hls_segment_filename");
    push_arg(all, segment_path);
    push_arg(all, playlist_path);
    push_arg(all, "-map");
    push_arg(all, "[out2]");
    push_arg(all, "-pix_fmt");
    push_arg(all, "rgba");
    push_arg(all, "-f");
    push_arg(all, "rawvideo");
    push_arg(all, "-");
    proof {
        assert(views(all@) =~= start + seq![
            "-filter_complex"@, cf,
            "-map"@, "[out1]"@,
            "-c:v"@, "libx264"@,
            "-preset"@, "ultrafast"@,
            "-tune"@, "zerolatency"@,
            "-g"@, fs,
            "-keyint_min"@, fs,
            "-sc_threshold"@, "0"@,
            "-f"@, "hls"@,
            "-hls_time"@, "2"@,
            "-hls_list_size"@, ls,
            "-hls_flags"@, "delete_segments"@,
            "-hls_segment_filename"@, segment_path@,
            playlist_path@,
            "-map"@, "[out2]"@,
            "-pix_fmt"@, "rgba"@,
            "-f"@, "rawvideo"@,
            "-"@,
        ]);
    }
}

/// The capture command line with the HLS segment and playlist paths given:
/// the input of the screen `target`, then one output that scales and crops
/// the picture and splits it in an HLS stream and raw RGBA frames on
/// standard output. Empty arguments (an empty `target`) are left out.
pub fn ffmpeg_capture_args(
    resolution: Option<usize>,
    crop: Option<CropFilter>,
    target: &str,
    segment_path: &str,
    playlist_path: &str,
    os: TargetOs,
) -> (args: Vec<String>)
    ensures
        views(args@) == capture_args(resolution, crop, target@, segment_path@, playlist_path@, os),
{
    let mut all: Vec<String> = Vec::new();
    push_capture_input_args(&mut all, target, os);
    let ghost input = views(all@);
    let mut complex_filter = String::from_str("[0:v]");
    let size = size_filter_string(resolution);
    complex_filter.append(size.as_str());
    let crop_part = crop_filter_string(&crop);
    complex_filter.append(crop_part.as_str());
    complex_filter.append("split=2[out1][out2]");
    let frames_per_segment = usize_to_string(HLS_SEGMENT_DURATION * CAPTURE_FPS);
    let frames_per_segment_again = usize_to_string(HLS_SEGMENT_DURATION * CAPTURE_FPS);
    let hls_list_size = usize_to_string(HLS_LIST_SIZE);
    push_capture_output_args(&mut all, complex_filter, frames_per_segment, frames_per_segment_again, hls_list_size, segment_path, playlist_path);
    proof {
        assert(views(all@) =~= input + capture_output_args(resolution, crop, segment_path@, playlist_path@));
    }
    drop_empty(all)
}

/// The capture command line that writes the HLS stream into `save_dir`:
/// the `output_%03d.ts` segments and the `output.m3u8` playlist, each at the
/// path that `Path::join` gives for `save_dir` and that name.
pub fn get_ffmpeg_args(
    resolution: Option<usize>,
    crop: Option<CropFilter>,
    target: &str,
    save_dir: &str,
    os: TargetOs,
) -> (args: Vec<String>)
    requires
        os != TargetOs::Other,
    ensures
        views(args@) == capture_args(
            resolution,
            crop,
            target@,
            path_join(save_dir@, "output_%03d.ts"@),
            path_join(save_dir@, "output.m3u8"@),
            os,
        ),
{
    let segment_path = join_path(save_dir, "output_%03d.ts");
    let playlist_path = join_path(save_dir, "output.m3u8");
    ffmpeg_capture_args(resolution, crop, target, segment_path.as_str(), playlist_path.as_str(), os)
}

/// The encoder command line that reads raw RGBA frames of `width` x `height`
/// from standard input and writes them to `{filename}.mp4`.
pub open spec fn raw_encoder_args(width: usize, height: usize, filename: Seq<char>) -> Seq<Seq<char>> {
    seq![
        "-f"@, "rawvideo"@,
        "-pix_fmt"@, "rgba"@,
        "-s"@, decimal(width as nat) + "x"@ + decimal(height as nat),
        "-r"@, decimal(CAPTURE_FPS as nat),
        "-i"@, "-"@,
        filename + ".mp4"@,
    ]
}

/// The arguments of the ffmpeg encoder that saves a received stream.
pub fn raw_encoder_args_for(width: usize, height: usize, filename: &str) -> (args: Vec<String>)
    ensures
        views(args@) == raw_encoder_args(width, height, filename@),
{
    let mut size = usize_to_string(width);
    size.append("x");
    let h = usize_to_string(height);
    size.append(h.as_str());
    let mut file = String::from_str(filename);
    file.append(".mp4");
    let framerate = usize_to_string(CAPTURE_FPS);
    let mut args: Vec<String> = Vec::new();
    push_arg(&mut args, "-f");
    push_arg(&mut args, "rawvideo");
    push_arg(&mut args, "-pix_fmt");
    push_arg(&mut args, "rgba");
    push_arg(&mut args, "-s");
    push_string(&mut args, size);
    push_arg(&mut args, "-r");
    push_string(&mut args, framerate);
    push_arg(&mut args, "-i");
    push_arg(&mut args, "-");
    push_string(&mut args, file);
    proof {
        assert(views(args@) =~= raw_encoder_args(width, height, filename@));
    }
    args
}

/// The command line that grabs one frame of the screen `source` as a BMP
/// image on standard output.
pub open spec fn screenshot_args(source: Seq<char>) -> Seq<Seq<char>> {
    seq![
        "-f"@, "avfoundation"@,
        "-framerate"@, "1"@,
        "-i"@, source,
        "-frames:v"@, "1"@,
        "-pix_fmt"@, "rgba"@,
        "-f"@, "image2pipe"@,
        "-vcodec"@, "bmp"@,
        "-"@,
    ]
}

/// The arguments of the screenshot command; only the macOS grabber is
/// supported.
pub fn screenshot_args_for(source: &str) -> (args: Vec<String>)
    ensures
        views(args@) == screenshot_args(source@),
{
    let mut args: Vec<String> = Vec::new();
    push_arg(&mut args, "-f");
    push_arg(&mut args, "avfoundation");
    push_arg(&mut args, "-framerate");
    push_arg(&mut args, "1");
    push_arg(&mut args, "-i");
    push_arg(&mut args, source);
    push_arg(&mut args, "-frames:v");
    push_arg(&mut args, "1");
    push_arg(&mut args, "-pix_fmt");
    push_arg(&mut args, "rgba");
    push_arg(&mut args, "-f");
    push_arg(&mut args, "image2pipe");
    push_arg(&mut args, "-vcodec");
    push_arg(&mut args, "bmp");
    push_arg(&mut args, "-");
    proof {
        assert(views(args@) =~= screenshot_args(source@));
    }
    args
}

/// An RGB image: `width` x `height` pixels of three bytes, row by row.
pub struct RgbImage {
    pub width: u32,
    pub height: u32,
    pub pixels: Vec<u8>,
}

/// What the image crate decodes from BMP data, converted to 8-bit RGB:
/// the width, the height and the pixel bytes; `None` where the data is not
/// a BMP image it can read.
pub uninterp spec fn bmp_rgb8(data: Seq<u8>) -> Option<(u32, u32, Seq<u8>)>;

/// Decodes BMP data with the image crate (`load_from_memory_with_format`
/// with `ImageFormat::Bmp`, then `to_rgb8`, `dimensions` and `into_raw`).
/// The contract names the outcome `bmp_rgb8(data)`, and claims that the pixel
/// buffer holds exactly three bytes per pixel: `to_rgb8` builds the buffer
/// with `ImageBuffer::new(width, height)` or clones the decoder's, which the
/// decoder allocates at that size.
#[verifier::external_body]
fn decode_bmp_rgb8(data: &[u8]) -> (r: Option<(u32, u32, Vec<u8>)>)
    ensures
        match r {
            Some(img) => bmp_rgb8(data@) == Some((img.0, img.1, img.2@))
                && img.2@.len() == img.0 * img.1 * 3,
            None => bmp_rgb8(data@) is None,
        },
{
    let img = image::load_from_memory_with_format(data, image::ImageFormat::Bmp).ok()?;
    let rgb = img.to_rgb8();
    let (width, height) = rgb.dimensions();
    Some((width, height, rgb.into_raw()))
}

/// The screenshot that ffmpeg wrote as BMP data, as an RGB image; `None`
/// where the data cannot be read.
pub fn bmp_to_image(bmp_data: Vec<u8>) -> (r: Option<RgbImage>)
    ensures
        match r {
            Some(img) => bmp_rgb8(bmp_data@) == Some((img.width, img.height, img.pixels@))
                && img.pixels@.len() == img.width * img.height * 3,
            None => bmp_rgb8(bmp_data@) is None,
        },
{
    match decode_bmp_rgb8(bmp_data.as_slice()) {
        Some((width, height, pixels)) => Some(RgbImage { width, height, pixels }),
        None => None,
    }
}

/// The screens that can be captured, on any system: on macOS those that the
/// listing names, on Windows the desktop; Linux is not handled yet and, like
/// other systems, is answered with `UnsupportedOs`.
pub fn list_screen_capture_devices(os: TargetOs, listing: &str) -> (r: Result<Vec<(String, String)>, DeviceListError>)
    ensures
        os == TargetOs::MacOs ==> devices_outcome(r, line_captures(text_lines(listing@))),
        os == TargetOs::Windows ==> (r matches Ok(v) && str_pairs(v@) == windows_devices()),
        (os == TargetOs::Linux || os == TargetOs::Other) ==> r == Err::<Vec<(String, String)>, DeviceListError>(DeviceListError::UnsupportedOs),
{
    match os {
        TargetOs::MacOs => list_screen_capture_devices_macos(listing),
        TargetOs::Windows => {
            let mut v: Vec<(String, String)> = Vec::new();
            v.push((String::from_str("desktop"), String::from_str("desktop")));
            proof {
                assert(str_pairs(v@) =~= windows_devices());
            }
            Ok(v)
        },
        _ => Err(DeviceListError::UnsupportedOs),
    }
}

} // verus!
