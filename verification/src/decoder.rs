use vstd::prelude::*;
use crate::playback::{HEIGHT, WIDTH};
use crate::settings::CAPTURE_FPS;
use crate::text::{decimal, push_arg, push_string, usize_to_string, views};

verus! {

/// The video filter of the decoder: resample to the capture rate, scale to
/// the playback size, convert to RGBA.
pub open spec fn decoder_filter() -> Seq<char> {
    "fps="@ + decimal(CAPTURE_FPS as nat) + ",scale="@ + decimal(WIDTH as nat) + ":"@ + decimal(HEIGHT as nat)
        + ",format=rgba"@
}

/// The decoder command line: read `video_link`, write raw RGBA frames of the
/// playback size to standard output.
pub open spec fn decoder_args(video_link: Seq<char>) -> Seq<Seq<char>> {
    seq![
        "-hide_banner"@,
        "-loglevel"@, "error"@,
        "-i"@, video_link,
        "-r"@, decimal(CAPTURE_FPS as nat),
        "-vf"@, decoder_filter(),
        "-pix_fmt"@, "rgba"@,
        "-f"@, "rawvideo"@,
        "-"@,
    ]
}

pub fn get_ffmpeg_decoder_args(video_link: &str) -> (args: Vec<String>)
    ensures
        views(args@) == decoder_args(video_link@),
{
    let mut filter = String::from_str("fps=");
    let fps = usize_to_string(CAPTURE_FPS);
    filter.append(fps.as_str());
    filter.append(",scale=");
    let w = usize_to_string(WIDTH);
    filter.append(w.as_str());
    filter.append(":");
    let h = usize_to_string(HEIGHT);
    filter.append(h.as_str());
    filter.append(",format=rgba");
    let mut args: Vec<String> = Vec::new();
    push_arg(&mut args, "-hide_banner");
    push_arg(&mut args, "-loglevel");
    push_arg(&mut args, "error");
    push_arg(&mut args, "-i");
    push_arg(&mut args, video_link);
    push_arg(&mut args, "-r");
    push_string(&mut args, usize_to_string(CAPTURE_FPS));
    push_arg(&mut args, "-vf");
    push_string(&mut args, filter);
    push_arg(&mut args, "-pix_fmt");
    push_arg(&mut args, "rgba");
    push_arg(&mut args, "-f");
    push_arg(&mut args, "rawvideo");
    push_arg(&mut args, "-");
    proof {
        assert(views(args@) =~= decoder_args(video_link@));
    }
    args
}

} // verus!
