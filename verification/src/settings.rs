use vstd::prelude::*;

verus! {

/// Height in pixels of the captured video.
pub const CAPTURE_HEIGHT: usize = 1080;
/// Frames per second of the capture and of the playback.
pub const CAPTURE_FPS: usize = 25;
/// Nanoseconds between two frames: `1000 / CAPTURE_FPS` milliseconds.
pub const CAPTURE_PERIOD_NS: u64 = 40_000_000;
/// Port of the HLS server and of the discovery broadcast.
pub const SERVER_PORT: u16 = 3000;
/// Duration in seconds of a single HLS segment.
pub const HLS_SEGMENT_DURATION: usize = 2;
/// Number of segments available at most at any time.
pub const HLS_LIST_SIZE: usize = 4;
/// Width of the frames produced by the playback decoder.
pub const DECODER_WIDTH: usize = 1280;
/// Height of the frames produced by the playback decoder.
pub const DECODER_HEIGHT: usize = 720;

/// Qualifier of the application's configuration directory.
pub const APP_QUALIFIER: &'static str = "com";
/// Organization of the application's configuration directory.
pub const APP_ORGANIZATION: &'static str = "polito";
/// The application's name.
pub const APP_NAME: &'static str = "PoliCast";

/// User settings. Paths are kept as the text the user entered.
pub struct Settings {
    caster_save_dir: String,
    pub player_save_dir: Option<String>,
    pub player_save_enabled: bool,
}

/// What the settings hold, as mathematical values.
pub struct SettingsView {
    pub save_dir: Seq<char>,
    pub player_save_dir: Option<Seq<char>>,
    pub player_save_enabled: bool,
}

/// The view of an optional string.
pub open spec fn opt_view(o: Option<String>) -> Option<Seq<char>> {
    match o {
        Some(s) => Some(s@),
        None => None,
    }
}

impl View for Settings {
    type V = SettingsView;

    closed spec fn view(&self) -> SettingsView {
        SettingsView {
            save_dir: self.caster_save_dir@,
            player_save_dir: opt_view(self.player_save_dir),
            player_save_enabled: self.player_save_enabled,
        }
    }
}

impl Settings {
    /// Settings with the given caster directory and player options.
    pub fn new(caster_save_dir: String, player_save_dir: Option<String>, player_save_enabled: bool) -> (s: Self)
        ensures
            s@.save_dir == caster_save_dir@,
            s@.player_save_dir == opt_view(player_save_dir),
            s@.player_save_enabled == player_save_enabled,
    {
        Settings { caster_save_dir, player_save_dir, player_save_enabled }
    }

    pub fn set_save_dir(&mut self, path: &str)
        ensures
            final(self)@.save_dir == path@,
            final(self)@.player_save_dir == old(self)@.player_save_dir,
            final(self)@.player_save_enabled == old(self)@.player_save_enabled,
    {
        self.caster_save_dir = String::from_str(path);
    }

    pub fn get_save_dir(&self) -> (path: String)
        ensures
            path@ == self@.save_dir,
    {
        self.caster_save_dir.clone()
    }
}

} // verus!
