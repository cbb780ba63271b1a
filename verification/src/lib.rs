//! Verified core of a LAN screen-casting tool: the ffmpeg command lines it
//! runs, the crop geometry of a captured area, the hotkey bindings, the
//! playback state machine, caster discovery and the small text helpers they
//! share. Everything that touches a process, a socket, a file or a window
//! lives in the application around this library.

pub mod text;
pub mod settings;
pub mod hotkey;
pub mod crop;
pub mod ffmpeg;
pub mod assoc;
pub mod devices;
pub mod capture;
pub mod decoder;
pub mod playback;
pub mod server;
pub mod screen;
pub mod capturer;
pub mod videocaster;
pub mod util;
pub mod gui;
pub mod worker;
