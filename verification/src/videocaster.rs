use vstd::prelude::*;
use crate::assoc::{find_key, keys_distinct, lemma_assoc_full, str_pairs};
use crate::capture::{get_ffmpeg_args, legacy_capture_args};
use crate::devices::DeviceListError;
use crate::ffmpeg::TargetOs;
use crate::text::views;

verus! {

/// Why the first command-line tool refused a request.
#[derive(Clone, Copy, PartialEq, Eq, Debug, Structural)]
pub enum CasterError {
    Listing(DeviceListError),
    NoDevices,
    NoDeviceSelected,
    DeviceNotFound,
    NoActiveRecording,
}

impl CasterError {
    /// The error message.
    pub fn message(&self) -> (s: String)
        ensures
            *self == CasterError::NoDevices ==> s@ == "No screen capture devices found"@,
            *self == CasterError::NoDeviceSelected ==> s@ == "No device selected for recording"@,
            *self == CasterError::DeviceNotFound ==> s@ == "Device index not found"@,
            *self == CasterError::NoActiveRecording ==> s@ == "No active recording to stop"@,
    {
        match self {
            CasterError::Listing(e) => e.message(),
            CasterError::NoDevices => String::from_str("No screen capture devices found"),
            CasterError::NoDeviceSelected => String::from_str("No device selected for recording"),
            CasterError::DeviceNotFound => String::from_str("Device index not found"),
            CasterError::NoActiveRecording => String::from_str("No active recording to stop"),
        }
    }
}

/// `[index] name`: one line of the device list.
pub open spec fn device_line(entry: (Seq<char>, Seq<char>)) -> Seq<char> {
    "["@ + entry.0 + "] "@ + entry.1
}

/// The device list shown to the user: one line per device.
pub open spec fn device_list_text(entries: Seq<(Seq<char>, Seq<char>)>) -> Seq<char>
    decreases entries.len(),
{
    if entries.len() == 0 {
        seq![]
    } else if entries.len() == 1 {
        device_line(entries[0])
    } else {
        device_list_text(entries.drop_last()) + "\n"@ + device_line(entries.last())
    }
}

/// The state of the first command-line recorder: the devices found, the one
/// selected, whether it records, and whether a recording process runs.
pub struct VideoCaster {
    available_devices: Vec<(String, String)>,
    selected_device: Option<String>,
    is_recording: bool,
    has_process: bool,
}

impl VideoCaster {
    /// The devices (index, name), in the order they are listed.
    pub closed spec fn entries(&self) -> Seq<(Seq<char>, Seq<char>)> {
        str_pairs(self.available_devices@)
    }

    pub open spec fn devices(&self) -> Map<Seq<char>, Seq<char>> {
        crate::assoc::assoc_map(self.entries())
    }

    pub closed spec fn selected(&self) -> Option<Seq<char>> {
        match self.selected_device {
            Some(h) => Some(h@),
            None => None,
        }
    }

    pub closed spec fn recording(&self) -> bool {
        self.is_recording
    }

    pub closed spec fn process_running(&self) -> bool {
        self.has_process
    }

    pub closed spec fn wf(&self) -> bool {
        keys_distinct(str_pairs(self.available_devices@))
    }

    pub fn new() -> (v: Self)
        ensures
            v.wf(),
            v.entries() == Seq::<(Seq<char>, Seq<char>)>::empty(),
            v.selected() is None,
            !v.recording(),
            !v.process_running(),
    {
        let v = VideoCaster { available_devices: Vec::new(), selected_device: None, is_recording: false, has_process: false };
        assert(str_pairs(v.available_devices@) =~= Seq::<(Seq<char>, Seq<char>)>::empty());
        v
    }

    /// Takes the result of listing the capture devices: an error leaves the
    /// devices as they were; a list replaces them, and an empty one is an
    /// error.
    pub fn list_devices(&mut self, listed: Result<Vec<(String, String)>, DeviceListError>) -> (r: Result<(), CasterError>)
        requires
            old(self).wf(),
            listed matches Ok(v) ==> keys_distinct(str_pairs(v@)),
        ensures
            final(self).wf(),
            final(self).selected() == old(self).selected(),
            final(self).recording() == old(self).recording(),
            final(self).process_running() == old(self).process_running(),
            match listed {
                Err(e) => final(self).entries() == old(self).entries()
                    && r == Err::<(), CasterError>(CasterError::Listing(e)),
                Ok(v) => final(self).entries() == str_pairs(v@)
                    && (r is Ok <==> v@.len() > 0)
                    && (r is Err ==> r == Err::<(), CasterError>(CasterError::NoDevices)),
            },
    {
        match listed {
            Err(e) => Err(CasterError::Listing(e)),
            Ok(v) => {
                self.available_devices = v;
                if self.available_devices.len() == 0 {
                    Err(CasterError::NoDevices)
                } else {
                    Ok(())
                }
            },
        }
    }

    /// The command line that records the `video_width` x `video_height` area
    /// at (`x`, `y`) of the selected device; with none selected, an error.
    /// The recording counts as started once the process runs
    /// (`recording_started`).
    pub fn start_recording(&self, video_width: u32, video_height: u32, x: u32, y: u32, os: TargetOs) -> (r: Result<Vec<String>, CasterError>)
        requires
            os != TargetOs::Other,
        ensures
            match self.selected() {
                Some(h) => r matches Ok(args) && views(args@) == legacy_capture_args(video_width, video_height, x, y, h, os),
                None => r == Err::<Vec<String>, CasterError>(CasterError::NoDeviceSelected),
            },
    {
        match &self.selected_device {
            Some(d) => Ok(get_ffmpeg_args(video_width, video_height, x, y, d.as_str(), os)),
            None => Err(CasterError::NoDeviceSelected),
        }
    }

    /// Notes that the recording process started.
    pub fn recording_started(&mut self)
        requires
            old(self).wf(),
        ensures
            final(self).wf(),
            final(self).recording(),
            final(self).process_running(),
            final(self).entries() == old(self).entries(),
            final(self).selected() == old(self).selected(),
    {
        self.has_process = true;
        self.is_recording = true;
    }

    /// Takes the recording process to stop it; without one, an error. The
    /// recording counts as stopped once the process has ended
    /// (`recording_stopped`).
    pub fn stop_recording(&mut self) -> (r: Result<(), CasterError>)
        requires
            old(self).wf(),
        ensures
            final(self).wf(),
            !final(self).process_running(),
            (r is Ok) == old(self).process_running(),
            r is Err ==> r == Err::<(), CasterError>(CasterError::NoActiveRecording),
            final(self).recording() == old(self).recording(),
            final(self).entries() == old(self).entries(),
            final(self).selected() == old(self).selected(),
    {
        if self.has_process {
            self.has_process = false;
            Ok(())
        } else {
            Err(CasterError::NoActiveRecording)
        }
    }

    /// Notes that the recording process stopped.
    pub fn recording_stopped(&mut self)
        requires
            old(self).wf(),
        ensures
            final(self).wf(),
            !final(self).recording(),
            final(self).process_running() == old(self).process_running(),
            final(self).entries() == old(self).entries(),
            final(self).selected() == old(self).selected(),
    {
        self.is_recording = false;
    }

    /// The devices as text, `[index] name` per line.
    pub fn get_device_list(&self) -> (s: String)
        ensures
            s@ == device_list_text(self.entries()),
    {
        let mut s = String::new();
        let n = self.available_devices.len();
        let ghost e = str_pairs(self.available_devices@);
        let mut i: usize = 0;
        while i < n
            invariant
                0 <= i <= n,
                n == self.available_devices@.len(),
                e == str_pairs(self.available_devices@),
                s@ == device_list_text(e.take(i as int)),
            decreases n - i,
        {
            if i > 0 {
                s.append("\n");
            }
            s.append("[");
            s.append(self.available_devices[i].0.as_str());
            s.append("] ");
            s.append(self.available_devices[i].1.as_str());
            proof {
                assert(e.take(i + 1).drop_last() =~= e.take(i as int));
                assert(e.take(i + 1).last() == e[i as int]);
                assert(e[i as int] == (self.available_devices@[i as int].0@, self.available_devices@[i as int].1@));
                if i == 0 {
                    assert(e.take(1)[0] == e[0]);
                }
            }
            i = i + 1;
        }
        proof {
            assert(e.take(n as int) =~= e);
        }
        s
    }

    pub fn get_selected_device(&self) -> (d: Option<String>)
        ensures
            match d {
                Some(s) => self.selected() == Some(s@),
                None => self.selected() is None,
            },
    {
        match &self.selected_device {
            Some(d) => Some(d.clone()),
            None => None,
        }
    }

    /// Selects a listed device; an unknown one is refused and changes nothing.
    pub fn set_selected_device(&mut self, device: String) -> (r: Result<(), CasterError>)
        requires
            old(self).wf(),
        ensures
            final(self).wf(),
            final(self).entries() == old(self).entries(),
            final(self).recording() == old(self).recording(),
            final(self).process_running() == old(self).process_running(),
            old(self).devices().dom().contains(device@) ==> r is Ok && final(self).selected() == Some(device@),
            !old(self).devices().dom().contains(device@) ==> r == Err::<(), CasterError>(CasterError::DeviceNotFound)
                && final(self).selected() == old(self).selected(),
    {
        proof {
            lemma_assoc_full(str_pairs(self.available_devices@));
        }
        match find_key(&self.available_devices, device.as_str()) {
            Some(i) => {
                proof {
                    assert(str_pairs(self.available_devices@)[i as int].0 == device@);
                }
                self.selected_device = Some(device);
                Ok(())
            },
            None => Err(CasterError::DeviceNotFound),
        }
    }

    pub fn get_status(&self) -> (r: bool)
        ensures
            r == self.recording(),
    {
        self.is_recording
    }

    /// The index of the first listed device.
    pub fn get_first_device(&self) -> (d: Option<String>)
        requires
            self.wf(),
        ensures
            match d {
                Some(s) => self.entries().len() > 0 && s@ == self.entries()[0].0,
                None => self.entries().len() == 0,
            },
    {
        if self.available_devices.len() == 0 {
            None
        } else {
            Some(self.available_devices[0].0.clone())
        }
    }
}

} // verus!
