use vstd::prelude::*;
use crate::crop::{checked_scaled, scalable, scaled, even_floor, truncate_to_even, CropFilter, RelativeScreenCrop};
use crate::screen::Screen;
use crate::settings::CAPTURE_HEIGHT;

verus! {

/// Why a recording request was refused.
#[derive(Clone, Copy, PartialEq, Eq, Debug, Structural)]
pub enum CaptureError {
    NoDeviceSelected,
    DeviceNotFound,
}

impl CaptureError {
    /// The error message.
    pub fn message(&self) -> (s: String)
        ensures
            *self == CaptureError::NoDeviceSelected ==> s@ == "No device selected for recording"@,
            *self == CaptureError::DeviceNotFound ==> s@ == "Device index not found"@,
    {
        match self {
            CaptureError::NoDeviceSelected => String::from_str("No device selected for recording"),
            CaptureError::DeviceNotFound => String::from_str("Device index not found"),
        }
    }
}

/// The frame geometry of a recording.
#[derive(Clone, Copy, PartialEq, Eq, Debug, Structural)]
pub struct CaptureGeometry {
    /// The crop, in pixels of the scaled capture.
    pub crop: Option<CropFilter>,
    /// Width of the frames delivered.
    pub width: usize,
    /// Height of the frames delivered.
    pub height: usize,
    /// Bytes of one RGBA frame.
    pub frame_bytes: usize,
}

/// Width of the capture once scaled to `CAPTURE_HEIGHT` lines.
pub open spec fn scaled_width(device_width: nat, device_height: nat) -> nat {
    device_width * (CAPTURE_HEIGHT as nat) / device_height
}

/// The geometry can be computed without overflow.
pub open spec fn geometry_computable(device_width: usize, device_height: usize, relative_crop: Option<RelativeScreenCrop>) -> bool {
    &&& device_height > 0
    &&& device_width * CAPTURE_HEIGHT <= usize::MAX
    &&& match relative_crop {
        Some(r) => {
            let w = scaled_width(device_width as nat, device_height as nat);
            &&& scalable(r.x, w)
            &&& scalable(r.y, CAPTURE_HEIGHT as nat)
            &&& scalable(r.width, w)
            &&& scalable(r.height, CAPTURE_HEIGHT as nat)
            &&& even_floor(scaled(r.width, w)) * even_floor(scaled(r.height, CAPTURE_HEIGHT as nat)) * 4 <= usize::MAX
        },
        None => w_h_fit(device_width as nat, device_height as nat),
    }
}

pub open spec fn w_h_fit(device_width: nat, device_height: nat) -> bool {
    scaled_width(device_width, device_height) * (CAPTURE_HEIGHT as nat) * 4 <= usize::MAX
}

/// Whether the geometry of a screen of `device_width` x `device_height`
/// pixels with `relative_crop` can be computed (the precondition of
/// `capture_geometry`).
pub fn geometry_is_computable(device_width: usize, device_height: usize, relative_crop: Option<RelativeScreenCrop>) -> (b: bool)
    ensures
        b == geometry_computable(device_width, device_height, relative_crop),
{
    if device_height == 0 {
        return false;
    }
    let product = match device_width.checked_mul(CAPTURE_HEIGHT) {
        Some(v) => v,
        None => return false,
    };
    let width = product / device_height;
    assert(width == scaled_width(device_width as nat, device_height as nat));
    match relative_crop {
        Some(r) => {
            let x = checked_scaled(r.x, width);
            let y = checked_scaled(r.y, CAPTURE_HEIGHT);
            let w = checked_scaled(r.width, width);
            let h = checked_scaled(r.height, CAPTURE_HEIGHT);
            match (x, y, w, h) {
                (Some(_), Some(_), Some(w), Some(h)) => {
                    let ew = truncate_to_even(w);
                    let eh = truncate_to_even(h);
                    match ew.checked_mul(eh) {
                        Some(area) => area.checked_mul(4).is_some(),
                        None => {
                            proof {
                                assert(ew * eh * 4 > usize::MAX) by (nonlinear_arith)
                                    requires ew * eh > usize::MAX;
                            }
                            false
                        },
                    }
                },
                _ => false,
            }
        },
        None => match width.checked_mul(CAPTURE_HEIGHT) {
            Some(area) => area.checked_mul(4).is_some(),
            None => {
                proof {
                    assert(width * CAPTURE_HEIGHT * 4 > usize::MAX) by (nonlinear_arith)
                        requires width * CAPTURE_HEIGHT > usize::MAX;
                }
                false
            },
        },
    }
}

/// The geometry of recording a screen of `device_width` x `device_height`
/// pixels: the capture is scaled to `CAPTURE_HEIGHT` lines keeping the aspect
/// ratio, the relative crop (if any) is turned into pixels of that scaled
/// picture, and the frames delivered have the crop's size, or the scaled
/// size where there is no crop.
pub fn capture_geometry(device_width: usize, device_height: usize, relative_crop: Option<RelativeScreenCrop>) -> (g: CaptureGeometry)
    requires
        geometry_computable(device_width, device_height, relative_crop),
    ensures
        match relative_crop {
            Some(r) => {
                let w = scaled_width(device_width as nat, device_height as nat);
                &&& g.crop == Some(CropFilter {
                    x: scaled(r.x, w) as usize,
                    y: scaled(r.y, CAPTURE_HEIGHT as nat) as usize,
                    width: even_floor(scaled(r.width, w)) as usize,
                    height: even_floor(scaled(r.height, CAPTURE_HEIGHT as nat)) as usize,
                })
                &&& g.width == even_floor(scaled(r.width, w))
                &&& g.height == even_floor(scaled(r.height, CAPTURE_HEIGHT as nat))
            },
            None => g.crop is None && g.width == scaled_width(device_width as nat, device_height as nat)
                && g.height == CAPTURE_HEIGHT,
        },
        g.frame_bytes == g.width * g.height * 4,
{
    let height = CAPTURE_HEIGHT;
    let width = device_width * height / device_height;
    match relative_crop {
        Some(r) => {
            let c = CropFilter::from(&r, width, height);
            proof {
                assert(c.width * c.height * 4 <= usize::MAX);
            }
            CaptureGeometry { crop: Some(c), width: c.width, height: c.height, frame_bytes: c.width * c.height * 4 }
        },
        None => CaptureGeometry { crop: None, width, height, frame_bytes: width * height * 4 },
    }
}

/// What a started recording captures: the index of the screen among the
/// capture devices and the selected area.
#[derive(Clone, Copy, PartialEq, Eq, Debug, Structural)]
pub struct RecordingPlan {
    pub device: usize,
    pub crop: Option<RelativeScreenCrop>,
}

/// The state of the screen capture: the screens, the one selected, whether
/// a recording runs, and the area selection in progress.
pub struct Capturer {
    capture_devices: Vec<Screen>,
    selected_device: Option<String>,
    is_recording: bool,
    has_helper: bool,
    pub selecting_area: bool,
    pub selected_area: Option<RelativeScreenCrop>,
}

/// Some screen of the list has the handle `h`.
pub open spec fn has_screen(devices: Seq<Screen>, h: Seq<char>) -> bool {
    exists|i: int| 0 <= i < devices.len() && #[trigger] devices[i].handle_spec() == h
}

impl Capturer {
    pub closed spec fn devices(&self) -> Seq<Screen> {
        self.capture_devices@
    }

    pub closed spec fn selected(&self) -> Option<Seq<char>> {
        match self.selected_device {
            Some(h) => Some(h@),
            None => None,
        }
    }

    pub closed spec fn recording(&self) -> bool {
        self.is_recording
    }

    /// A recording helper has been started (and not necessarily stopped).
    pub closed spec fn helper_started(&self) -> bool {
        self.has_helper
    }

    pub closed spec fn area(&self) -> Option<RelativeScreenCrop> {
        self.selected_area
    }

    pub closed spec fn selecting(&self) -> bool {
        self.selecting_area
    }

    /// The selected screen, if any, is among the capture devices.
    pub open spec fn consistent(&self) -> bool {
        self.selected() matches Some(h) ==> has_screen(self.devices(), h)
    }

    pub fn new() -> (c: Self)
        ensures
            c.devices() == Seq::<Screen>::empty(),
            c.selected() is None,
            !c.recording(),
            !c.helper_started(),
            !c.selecting(),
            c.area() is None,
    {
        Capturer {
            capture_devices: Vec::new(),
            selected_device: None,
            is_recording: false,
            has_helper: false,
            selecting_area: false,
            selected_area: None,
        }
    }

    /// Replaces the list of screens.
    pub fn set_capture_devices(&mut self, devices: Vec<Screen>)
        ensures
            final(self).devices() == devices@,
            final(self).selected() == old(self).selected(),
            final(self).recording() == old(self).recording(),
            final(self).helper_started() == old(self).helper_started(),
            final(self).area() == old(self).area(),
    {
        self.capture_devices = devices;
    }

    pub fn get_capture_devices(&self) -> (d: &Vec<Screen>)
        ensures
            d@ == self.devices(),
    {
        &self.capture_devices
    }

    fn find_device(&self, handle: &String) -> (r: Option<usize>)
        ensures
            match r {
                Some(i) => i < self.devices().len() && self.devices()[i as int].handle_spec() == handle@,
                None => !has_screen(self.devices(), handle@),
            },
    {
        let n = self.capture_devices.len();
        for i in 0..n
            invariant
                n == self.capture_devices@.len(),
                forall|j: int| 0 <= j < i ==> #[trigger] self.capture_devices@[j].handle_spec() != handle@,
        {
            let h = self.capture_devices[i].handle();
            if h == *handle {
                return Some(i);
            }
        }
        None
    }

    /// Selects a screen by handle, or clears the selection. A handle that
    /// no screen has is refused and changes nothing.
    pub fn set_selected_device(&mut self, device: Option<String>) -> (r: Result<(), CaptureError>)
        ensures
            final(self).devices() == old(self).devices(),
            final(self).recording() == old(self).recording(),
            final(self).helper_started() == old(self).helper_started(),
            final(self).area() == old(self).area(),
            match device {
                None => r is Ok && final(self).selected() is None,
                Some(d) => if has_screen(old(self).devices(), d@) {
                    r is Ok && final(self).selected() == Some(d@)
                } else {
                    r == Err::<(), CaptureError>(CaptureError::DeviceNotFound) && final(self).selected() == old(self).selected()
                },
            },
    {
        match device {
            None => {
                self.selected_device = None;
                Ok(())
            },
            Some(d) => {
                if self.find_device(&d).is_some() {
                    self.selected_device = Some(d);
                    Ok(())
                } else {
                    Err(CaptureError::DeviceNotFound)
                }
            },
        }
    }

    /// The position of the selected screen among the capture devices.
    pub fn get_selected_device(&self) -> (r: Option<usize>)
        requires
            self.consistent(),
        ensures
            match self.selected() {
                None => r is None,
                Some(h) => r matches Some(i) && i < self.devices().len() && self.devices()[i as int].handle_spec() == h,
            },
    {
        match &self.selected_device {
            None => None,
            Some(h) => self.find_device(h),
        }
    }

    /// Starts a recording of the selected screen and its selected area; with
    /// no screen selected, refuses and changes nothing.
    pub fn start_recording(&mut self) -> (r: Result<RecordingPlan, CaptureError>)
        requires
            old(self).consistent(),
        ensures
            final(self).devices() == old(self).devices(),
            final(self).selected() == old(self).selected(),
            final(self).area() == old(self).area(),
            match old(self).selected() {
                None => r == Err::<RecordingPlan, CaptureError>(CaptureError::NoDeviceSelected)
                    && final(self).recording() == old(self).recording()
                    && final(self).helper_started() == old(self).helper_started(),
                Some(h) => r matches Ok(p) && p.device < old(self).devices().len()
                    && old(self).devices()[p.device as int].handle_spec() == h
                    && p.crop == old(self).area()
                    && final(self).recording() && final(self).helper_started(),
            },
    {
        match self.get_selected_device() {
            Some(i) => {
                self.is_recording = true;
                self.has_helper = true;
                Ok(RecordingPlan { device: i, crop: self.selected_area })
            },
            None => Err(CaptureError::NoDeviceSelected),
        }
    }

    /// Stops the recording; returns whether a helper is to be told to stop.
    pub fn stop_recording(&mut self) -> (signal: bool)
        ensures
            signal == old(self).helper_started(),
            final(self).helper_started() == old(self).helper_started(),
            final(self).recording() == (old(self).recording() && !old(self).helper_started()),
            final(self).devices() == old(self).devices(),
            final(self).selected() == old(self).selected(),
            final(self).area() == old(self).area(),
    {
        if !self.has_helper {
            return false;
        }
        self.is_recording = false;
        true
    }

    pub fn set_selected_area(&mut self, crop: RelativeScreenCrop)
        ensures
            final(self).area() == Some(crop),
            final(self).devices() == old(self).devices(),
            final(self).selected() == old(self).selected(),
            final(self).recording() == old(self).recording(),
            final(self).helper_started() == old(self).helper_started(),
    {
        self.selected_area = Some(crop);
    }

    pub fn is_recording(&self) -> (r: bool)
        ensures
            r == self.recording(),
    {
        self.is_recording
    }
}

} // verus!
