use vstd::prelude::*;
use crate::crop::RelativeScreenCrop;

verus! {

/// A screen that can be captured: the handle ffmpeg opens it by, the name
/// shown to the user, and the area of it selected for capture.
#[derive(Clone)]
pub struct Screen {
    handle: String,
    name: String,
    pub selected_area: Option<RelativeScreenCrop>,
}

impl Screen {
    pub closed spec fn handle_spec(&self) -> Seq<char> {
        self.handle@
    }

    pub closed spec fn name_spec(&self) -> Seq<char> {
        self.name@
    }

    pub closed spec fn area(&self) -> Option<RelativeScreenCrop> {
        self.selected_area
    }

    /// A screen with no area selected; without a name, the handle is the name.
    pub fn new(handle: String, name: Option<String>) -> (s: Self)
        ensures
            s.handle_spec() == handle@,
            s.name_spec() == (match name {
                Some(n) => n@,
                None => handle@,
            }),
            s.area() is None,
    {
        let name = match name {
            Some(n) => n,
            None => handle.clone(),
        };
        Screen { handle, name, selected_area: None }
    }

    pub fn handle(&self) -> (h: String)
        ensures
            h@ == self.handle_spec(),
    {
        self.handle.clone()
    }

    pub fn name(&self) -> (n: String)
        ensures
            n@ == self.name_spec(),
    {
        self.name.clone()
    }

    pub fn set_selected_area(&mut self, area: Option<RelativeScreenCrop>)
        ensures
            final(self).area() == area,
            final(self).handle_spec() == old(self).handle_spec(),
            final(self).name_spec() == old(self).name_spec(),
    {
        self.selected_area = area;
    }

    /// The screens of a device listing (handle to name), in its order.
    pub fn get_all(devices: Vec<(String, String)>) -> (screens: Vec<Screen>)
        ensures
            screens@.len() == devices@.len(),
            forall|i: int| 0 <= i < screens@.len() ==> #[trigger] screens@[i].handle_spec() == devices@[i].0@
                && screens@[i].name_spec() == devices@[i].1@ && screens@[i].area() is None,
    {
        let mut screens: Vec<Screen> = Vec::new();
        let n = devices.len();
        let mut i: usize = 0;
        while i < n
            invariant
                0 <= i <= n,
                n == devices@.len(),
                screens@.len() == i,
                forall|j: int| 0 <= j < i ==> #[trigger] screens@[j].handle_spec() == devices@[j].0@
                    && screens@[j].name_spec() == devices@[j].1@ && screens@[j].area() is None,
            decreases n - i,
        {
            let handle = devices[i].0.clone();
            let name = devices[i].1.clone();
            let ghost before = screens@;
            let screen = Screen::new(handle, Some(name));
            screens.push(screen);
            proof {
                assert forall|j: int| 0 <= j < i + 1 implies #[trigger] screens@[j].handle_spec() == devices@[j].0@
                    && screens@[j].name_spec() == devices@[j].1@ && screens@[j].area() is None by {
                    if j < i {
                        assert(screens@[j] == before[j]);
                    }
                }
            }
            i = i + 1;
        }
        screens
    }
}

} // verus!
