use vstd::prelude::*;
use vstd::string::*;
use crate::assoc::{insert_pair, keys_distinct, lemma_assoc_empty, str_map, str_pairs};
use crate::text::{push_string, views};

verus! {

/// The pattern of a screen in ffmpeg's list of AVFoundation devices:
/// `[index] ... Capture screen ...`.
pub const SCREEN_DEVICE_PATTERN: &'static str = "\\[(\\d+)\\]\\s*(.*Capture screen.*)";

/// What `Regex::new(pattern)` followed by `captures(text)` gives: `None`
/// where the pattern does not compile or does not match or its first group
/// took part in no match; otherwise the text of the first group and that of
/// the second group (empty where the second group took part in no match).
pub uninterp spec fn regex_two_groups(pattern: Seq<char>, text: Seq<char>) -> Option<(Seq<char>, Seq<char>)>;

/// Compiles `pattern` with the regex crate's `Regex::new` and matches it
/// against `text` with `Regex::captures`. The contract names the outcome
/// `regex_two_groups(pattern, text)`: it depends on the pattern and the text
/// alone; what it is for given values is left to the regex crate.
#[verifier::external_body]
fn regex_capture_groups(pattern: &str, text: &str) -> (r: Option<(String, String)>)
    ensures
        match r {
            Some(p) => regex_two_groups(pattern@, text@) == Some((p.0@, p.1@)),
            None => regex_two_groups(pattern@, text@) is None,
        },
{
    let re = regex::Regex::new(pattern).ok()?;
    let caps = re.captures(text)?;
    let first = caps.get(1)?.as_str().to_string();
    let second = caps.get(2).map_or("", |m| m.as_str()).to_string();
    Some((first, second))
}

/// Splitting text at line feeds, character by character: the finished lines
/// (a carriage return before a line feed removed) and the line in progress.
pub open spec fn split_lines(s: Seq<char>) -> (Seq<Seq<char>>, Seq<char>)
    decreases s.len(),
{
    if s.len() == 0 {
        (seq![], seq![])
    } else {
        let (done, current) = split_lines(s.drop_last());
        if s.last() == '\n' {
            (done.push(strip_cr(current)), seq![])
        } else {
            (done, current.push(s.last()))
        }
    }
}

/// A line without its carriage return.
pub open spec fn strip_cr(line: Seq<char>) -> Seq<char> {
    if line.len() > 0 && line.last() == '\r' {
        line.drop_last()
    } else {
        line
    }
}

/// The lines of a text, as `str::lines` gives them: split at `\n` or
/// `\r\n`, with no empty line after a final line ending.
pub open spec fn text_lines(s: Seq<char>) -> Seq<Seq<char>> {
    let (done, current) = split_lines(s);
    if current.len() > 0 {
        done.push(current)
    } else {
        done
    }
}

/// The lines of a text, as `str::lines` gives them.
pub fn lines_of(s: &str) -> (lines: Vec<String>)
    ensures
        views(lines@) == text_lines(s@),
{
    let n = s.unicode_len();
    let mut done: Vec<String> = Vec::new();
    let mut start: usize = 0;
    let mut i: usize = 0;
    proof {
        assert(s@.take(0) =~= Seq::<char>::empty());
        assert(s@.subrange(0, 0) =~= Seq::<char>::empty());
    }
    while i < n
        invariant
            n == s@.len(),
            start <= i <= n,
            split_lines(s@.take(i as int)) == (views(done@), s@.subrange(start as int, i as int)),
        decreases n - i,
    {
        let c = s.get_char(i);
        proof {
            assert(s@.take(i + 1).drop_last() =~= s@.take(i as int));
            assert(s@.take(i + 1).last() == c);
        }
        if c == '\n' {
            let line = if i > start && s.get_char(i - 1) == '\r' {
                s.substring_char(start, i - 1)
            } else {
                s.substring_char(start, i)
            };
            proof {
                let cur = s@.subrange(start as int, i as int);
                if i > start && s@[i - 1] == '\r' {
                    assert(cur.last() == s@[i - 1]);
                    assert(cur.drop_last() =~= s@.subrange(start as int, i - 1));
                }
                assert(line@ == strip_cr(cur));
            }
            push_string(&mut done, String::from_str(line));
            start = i + 1;
            proof {
                assert(s@.subrange(start as int, i + 1) =~= Seq::<char>::empty());
            }
        } else {
            proof {
                assert(s@.subrange(start as int, i + 1) =~= s@.subrange(start as int, i as int).push(c));
            }
        }
        i = i + 1;
    }
    proof {
        assert(s@.take(n as int) =~= s@);
    }
    if start < n {
        let last = s.substring_char(start, n);
        push_string(&mut done, String::from_str(last));
    }
    done
}

/// The views of a list of optional string pairs.
pub open spec fn opt_pair_views(v: Seq<Option<(String, String)>>) -> Seq<Option<(Seq<char>, Seq<char>)>> {
    v.map_values(|o: Option<(String, String)>| match o {
        Some(p) => Some((p.0@, p.1@)),
        None => None,
    })
}

/// The devices that a list of captures names: each capture sets the name of
/// its index, a later one replacing an earlier one.
pub open spec fn captured_devices(caps: Seq<Option<(Seq<char>, Seq<char>)>>) -> Map<Seq<char>, Seq<char>>
    decreases caps.len(),
{
    if caps.len() == 0 {
        Map::empty()
    } else {
        let m = captured_devices(caps.drop_last());
        match caps.last() {
            Some(p) => m.insert(p.0, p.1),
            None => m,
        }
    }
}

/// The screen-pattern captures of each line of a device listing.
pub open spec fn line_captures(lines: Seq<Seq<char>>) -> Seq<Option<(Seq<char>, Seq<char>)>> {
    lines.map_values(|l: Seq<char>| regex_two_groups(SCREEN_DEVICE_PATTERN@, l))
}

/// Why no list of devices came out.
#[derive(Clone, Copy, PartialEq, Eq, Debug, Structural)]
pub enum DeviceListError {
    NoDevices,
    UnsupportedOs,
}

impl DeviceListError {
    /// The error message.
    pub fn message(&self) -> (s: String)
        ensures
            *self == DeviceListError::NoDevices ==> s@ == "No screen capture devices found"@,
            *self == DeviceListError::UnsupportedOs ==> s@ == "Unsupported operating system"@,
    {
        match self {
            DeviceListError::NoDevices => String::from_str("No screen capture devices found"),
            DeviceListError::UnsupportedOs => String::from_str("Unsupported operating system"),
        }
    }
}

/// The outcome of turning the captures `caps` into a device table.
pub open spec fn devices_outcome(
    r: Result<Vec<(String, String)>, DeviceListError>,
    caps: Seq<Option<(Seq<char>, Seq<char>)>>,
) -> bool {
    match r {
        Ok(v) => keys_distinct(str_pairs(v@)) && str_map(v@) == captured_devices(caps)
            && captured_devices(caps) != Map::<Seq<char>, Seq<char>>::empty(),
        Err(e) => e == DeviceListError::NoDevices && captured_devices(caps) == Map::<Seq<char>, Seq<char>>::empty(),
    }
}

/// The device table (index to name) of the captures of a listing's lines;
/// an error where no line named a screen.
pub fn devices_from_captures(captures: Vec<Option<(String, String)>>) -> (r: Result<Vec<(String, String)>, DeviceListError>)
    ensures
        devices_outcome(r, opt_pair_views(captures@)),
{
    let mut devices: Vec<(String, String)> = Vec::new();
    let n = captures.len();
    let ghost caps = opt_pair_views(captures@);
    for i in 0..n
        invariant
            n == captures@.len(),
            caps == opt_pair_views(captures@),
            keys_distinct(str_pairs(devices@)),
            str_map(devices@) == captured_devices(caps.take(i as int)),
    {
        proof {
            assert(caps.take(i + 1).drop_last() =~= caps.take(i as int));
            assert(caps.take(i + 1).last() == caps[i as int]);
        }
        match &captures[i] {
            Some(p) => {
                insert_pair(&mut devices, p.0.clone(), p.1.clone());
            },
            None => {},
        }
    }
    proof {
        assert(caps.take(n as int) =~= caps);
        lemma_assoc_empty(str_pairs(devices@));
    }
    if devices.len() == 0 {
        Err(DeviceListError::NoDevices)
    } else {
        Ok(devices)
    }
}

/// The screens that ffmpeg's AVFoundation device listing names (its
/// standard error, `listing`): the lines that match the screen pattern.
pub fn list_screen_capture_devices_macos(listing: &str) -> (r: Result<Vec<(String, String)>, DeviceListError>)
    ensures
        devices_outcome(r, line_captures(text_lines(listing@))),
{
    let lines = lines_of(listing);
    let mut captures: Vec<Option<(String, String)>> = Vec::new();
    let n = lines.len();
    for i in 0..n
        invariant
            n == lines@.len(),
            views(lines@) == text_lines(listing@),
            opt_pair_views(captures@) == line_captures(views(lines@).take(i as int)),
    {
        let c = regex_capture_groups(SCREEN_DEVICE_PATTERN, lines[i].as_str());
        let ghost before = captures@;
        captures.push(c);
        proof {
            assert(views(lines@)[i as int] == lines@[i as int]@);
            assert(opt_pair_views(captures@) =~= opt_pair_views(before).push(regex_two_groups(SCREEN_DEVICE_PATTERN@, lines@[i as int]@)));
            assert(views(lines@).take(i + 1) =~= views(lines@).take(i as int).push(views(lines@)[i as int]));
            assert(line_captures(views(lines@).take(i + 1)) =~= line_captures(views(lines@).take(i as int)).push(
                regex_two_groups(SCREEN_DEVICE_PATTERN@, views(lines@)[i as int])));
        }
    }
    proof {
        assert(views(lines@).take(n as int) =~= views(lines@));
    }
    devices_from_captures(captures)
}

/// The single capture device of Windows: the whole desktop.
pub open spec fn windows_devices() -> Seq<(Seq<char>, Seq<char>)> {
    seq![("desktop"@, "desktop"@)]
}

} // verus!
