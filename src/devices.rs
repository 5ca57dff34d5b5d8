use vstd::prelude::*;
use crate::text::{
    contains_str, find_from, find_str, lemma_find_from_bounds, parse_u32, spec_contains,
    spec_parse_u32, spec_trim, trim,
};

verus! {

/// A capture device as the device listing names it.
#[derive(Debug)]
pub struct VideoDevice {
    pub id: u32,
    pub name: String,
}

impl View for VideoDevice {
    type V = (u32, Seq<char>);

    open spec fn view(&self) -> (u32, Seq<char>) {
        (self.id, self.name@)
    }
}

/// The name shown for the selected device: that of the first listed device with
/// the id, or empty where none has it.
pub fn selected_device_name(devices: &Vec<VideoDevice>, id: u32) -> (r: String)
    ensures
        forall|i: int| 0 <= i < devices@.len() && devices@[i].id == id
            && (forall|k: int| 0 <= k < i ==> devices@[k].id != id) ==> r@ == devices@[i].name@,
        (forall|k: int| 0 <= k < devices@.len() ==> devices@[k].id != id) ==> r@ == Seq::<char>::empty(),
{
    let mut i: usize = 0;
    while i < devices.len()
        invariant
            i <= devices@.len(),
            forall|k: int| 0 <= k < i ==> devices@[k].id != id,
        decreases devices@.len() - i,
    {
        if devices[i].id == id {
            return devices[i].name.clone();
        }
        i += 1;
    }
    String::new()
}

/// The device selected at first: the first listed one, or device 0 where the
/// list is empty.
pub fn first_device_id(devices: &Vec<VideoDevice>) -> (r: u32)
    ensures
        devices@.len() > 0 ==> r == devices@[0].id,
        devices@.len() == 0 ==> r == 0,
{
    if devices.len() > 0 {
        devices[0].id
    } else {
        0
    }
}

/// A device entry line reads `... ] [<id>] <name>`: the id is the decimal
/// number between the first `] [` and the `] ` after it, the name is the rest
/// of the line without surrounding whitespace.
pub open spec fn spec_parse_device_line(line: Seq<char>) -> Option<(u32, Seq<char>)> {
    match find_from(line, "] ["@, 0) {
        None => None,
        Some(p) => {
            let after = line.skip(p + 3);
            match find_from(after, "] "@, 0) {
                None => None,
                Some(q) => match spec_parse_u32(after.take(q)) {
                    None => None,
                    Some(id) => Some((id, spec_trim(after.skip(q + 2)))),
                },
            }
        },
    }
}

/// Reads one device entry line of the capture program's device listing.
pub fn parse_device_line(line: &str) -> (r: Option<VideoDevice>)
    ensures
        r matches Some(d) ==> spec_parse_device_line(line@) == Some(d@),
        r is None ==> spec_parse_device_line(line@) is None,
{
    proof {
        reveal_strlit("] [");
        reveal_strlit("] ");
    }
    let n = line.unicode_len();
    let p = match find_str(line, "] [", 0) {
        Some(p) => p,
        None => return None,
    };
    let after = line.substring_char(p + 3, n);
    assert(after@ =~= line@.skip(p + 3));
    let m = after.unicode_len();
    let q = match find_str(after, "] ", 0) {
        Some(q) => q,
        None => return None,
    };
    let id_text = after.substring_char(0, q);
    assert(id_text@ =~= after@.take(q as int));
    let id = match parse_u32(id_text) {
        Some(id) => id,
        None => return None,
    };
    let rest = after.substring_char(q + 2, m);
    assert(rest@ =~= after@.skip(q + 2));
    let name = trim(rest).to_owned();
    Some(VideoDevice { id, name })
}

/// Where the line that begins at `start` ends: at the next newline, or at the
/// end of the text.
pub open spec fn line_end(s: Seq<char>, start: int) -> int {
    match find_from(s, "\n"@, start) {
        Some(i) => i,
        None => s.len() as int,
    }
}

/// The line that begins at `start`, without its line ending (`\n` or `\r\n`).
pub open spec fn line_at(s: Seq<char>, start: int) -> Seq<char> {
    let end = line_end(s, start);
    let raw = s.subrange(start, end);
    if end < s.len() && raw.len() > 0 && raw.last() == '\r' {
        raw.drop_last()
    } else {
        raw
    }
}

/// The devices listed in `s` from position `start` on: entry lines count only
/// after the video section header and up to the audio section header.
pub open spec fn devices_from(s: Seq<char>, start: int, in_video: bool) -> Seq<(u32, Seq<char>)>
    decreases s.len() + 1 - start,
    via devices_from_decreases
{
    if start < 0 || start >= s.len() {
        Seq::empty()
    } else {
        let line = line_at(s, start);
        let next = line_end(s, start) + 1;
        if spec_contains(line, "AVFoundation video devices:"@) {
            devices_from(s, next, true)
        } else if spec_contains(line, "AVFoundation audio devices:"@) {
            Seq::empty()
        } else {
            let rest = devices_from(s, next, in_video);
            if in_video && spec_contains(line, "[AVFoundation indev @"@) && spec_contains(
                line,
                "] ["@,
            ) {
                match spec_parse_device_line(line) {
                    Some(d) => seq![d] + rest,
                    None => rest,
                }
            } else {
                rest
            }
        }
    }
}

#[via_fn]
proof fn devices_from_decreases(s: Seq<char>, start: int, in_video: bool) {
    lemma_find_from_bounds(s, "\n"@, start);
}

pub open spec fn devices_view(v: Seq<VideoDevice>) -> Seq<(u32, Seq<char>)> {
    v.map_values(|d: VideoDevice| d@)
}

/// Reads the video devices out of the capture program's device listing.
pub fn parse_device_list(text: &str) -> (r: Vec<VideoDevice>)
    ensures
        devices_view(r@) == devices_from(text@, 0, false),
{
    let n = text.unicode_len();
    let mut devices: Vec<VideoDevice> = Vec::new();
    let mut in_video = false;
    let mut pos: usize = 0;
    while pos < n
        invariant
            n == text@.len(),
            pos <= n,
            devices_view(devices@) + devices_from(text@, pos as int, in_video) == devices_from(
                text@,
                0,
                false,
            ),
        decreases n - pos,
    {
        let ghost s = text@;
        let ghost before = devices@;
        let end = match find_str(text, "\n", pos) {
            Some(e) => e,
            None => n,
        };
        proof {
            reveal_strlit("\n");
            lemma_find_from_bounds(s, "\n"@, pos as int);
        }
        assert(end == line_end(s, pos as int));
        let raw = text.substring_char(pos, end);
        let raw_len = end - pos;
        let line = if end < n && raw_len > 0 && raw.get_char(raw_len - 1) == '\r' {
            raw.substring_char(0, raw_len - 1)
        } else {
            raw
        };
        assert(line@ =~= line_at(s, pos as int));
        if contains_str(line, "AVFoundation video devices:") {
            in_video = true;
        } else if contains_str(line, "AVFoundation audio devices:") {
            assert(devices_view(devices@) =~= devices_view(devices@) + Seq::empty());
            return devices;
        } else if in_video && contains_str(line, "[AVFoundation indev @") && contains_str(
            line,
            "] [",
        ) {
            match parse_device_line(line) {
                Some(d) => {
                    devices.push(d);
                    assert(devices_view(devices@) =~= devices_view(before).push(d@));
                },
                None => {},
            }
        }
        if end == n {
            assert(devices_from(s, end + 1, in_video) == Seq::<(u32, Seq<char>)>::empty());
            assert(devices_view(devices@) =~= devices_view(devices@) + Seq::empty());
            return devices;
        }
        pos = end + 1;
    }
    assert(devices_view(devices@) =~= devices_view(devices@) + Seq::empty());
    devices
}

} // verus!
