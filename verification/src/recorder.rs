//! The screen recorder's command line: the capture geometry of the selected
//! region, the timestamped output file, the audio device, and the argv that
//! `wf-recorder` gets.

use vstd::prelude::*;
use crate::placement::{PixelRect, fits_i32};
use crate::text::{decimal, signed_decimal, push_decimal, push_signed_decimal};
use crate::controls::Audio;
use crate::audio::{SINK_NAME, monitor_of};

verus! {

/// Why a region cannot be recorded.
#[derive(Clone, Copy, Debug, PartialEq, Eq, Structural)]
pub enum RecordError {
    /// The selection rounds to less than one pixel in width or height.
    TooSmall,
}

impl RecordError {
    /// The message shown for the error.
    pub fn message(self) -> (r: &'static str)
        ensures
            r@ == "selection too small to record"@,
            r@ == seq!['s', 'e', 'l', 'e', 'c', 't', 'i', 'o', 'n', ' ', 't', 'o', 'o', ' ', 's', 'm', 'a', 'l', 'l', ' ', 't', 'o', ' ', 'r', 'e', 'c', 'o', 'r', 'd'],
    {
        proof {
            reveal_strlit("selection too small to record");
        }
        "selection too small to record"
    }
}

/// `wf-recorder`'s `X,Y WxH` geometry of a rectangle.
pub open spec fn geometry_text(r: PixelRect) -> Seq<char> {
    signed_decimal(r.x as int) + seq![','] + signed_decimal(r.y as int) + seq![' '] + signed_decimal(
        r.w as int,
    ) + seq!['x'] + signed_decimal(r.h as int)
}

/// A selection can be recorded when it is at least one pixel each way.
pub open spec fn recordable(r: PixelRect) -> bool {
    r.w >= 1 && r.h >= 1
}

/// Formats a selection (already rounded to whole pixels) as `wf-recorder`'s
/// `X,Y WxH` geometry; a selection under one pixel wide or high is refused.
pub fn geometry_arg(rect: PixelRect) -> (r: Result<String, RecordError>)
    ensures
        recordable(rect) <==> r is Ok,
        r matches Ok(s) ==> s@ == geometry_text(rect),
        r matches Ok(s) ==> s@ == signed_decimal(rect.x as int) + seq![','] + signed_decimal(
            rect.y as int,
        ) + seq![' '] + decimal(rect.w as nat) + seq!['x'] + decimal(rect.h as nat),
        r matches Err(e) ==> e == RecordError::TooSmall,
{
    if rect.w < 1 || rect.h < 1 {
        return Err(RecordError::TooSmall);
    }
    proof {
        reveal_strlit(",");
        reveal_strlit(" ");
        reveal_strlit("x");
    }
    let mut s = String::new();
    push_signed_decimal(&mut s, rect.x);
    s.append(",");
    push_signed_decimal(&mut s, rect.y);
    s.append(" ");
    push_signed_decimal(&mut s, rect.w);
    s.append("x");
    push_signed_decimal(&mut s, rect.h);
    assert(s@ =~= geometry_text(rect));
    Ok(s)
}

/// The rectangle moved by `origin`: an output-local selection in the
/// global layout coordinates `wf-recorder` reads, for an output whose
/// top-left corner sits at `origin`.
pub open spec fn shifted_spec(r: PixelRect, origin: (i32, i32)) -> PixelRect {
    PixelRect { x: (r.x + origin.0) as i32, y: (r.y + origin.1) as i32, w: r.w, h: r.h }
}

impl PixelRect {
    /// This output-local rectangle in global layout coordinates, for an
    /// output whose top-left corner is at `origin`.
    pub fn shifted(self, origin: (i32, i32)) -> (r: PixelRect)
        requires
            fits_i32(self.x + origin.0),
            fits_i32(self.y + origin.1),
        ensures
            r == shifted_spec(self, origin),
            r.x == self.x + origin.0,
            r.y == self.y + origin.1,
    {
        PixelRect { x: self.x + origin.0, y: self.y + origin.1, w: self.w, h: self.h }
    }
}

/// On an output at the layout origin the global geometry is the local one,
/// and shifting by one origin then another is shifting by their sum.
pub proof fn lemma_shift_laws(r: PixelRect, a: (i32, i32), b: (i32, i32))
    requires
        fits_i32(r.x + a.0),
        fits_i32(r.y + a.1),
        fits_i32(r.x + a.0 + b.0),
        fits_i32(r.y + a.1 + b.1),
        fits_i32(a.0 + b.0),
        fits_i32(a.1 + b.1),
    ensures
        shifted_spec(r, (0, 0)) == r,
        shifted_spec(shifted_spec(r, a), b) == shifted_spec(
            r,
            ((a.0 + b.0) as i32, (a.1 + b.1) as i32),
        ),
        recordable(shifted_spec(r, a)) == recordable(r),
{
}

/// `lanner-<timestamp>.mkv`, the name of a fresh recording.
pub open spec fn output_file_name_spec(ts: nat) -> Seq<char> {
    "lanner-"@ + decimal(ts) + ".mkv"@
}

/// The name of a recording started at UNIX time `ts` (seconds).
pub fn output_file_name(ts: u64) -> (r: String)
    ensures
        r@ == output_file_name_spec(ts as nat),
        r@ == seq!['l', 'a', 'n', 'n', 'e', 'r', '-'] + decimal(ts as nat) + seq!['.', 'm', 'k', 'v'],
{
    proof {
        reveal_strlit("lanner-");
        reveal_strlit(".mkv");
        assert("lanner-"@ =~= seq!['l', 'a', 'n', 'n', 'e', 'r', '-']);
        assert(".mkv"@ =~= seq!['.', 'm', 'k', 'v']);
    }
    let mut s = String::from_str("lanner-");
    push_decimal(&mut s, ts);
    s.append(".mkv");
    s
}

/// The capture device `wf-recorder` records sound from, if any: the default
/// sink's monitor for system audio, the default source for the microphone,
/// and the mixing sink's monitor for both.
pub open spec fn audio_device_spec(audio: Audio, default_sink: Seq<char>, default_source: Seq<char>) -> Option<
    Seq<char>,
> {
    match audio {
        Audio::Off => None,
        Audio::System => Some(default_sink + ".monitor"@),
        Audio::Mic => Some(default_source),
        Audio::MicSystem => Some(SINK_NAME@ + ".monitor"@),
    }
}

/// Resolves the chosen audio source to the device `wf-recorder` records.
pub fn audio_device(audio: Audio, default_sink: &str, default_source: &str) -> (r: Option<String>)
    ensures
        r matches Some(d) ==> audio_device_spec(audio, default_sink@, default_source@) == Some(d@),
        r is None <==> audio_device_spec(audio, default_sink@, default_source@) is None,
        audio == Audio::Off ==> r is None,
        audio == Audio::System ==> r is Some && r->0@ == default_sink@ + seq!['.', 'm', 'o', 'n', 'i', 't', 'o', 'r'],
        audio == Audio::Mic ==> r is Some && r->0@ == default_source@,
        audio == Audio::MicSystem ==> r is Some && r->0@ == seq!['l', 'a', 'n', 'n', 'e', 'r', '_', 'm', 'i', 'x', '.', 'm', 'o', 'n', 'i', 't', 'o', 'r'],
{
    proof {
        reveal_strlit("lanner_mix");
        reveal_strlit(".monitor");
        assert(".monitor"@ =~= seq!['.', 'm', 'o', 'n', 'i', 't', 'o', 'r']);
        assert(SINK_NAME@ + ".monitor"@ =~= seq!['l', 'a', 'n', 'n', 'e', 'r', '_', 'm', 'i', 'x', '.', 'm', 'o', 'n', 'i', 't', 'o', 'r']);
    }
    match audio {
        Audio::Off => None,
        Audio::System => Some(monitor_of(default_sink)),
        Audio::Mic => Some(String::from_str(default_source)),
        Audio::MicSystem => Some(monitor_of(SINK_NAME)),
    }
}

/// `wf-recorder`'s argv: the region, the output file, and, when a device is
/// given, `--audio=<device>`.
pub open spec fn recorder_args_spec(geometry: Seq<char>, output: Seq<char>, device: Option<Seq<char>>) -> Seq<
    Seq<char>,
> {
    let base = seq!["-g"@, geometry, "-f"@, output];
    match device {
        Some(d) => base.push("--audio="@ + d),
        None => base,
    }
}

/// The texts of an optional string.
pub open spec fn opt_text(s: Option<String>) -> Option<Seq<char>> {
    match s {
        Some(t) => Some(t@),
        None => None,
    }
}

/// The argv `wf-recorder` is started with.
pub fn recorder_args(geometry: &str, output: &str, device: Option<String>) -> (r: Vec<String>)
    ensures
        crate::transcode::texts(r@) == recorder_args_spec(geometry@, output@, opt_text(device)),
        device is None ==> crate::transcode::texts(r@) == seq![seq!['-', 'g'], geometry@, seq!['-', 'f'], output@],
        device is Some ==> crate::transcode::texts(r@) == seq![
            seq!['-', 'g'],
            geometry@,
            seq!['-', 'f'],
            output@,
            seq!['-', '-', 'a', 'u', 'd', 'i', 'o', '='] + device->0@,
        ],
{
    proof {
        reveal_strlit("-g");
        reveal_strlit("-f");
        reveal_strlit("--audio=");
        assert("-g"@ =~= seq!['-', 'g']);
        assert("-f"@ =~= seq!['-', 'f']);
        assert("--audio="@ =~= seq!['-', '-', 'a', 'u', 'd', 'i', 'o', '=']);
    }
    let mut a: Vec<String> = Vec::new();
    a.push(String::from_str("-g"));
    a.push(String::from_str(geometry));
    a.push(String::from_str("-f"));
    a.push(String::from_str(output));
    match device {
        Some(d) => {
            let mut flag = String::from_str("--audio=");
            flag.append(d.as_str());
            a.push(flag);
        },
        None => {},
    }
    assert(crate::transcode::texts(a@) =~= recorder_args_spec(geometry@, output@, opt_text(device)));
    a
}

} // verus!
