//! The user's choices made on the pre-draw control bar: audio source,
//! output format and countdown delay.

use vstd::prelude::*;
use crate::transcode::Format;

verus! {

/// Audio source for the recording.
#[derive(Clone, Copy, Debug, PartialEq, Eq, Structural)]
pub enum Audio {
    /// No sound is recorded.
    Off,
    System,
    Mic,
    /// The microphone and the system audio mixed into one source.
    MicSystem,
}

/// User choices, shared between the picker buttons (writers) and the
/// record-start and stop paths (readers).
#[derive(Clone, Copy, Debug, PartialEq, Eq, Structural)]
pub struct Settings {
    pub audio: Audio,
    pub format: Format,
    pub countdown_secs: u32,
}

impl Default for Settings {
    fn default() -> (r: Self)
        ensures
            r == (Settings { audio: Audio::Off, format: Format::Mp4, countdown_secs: 0 }),
    {
        Settings { audio: Audio::Off, format: Format::Mp4, countdown_secs: 0 }
    }
}

impl Settings {
    /// The audio picker is usable unless the format cannot carry sound
    /// (GIF has no audio track).
    pub fn audio_picker_enabled(&self) -> (r: bool)
        ensures
            r <==> self.format != Format::Gif,
    {
        match self.format {
            Format::Gif => false,
            _ => true,
        }
    }
}

/// The audio picker's buttons, left to right: label and value.
pub open spec fn audio_choices_spec() -> Seq<(Seq<char>, Audio)> {
    seq![
        ("None"@, Audio::Off),
        ("System"@, Audio::System),
        ("Mic"@, Audio::Mic),
        ("Mic+System"@, Audio::MicSystem),
    ]
}

/// The format picker's buttons, left to right: label and value.
pub open spec fn format_choices_spec() -> Seq<(Seq<char>, Format)> {
    seq![
        ("MP4"@, Format::Mp4),
        ("WebM"@, Format::Webm),
        ("AV1"@, Format::Av1),
        ("WebP"@, Format::Webp),
        ("GIF"@, Format::Gif),
    ]
}

/// The countdown picker's buttons, left to right: label and seconds.
pub open spec fn delay_choices_spec() -> Seq<(Seq<char>, u32)> {
    seq![("Off"@, 0u32), ("3s"@, 3u32), ("5s"@, 5u32), ("10s"@, 10u32)]
}

/// The labels and values of a list of choices.
pub open spec fn choice_texts<T>(v: Seq<(&str, T)>) -> Seq<(Seq<char>, T)> {
    v.map_values(|c: (&str, T)| (c.0@, c.1))
}

/// The audio picker's buttons.
pub fn audio_choices() -> (r: Vec<(&'static str, Audio)>)
    ensures
        choice_texts(r@) == audio_choices_spec(),
        choice_texts(r@) == seq![(seq!['N', 'o', 'n', 'e'], Audio::Off), (seq!['S', 'y', 's', 't', 'e', 'm'], Audio::System), (seq!['M', 'i', 'c'], Audio::Mic), (seq!['M', 'i', 'c', '+', 'S', 'y', 's', 't', 'e', 'm'], Audio::MicSystem)],
{
    proof {
        reveal_strlit("None");
        assert("None"@ =~= seq!['N', 'o', 'n', 'e']);
        reveal_strlit("System");
        assert("System"@ =~= seq!['S', 'y', 's', 't', 'e', 'm']);
        reveal_strlit("Mic");
        assert("Mic"@ =~= seq!['M', 'i', 'c']);
        reveal_strlit("Mic+System");
        assert("Mic+System"@ =~= seq!['M', 'i', 'c', '+', 'S', 'y', 's', 't', 'e', 'm']);
    }
    let r = vec![
        ("None", Audio::Off),
        ("System", Audio::System),
        ("Mic", Audio::Mic),
        ("Mic+System", Audio::MicSystem),
    ];
    assert(choice_texts(r@) =~= audio_choices_spec());
    r
}

/// The format picker's buttons.
pub fn format_choices() -> (r: Vec<(&'static str, Format)>)
    ensures
        choice_texts(r@) == format_choices_spec(),
        choice_texts(r@) == seq![(seq!['M', 'P', '4'], Format::Mp4), (seq!['W', 'e', 'b', 'M'], Format::Webm), (seq!['A', 'V', '1'], Format::Av1), (seq!['W', 'e', 'b', 'P'], Format::Webp), (seq!['G', 'I', 'F'], Format::Gif)],
{
    proof {
        reveal_strlit("MP4");
        assert("MP4"@ =~= seq!['M', 'P', '4']);
        reveal_strlit("WebM");
        assert("WebM"@ =~= seq!['W', 'e', 'b', 'M']);
        reveal_strlit("AV1");
        assert("AV1"@ =~= seq!['A', 'V', '1']);
        reveal_strlit("WebP");
        assert("WebP"@ =~= seq!['W', 'e', 'b', 'P']);
        reveal_strlit("GIF");
        assert("GIF"@ =~= seq!['G', 'I', 'F']);
    }
    let r = vec![
        ("MP4", Format::Mp4),
        ("WebM", Format::Webm),
        ("AV1", Format::Av1),
        ("WebP", Format::Webp),
        ("GIF", Format::Gif),
    ];
    assert(choice_texts(r@) =~= format_choices_spec());
    r
}

/// The countdown picker's buttons.
pub fn delay_choices() -> (r: Vec<(&'static str, u32)>)
    ensures
        choice_texts(r@) == delay_choices_spec(),
        choice_texts(r@) == seq![(seq!['O', 'f', 'f'], 0u32), (seq!['3', 's'], 3u32), (seq!['5', 's'], 5u32), (seq!['1', '0', 's'], 10u32)],
{
    proof {
        reveal_strlit("Off");
        assert("Off"@ =~= seq!['O', 'f', 'f']);
        reveal_strlit("3s");
        assert("3s"@ =~= seq!['3', 's']);
        reveal_strlit("5s");
        assert("5s"@ =~= seq!['5', 's']);
        reveal_strlit("10s");
        assert("10s"@ =~= seq!['1', '0', 's']);
    }
    let r = vec![("Off", 0u32), ("3s", 3u32), ("5s", 5u32), ("10s", 10u32)];
    assert(choice_texts(r@) =~= delay_choices_spec());
    r
}

/// Each picker starts on the default setting: its default value is among
/// its buttons.
pub proof fn lemma_defaults_are_offered()
    ensures
        audio_choices_spec()[0].1 == Audio::Off,
        format_choices_spec()[0].1 == Format::Mp4,
        delay_choices_spec()[0].1 == 0,
{
}

} // verus!
