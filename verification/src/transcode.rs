//! The MKV to final-format step: the output extension of each format and
//! the `ffmpeg` command line that converts a recording into it.

use vstd::prelude::*;

verus! {

/// The final format a recording is transcoded to.
#[derive(Clone, Copy, Debug, PartialEq, Eq, Structural)]
pub enum Format {
    Av1,
    Gif,
    Mp4,
    Webm,
    Webp,
}

/// The file extension written for a format (AV1 goes in an MP4 container).
pub open spec fn ext_spec(f: Format) -> Seq<char> {
    match f {
        Format::Av1 => "mp4"@,
        Format::Mp4 => "mp4"@,
        Format::Webm => "webm"@,
        Format::Webp => "webp"@,
        Format::Gif => "gif"@,
    }
}

/// The encoder flags `ffmpeg` gets for each format, between the input and
/// the output path.
pub open spec fn codec_flags(f: Format) -> Seq<Seq<char>> {
    match f {
        Format::Av1 => seq![
            "-c:v"@,
            "libsvtav1"@,
            "-crf"@,
            "30"@,
            "-preset"@,
            "6"@,
            "-pix_fmt"@,
            "yuv420p"@,
            "-c:a"@,
            "libopus"@,
            "-b:a"@,
            "128k"@,
        ],
        Format::Mp4 => seq![
            "-c:v"@,
            "libx264"@,
            "-crf"@,
            "20"@,
            "-preset"@,
            "medium"@,
            "-pix_fmt"@,
            "yuv420p"@,
            "-movflags"@,
            "+faststart"@,
            "-c:a"@,
            "aac"@,
            "-b:a"@,
            "128k"@,
        ],
        Format::Gif => seq![
            "-vf"@,
            "fps=20,scale=min(1280\\,iw):-1:flags=lanczos,split[s0][s1];[s0]palettegen[p];[s1][p]paletteuse"@,
        ],
        Format::Webm => seq![
            "-c:v"@,
            "libvpx-vp9"@,
            "-crf"@,
            "30"@,
            "-b:v"@,
            "0"@,
            "-row-mt"@,
            "1"@,
            "-c:a"@,
            "libopus"@,
            "-b:a"@,
            "128k"@,
        ],
        Format::Webp => seq![
            "-vcodec"@,
            "libwebp_anim"@,
            "-loop"@,
            "0"@,
            "-q:v"@,
            "75"@,
            "-preset"@,
            "picture"@,
            "-an"@,
        ],
    }
}

/// The whole `ffmpeg` argument vector: overwrite, the input, the format's
/// encoder flags, then the output path last.
pub open spec fn ffmpeg_args(f: Format, input: Seq<char>, output: Seq<char>) -> Seq<Seq<char>> {
    seq!["-y"@, "-i"@, input] + codec_flags(f) + seq![output]
}

/// The texts of a vector of strings.
pub open spec fn texts(v: Seq<String>) -> Seq<Seq<char>> {
    v.map_values(|s: String| s@)
}

/// The texts of a slice of string slices.
pub open spec fn str_texts(v: Seq<&str>) -> Seq<Seq<char>> {
    v.map_values(|s: &str| s@)
}

impl Format {
    /// Output file extension for this format.
    pub fn ext(self) -> (r: &'static str)
        ensures
            r@ == ext_spec(self),
            self == Format::Av1 ==> r@ == seq!['m', 'p', '4'],
            self == Format::Mp4 ==> r@ == seq!['m', 'p', '4'],
            self == Format::Webm ==> r@ == seq!['w', 'e', 'b', 'm'],
            self == Format::Webp ==> r@ == seq!['w', 'e', 'b', 'p'],
            self == Format::Gif ==> r@ == seq!['g', 'i', 'f'],
    {
        proof {
            reveal_strlit("mp4");
            reveal_strlit("webm");
            reveal_strlit("webp");
            reveal_strlit("gif");
        }
        match self {
            Format::Av1 | Format::Mp4 => "mp4",
            Format::Webm => "webm",
            Format::Webp => "webp",
            Format::Gif => "gif",
        }
    }
}

fn push_strs(v: &mut Vec<String>, items: &[&str])
    ensures
        texts(final(v)@) == texts(old(v)@) + str_texts(items@),
{
    let mut i: usize = 0;
    while i < items.len()
        invariant
            0 <= i <= items@.len(),
            texts(v@) == texts(old(v)@) + str_texts(items@.subrange(0, i as int)),
        decreases items@.len() - i,
    {
        let ghost before = v@;
        v.push(String::from_str(items[i]));
        assert(texts(v@) =~= texts(before).push(items@[i as int]@));
        assert(str_texts(items@.subrange(0, i + 1)) =~= str_texts(items@.subrange(0, i as int)).push(
            items@[i as int]@,
        ));
        i = i + 1;
    }
    assert(items@.subrange(0, items@.len() as int) =~= items@);
}

/// The `ffmpeg` argv that converts `input` into `output` in `format`.
pub fn args(format: Format, input: &str, output: &str) -> (r: Vec<String>)
    ensures
        texts(r@) == ffmpeg_args(format, input@, output@),
        format == Format::Av1 ==> texts(r@) == seq![
            seq!['-', 'y'],
            seq!['-', 'i'],
            input@,
            seq!['-', 'c', ':', 'v'],
            seq!['l', 'i', 'b', 's', 'v', 't', 'a', 'v', '1'],
            seq!['-', 'c', 'r', 'f'],
            seq!['3', '0'],
            seq!['-', 'p', 'r', 'e', 's', 'e', 't'],
            seq!['6'],
            seq!['-', 'p', 'i', 'x', '_', 'f', 'm', 't'],
            seq!['y', 'u', 'v', '4', '2', '0', 'p'],
            seq!['-', 'c', ':', 'a'],
            seq!['l', 'i', 'b', 'o', 'p', 'u', 's'],
            seq!['-', 'b', ':', 'a'],
            seq!['1', '2', '8', 'k'],
            output@,
        ],
        format == Format::Mp4 ==> texts(r@) == seq![
            seq!['-', 'y'],
            seq!['-', 'i'],
            input@,
            seq!['-', 'c', ':', 'v'],
            seq!['l', 'i', 'b', 'x', '2', '6', '4'],
            seq!['-', 'c', 'r', 'f'],
            seq!['2', '0'],
            seq!['-', 'p', 'r', 'e', 's', 'e', 't'],
            seq!['m', 'e', 'd', 'i', 'u', 'm'],
            seq!['-', 'p', 'i', 'x', '_', 'f', 'm', 't'],
            seq!['y', 'u', 'v', '4', '2', '0', 'p'],
            seq!['-', 'm', 'o', 'v', 'f', 'l', 'a', 'g', 's'],
            seq!['+', 'f', 'a', 's', 't', 's', 't', 'a', 'r', 't'],
            seq!['-', 'c', ':', 'a'],
            seq!['a', 'a', 'c'],
            seq!['-', 'b', ':', 'a'],
            seq!['1', '2', '8', 'k'],
            output@,
        ],
        format == Format::Gif ==> texts(r@) == seq![
            seq!['-', 'y'],
            seq!['-', 'i'],
            input@,
            seq!['-', 'v', 'f'],
            seq!['f', 'p', 's', '=', '2', '0', ',', 's', 'c', 'a', 'l', 'e', '=', 'm', 'i', 'n', '(', '1', '2', '8', '0', '\\', ',', 'i', 'w', ')', ':', '-', '1', ':', 'f', 'l', 'a', 'g', 's', '=', 'l', 'a', 'n', 'c', 'z', 'o', 's', ',', 's', 'p', 'l', 'i', 't', '[', 's', '0', ']', '[', 's', '1', ']', ';', '[', 's', '0', ']', 'p', 'a', 'l', 'e', 't', 't', 'e', 'g', 'e', 'n', '[', 'p', ']', ';', '[', 's', '1', ']', '[', 'p', ']', 'p', 'a', 'l', 'e', 't', 't', 'e', 'u', 's', 'e'],
            output@,
        ],
        format == Format::Webm ==> texts(r@) == seq![
            seq!['-', 'y'],
            seq!['-', 'i'],
            input@,
            seq!['-', 'c', ':', 'v'],
            seq!['l', 'i', 'b', 'v', 'p', 'x', '-', 'v', 'p', '9'],
            seq!['-', 'c', 'r', 'f'],
            seq!['3', '0'],
            seq!['-', 'b', ':', 'v'],
            seq!['0'],
            seq!['-', 'r', 'o', 'w', '-', 'm', 't'],
            seq!['1'],
            seq!['-', 'c', ':', 'a'],
            seq!['l', 'i', 'b', 'o', 'p', 'u', 's'],
            seq!['-', 'b', ':', 'a'],
            seq!['1', '2', '8', 'k'],
            output@,
        ],
        format == Format::Webp ==> texts(r@) == seq![
            seq!['-', 'y'],
            seq!['-', 'i'],
            input@,
            seq!['-', 'v', 'c', 'o', 'd', 'e', 'c'],
            seq!['l', 'i', 'b', 'w', 'e', 'b', 'p', '_', 'a', 'n', 'i', 'm'],
            seq!['-', 'l', 'o', 'o', 'p'],
            seq!['0'],
            seq!['-', 'q', ':', 'v'],
            seq!['7', '5'],
            seq!['-', 'p', 'r', 'e', 's', 'e', 't'],
            seq!['p', 'i', 'c', 't', 'u', 'r', 'e'],
            seq!['-', 'a', 'n'],
            output@,
        ],
{
    let mut a: Vec<String> = Vec::new();
    a.push(String::from_str("-y"));
    a.push(String::from_str("-i"));
    a.push(String::from_str(input));
    assert(texts(a@) =~= seq!["-y"@, "-i"@, input@]);
    let codec: &[&str] = match format {
        Format::Av1 => &[
            "-c:v",
            "libsvtav1",
            "-crf",
            "30",
            "-preset",
            "6",
            "-pix_fmt",
            "yuv420p",
            "-c:a",
            "libopus",
            "-b:a",
            "128k",
        ],
        Format::Mp4 => &[
            "-c:v",
            "libx264",
            "-crf",
            "20",
            "-preset",
            "medium",
            "-pix_fmt",
            "yuv420p",
            "-movflags",
            "+faststart",
            "-c:a",
            "aac",
            "-b:a",
            "128k",
        ],
        Format::Gif => &[
            // ffmpeg palettegen path. Cap the width at 1280: near-native for
            // a typical region, but bounded so a giant GIF (which many viewers
            // render as a single frame) is avoided. `\\,` escapes the comma in
            // min() so the filtergraph parser keeps it in the expression.
            "-vf",
            "fps=20,scale=min(1280\\,iw):-1:flags=lanczos,split[s0][s1];[s0]palettegen[p];[s1][p]paletteuse",
        ],
        Format::Webm => &[
            "-c:v",
            "libvpx-vp9",
            "-crf",
            "30",
            "-b:v",
            "0",
            "-row-mt",
            "1",
            "-c:a",
            "libopus",
            "-b:a",
            "128k",
        ],
        Format::Webp => &[
            "-vcodec",
            "libwebp_anim",
            "-loop",
            "0",
            "-q:v",
            "75",
            "-preset",
            "picture",
            "-an",
        ],
    };
    assert(str_texts(codec@) =~= codec_flags(format));
    push_strs(&mut a, codec);
    a.push(String::from_str(output));
    assert(texts(a@) =~= ffmpeg_args(format, input@, output@));
    proof { lemma_format_encoders(input@, output@); }
    a
}

/// The encoder settings of every format, character by character: AV1 is
/// SVT-AV1 with Opus audio; MP4 is H.264 (`libx264`) with AAC audio and the
/// index moved to the front for streaming; GIF goes through the palette
/// filter with the width capped at 1280 pixels and the height following the
/// aspect ratio (`-1`); WebM is VP9 with Opus; WebP is animated WebP with no
/// audio.
pub proof fn lemma_format_encoders(input: Seq<char>, output: Seq<char>)
    ensures
        ffmpeg_args(Format::Av1, input, output) == seq![
            seq!['-', 'y'],
            seq!['-', 'i'],
            input,
            seq!['-', 'c', ':', 'v'],
            seq!['l', 'i', 'b', 's', 'v', 't', 'a', 'v', '1'],
            seq!['-', 'c', 'r', 'f'],
            seq!['3', '0'],
            seq!['-', 'p', 'r', 'e', 's', 'e', 't'],
            seq!['6'],
            seq!['-', 'p', 'i', 'x', '_', 'f', 'm', 't'],
            seq!['y', 'u', 'v', '4', '2', '0', 'p'],
            seq!['-', 'c', ':', 'a'],
            seq!['l', 'i', 'b', 'o', 'p', 'u', 's'],
            seq!['-', 'b', ':', 'a'],
            seq!['1', '2', '8', 'k'],
            output,
        ],
        ffmpeg_args(Format::Mp4, input, output) == seq![
            seq!['-', 'y'],
            seq!['-', 'i'],
            input,
            seq!['-', 'c', ':', 'v'],
            seq!['l', 'i', 'b', 'x', '2', '6', '4'],
            seq!['-', 'c', 'r', 'f'],
            seq!['2', '0'],
            seq!['-', 'p', 'r', 'e', 's', 'e', 't'],
            seq!['m', 'e', 'd', 'i', 'u', 'm'],
            seq!['-', 'p', 'i', 'x', '_', 'f', 'm', 't'],
            seq!['y', 'u', 'v', '4', '2', '0', 'p'],
            seq!['-', 'm', 'o', 'v', 'f', 'l', 'a', 'g', 's'],
            seq!['+', 'f', 'a', 's', 't', 's', 't', 'a', 'r', 't'],
            seq!['-', 'c', ':', 'a'],
            seq!['a', 'a', 'c'],
            seq!['-', 'b', ':', 'a'],
            seq!['1', '2', '8', 'k'],
            output,
        ],
        ffmpeg_args(Format::Gif, input, output) == seq![
            seq!['-', 'y'],
            seq!['-', 'i'],
            input,
            seq!['-', 'v', 'f'],
            seq!['f', 'p', 's', '=', '2', '0', ',', 's', 'c', 'a', 'l', 'e', '=', 'm', 'i', 'n', '(', '1', '2', '8', '0', '\\', ',', 'i', 'w', ')', ':', '-', '1', ':', 'f', 'l', 'a', 'g', 's', '=', 'l', 'a', 'n', 'c', 'z', 'o', 's', ',', 's', 'p', 'l', 'i', 't', '[', 's', '0', ']', '[', 's', '1', ']', ';', '[', 's', '0', ']', 'p', 'a', 'l', 'e', 't', 't', 'e', 'g', 'e', 'n', '[', 'p', ']', ';', '[', 's', '1', ']', '[', 'p', ']', 'p', 'a', 'l', 'e', 't', 't', 'e', 'u', 's', 'e'],
            output,
        ],
        ffmpeg_args(Format::Webm, input, output) == seq![
            seq!['-', 'y'],
            seq!['-', 'i'],
            input,
            seq!['-', 'c', ':', 'v'],
            seq!['l', 'i', 'b', 'v', 'p', 'x', '-', 'v', 'p', '9'],
            seq!['-', 'c', 'r', 'f'],
            seq!['3', '0'],
            seq!['-', 'b', ':', 'v'],
            seq!['0'],
            seq!['-', 'r', 'o', 'w', '-', 'm', 't'],
            seq!['1'],
            seq!['-', 'c', ':', 'a'],
            seq!['l', 'i', 'b', 'o', 'p', 'u', 's'],
            seq!['-', 'b', ':', 'a'],
            seq!['1', '2', '8', 'k'],
            output,
        ],
        ffmpeg_args(Format::Webp, input, output) == seq![
            seq!['-', 'y'],
            seq!['-', 'i'],
            input,
            seq!['-', 'v', 'c', 'o', 'd', 'e', 'c'],
            seq!['l', 'i', 'b', 'w', 'e', 'b', 'p', '_', 'a', 'n', 'i', 'm'],
            seq!['-', 'l', 'o', 'o', 'p'],
            seq!['0'],
            seq!['-', 'q', ':', 'v'],
            seq!['7', '5'],
            seq!['-', 'p', 'r', 'e', 's', 'e', 't'],
            seq!['p', 'i', 'c', 't', 'u', 'r', 'e'],
            seq!['-', 'a', 'n'],
            output,
        ],
{
    lemma_encoder_av1(input, output);
    lemma_encoder_mp4(input, output);
    lemma_encoder_gif(input, output);
    lemma_encoder_webm(input, output);
    lemma_encoder_webp(input, output);
}

proof fn lemma_encoder_av1(input: Seq<char>, output: Seq<char>)
    ensures
        ffmpeg_args(Format::Av1, input, output) == seq![
            seq!['-', 'y'],
            seq!['-', 'i'],
            input,
            seq!['-', 'c', ':', 'v'],
            seq!['l', 'i', 'b', 's', 'v', 't', 'a', 'v', '1'],
            seq!['-', 'c', 'r', 'f'],
            seq!['3', '0'],
            seq!['-', 'p', 'r', 'e', 's', 'e', 't'],
            seq!['6'],
            seq!['-', 'p', 'i', 'x', '_', 'f', 'm', 't'],
            seq!['y', 'u', 'v', '4', '2', '0', 'p'],
            seq!['-', 'c', ':', 'a'],
            seq!['l', 'i', 'b', 'o', 'p', 'u', 's'],
            seq!['-', 'b', ':', 'a'],
            seq!['1', '2', '8', 'k'],
            output,
        ],
{
    reveal_strlit("-b:a");
    assert("-b:a"@ =~= seq!['-', 'b', ':', 'a']);
    reveal_strlit("-c:a");
    assert("-c:a"@ =~= seq!['-', 'c', ':', 'a']);
    reveal_strlit("-c:v");
    assert("-c:v"@ =~= seq!['-', 'c', ':', 'v']);
    reveal_strlit("-crf");
    assert("-crf"@ =~= seq!['-', 'c', 'r', 'f']);
    reveal_strlit("-i");
    assert("-i"@ =~= seq!['-', 'i']);
    reveal_strlit("-pix_fmt");
    assert("-pix_fmt"@ =~= seq!['-', 'p', 'i', 'x', '_', 'f', 'm', 't']);
    reveal_strlit("-preset");
    assert("-preset"@ =~= seq!['-', 'p', 'r', 'e', 's', 'e', 't']);
    reveal_strlit("-y");
    assert("-y"@ =~= seq!['-', 'y']);
    reveal_strlit("128k");
    assert("128k"@ =~= seq!['1', '2', '8', 'k']);
    reveal_strlit("30");
    assert("30"@ =~= seq!['3', '0']);
    reveal_strlit("6");
    assert("6"@ =~= seq!['6']);
    reveal_strlit("libopus");
    assert("libopus"@ =~= seq!['l', 'i', 'b', 'o', 'p', 'u', 's']);
    reveal_strlit("libsvtav1");
    assert("libsvtav1"@ =~= seq!['l', 'i', 'b', 's', 'v', 't', 'a', 'v', '1']);
    reveal_strlit("yuv420p");
    assert("yuv420p"@ =~= seq!['y', 'u', 'v', '4', '2', '0', 'p']);
    assert(ffmpeg_args(Format::Av1, input, output) =~= seq![
        seq!['-', 'y'],
        seq!['-', 'i'],
        input,
        seq!['-', 'c', ':', 'v'],
        seq!['l', 'i', 'b', 's', 'v', 't', 'a', 'v', '1'],
        seq!['-', 'c', 'r', 'f'],
        seq!['3', '0'],
        seq!['-', 'p', 'r', 'e', 's', 'e', 't'],
        seq!['6'],
        seq!['-', 'p', 'i', 'x', '_', 'f', 'm', 't'],
        seq!['y', 'u', 'v', '4', '2', '0', 'p'],
        seq!['-', 'c', ':', 'a'],
        seq!['l', 'i', 'b', 'o', 'p', 'u', 's'],
        seq!['-', 'b', ':', 'a'],
        seq!['1', '2', '8', 'k'],
        output,
    ]);
}

proof fn lemma_encoder_mp4(input: Seq<char>, output: Seq<char>)
    ensures
        ffmpeg_args(Format::Mp4, input, output) == seq![
            seq!['-', 'y'],
            seq!['-', 'i'],
            input,
            seq!['-', 'c', ':', 'v'],
            seq!['l', 'i', 'b', 'x', '2', '6', '4'],
            seq!['-', 'c', 'r', 'f'],
            seq!['2', '0'],
            seq!['-', 'p', 'r', 'e', 's', 'e', 't'],
            seq!['m', 'e', 'd', 'i', 'u', 'm'],
            seq!['-', 'p', 'i', 'x', '_', 'f', 'm', 't'],
            seq!['y', 'u', 'v', '4', '2', '0', 'p'],
            seq!['-', 'm', 'o', 'v', 'f', 'l', 'a', 'g', 's'],
            seq!['+', 'f', 'a', 's', 't', 's', 't', 'a', 'r', 't'],
            seq!['-', 'c', ':', 'a'],
            seq!['a', 'a', 'c'],
            seq!['-', 'b', ':', 'a'],
            seq!['1', '2', '8', 'k'],
            output,
        ],
{
    reveal_strlit("+faststart");
    assert("+faststart"@ =~= seq!['+', 'f', 'a', 's', 't', 's', 't', 'a', 'r', 't']);
    reveal_strlit("-b:a");
    assert("-b:a"@ =~= seq!['-', 'b', ':', 'a']);
    reveal_strlit("-c:a");
    assert("-c:a"@ =~= seq!['-', 'c', ':', 'a']);
    reveal_strlit("-c:v");
    assert("-c:v"@ =~= seq!['-', 'c', ':', 'v']);
    reveal_strlit("-crf");
    assert("-crf"@ =~= seq!['-', 'c', 'r', 'f']);
    reveal_strlit("-i");
    assert("-i"@ =~= seq!['-', 'i']);
    reveal_strlit("-movflags");
    assert("-movflags"@ =~= seq!['-', 'm', 'o', 'v', 'f', 'l', 'a', 'g', 's']);
    reveal_strlit("-pix_fmt");
    assert("-pix_fmt"@ =~= seq!['-', 'p', 'i', 'x', '_', 'f', 'm', 't']);
    reveal_strlit("-preset");
    assert("-preset"@ =~= seq!['-', 'p', 'r', 'e', 's', 'e', 't']);
    reveal_strlit("-y");
    assert("-y"@ =~= seq!['-', 'y']);
    reveal_strlit("128k");
    assert("128k"@ =~= seq!['1', '2', '8', 'k']);
    reveal_strlit("20");
    assert("20"@ =~= seq!['2', '0']);
    reveal_strlit("aac");
    assert("aac"@ =~= seq!['a', 'a', 'c']);
    reveal_strlit("libx264");
    assert("libx264"@ =~= seq!['l', 'i', 'b', 'x', '2', '6', '4']);
    reveal_strlit("medium");
    assert("medium"@ =~= seq!['m', 'e', 'd', 'i', 'u', 'm']);
    reveal_strlit("yuv420p");
    assert("yuv420p"@ =~= seq!['y', 'u', 'v', '4', '2', '0', 'p']);
    assert(ffmpeg_args(Format::Mp4, input, output) =~= seq![
        seq!['-', 'y'],
        seq!['-', 'i'],
        input,
        seq!['-', 'c', ':', 'v'],
        seq!['l', 'i', 'b', 'x', '2', '6', '4'],
        seq!['-', 'c', 'r', 'f'],
        seq!['2', '0'],
        seq!['-', 'p', 'r', 'e', 's', 'e', 't'],
        seq!['m', 'e', 'd', 'i', 'u', 'm'],
        seq!['-', 'p', 'i', 'x', '_', 'f', 'm', 't'],
        seq!['y', 'u', 'v', '4', '2', '0', 'p'],
        seq!['-', 'm', 'o', 'v', 'f', 'l', 'a', 'g', 's'],
        seq!['+', 'f', 'a', 's', 't', 's', 't', 'a', 'r', 't'],
        seq!['-', 'c', ':', 'a'],
        seq!['a', 'a', 'c'],
        seq!['-', 'b', ':', 'a'],
        seq!['1', '2', '8', 'k'],
        output,
    ]);
}

proof fn lemma_encoder_gif(input: Seq<char>, output: Seq<char>)
    ensures
        ffmpeg_args(Format::Gif, input, output) == seq![
            seq!['-', 'y'],
            seq!['-', 'i'],
            input,
            seq!['-', 'v', 'f'],
            seq!['f', 'p', 's', '=', '2', '0', ',', 's', 'c', 'a', 'l', 'e', '=', 'm', 'i', 'n', '(', '1', '2', '8', '0', '\\', ',', 'i', 'w', ')', ':', '-', '1', ':', 'f', 'l', 'a', 'g', 's', '=', 'l', 'a', 'n', 'c', 'z', 'o', 's', ',', 's', 'p', 'l', 'i', 't', '[', 's', '0', ']', '[', 's', '1', ']', ';', '[', 's', '0', ']', 'p', 'a', 'l', 'e', 't', 't', 'e', 'g', 'e', 'n', '[', 'p', ']', ';', '[', 's', '1', ']', '[', 'p', ']', 'p', 'a', 'l', 'e', 't', 't', 'e', 'u', 's', 'e'],
            output,
        ],
{
    reveal_strlit("-i");
    assert("-i"@ =~= seq!['-', 'i']);
    reveal_strlit("-vf");
    assert("-vf"@ =~= seq!['-', 'v', 'f']);
    reveal_strlit("-y");
    assert("-y"@ =~= seq!['-', 'y']);
    reveal_strlit("fps=20,scale=min(1280\\,iw):-1:flags=lanczos,split[s0][s1];[s0]palettegen[p];[s1][p]paletteuse");
    assert("fps=20,scale=min(1280\\,iw):-1:flags=lanczos,split[s0][s1];[s0]palettegen[p];[s1][p]paletteuse"@ =~= seq!['f', 'p', 's', '=', '2', '0', ',', 's', 'c', 'a', 'l', 'e', '=', 'm', 'i', 'n', '(', '1', '2', '8', '0', '\\', ',', 'i', 'w', ')', ':', '-', '1', ':', 'f', 'l', 'a', 'g', 's', '=', 'l', 'a', 'n', 'c', 'z', 'o', 's', ',', 's', 'p', 'l', 'i', 't', '[', 's', '0', ']', '[', 's', '1', ']', ';', '[', 's', '0', ']', 'p', 'a', 'l', 'e', 't', 't', 'e', 'g', 'e', 'n', '[', 'p', ']', ';', '[', 's', '1', ']', '[', 'p', ']', 'p', 'a', 'l', 'e', 't', 't', 'e', 'u', 's', 'e']);
    assert(ffmpeg_args(Format::Gif, input, output) =~= seq![
        seq!['-', 'y'],
        seq!['-', 'i'],
        input,
        seq!['-', 'v', 'f'],
        seq!['f', 'p', 's', '=', '2', '0', ',', 's', 'c', 'a', 'l', 'e', '=', 'm', 'i', 'n', '(', '1', '2', '8', '0', '\\', ',', 'i', 'w', ')', ':', '-', '1', ':', 'f', 'l', 'a', 'g', 's', '=', 'l', 'a', 'n', 'c', 'z', 'o', 's', ',', 's', 'p', 'l', 'i', 't', '[', 's', '0', ']', '[', 's', '1', ']', ';', '[', 's', '0', ']', 'p', 'a', 'l', 'e', 't', 't', 'e', 'g', 'e', 'n', '[', 'p', ']', ';', '[', 's', '1', ']', '[', 'p', ']', 'p', 'a', 'l', 'e', 't', 't', 'e', 'u', 's', 'e'],
        output,
    ]);
}

proof fn lemma_encoder_webm(input: Seq<char>, output: Seq<char>)
    ensures
        ffmpeg_args(Format::Webm, input, output) == seq![
            seq!['-', 'y'],
            seq!['-', 'i'],
            input,
            seq!['-', 'c', ':', 'v'],
            seq!['l', 'i', 'b', 'v', 'p', 'x', '-', 'v', 'p', '9'],
            seq!['-', 'c', 'r', 'f'],
            seq!['3', '0'],
            seq!['-', 'b', ':', 'v'],
            seq!['0'],
            seq!['-', 'r', 'o', 'w', '-', 'm', 't'],
            seq!['1'],
            seq!['-', 'c', ':', 'a'],
            seq!['l', 'i', 'b', 'o', 'p', 'u', 's'],
            seq!['-', 'b', ':', 'a'],
            seq!['1', '2', '8', 'k'],
            output,
        ],
{
    reveal_strlit("-b:a");
    assert("-b:a"@ =~= seq!['-', 'b', ':', 'a']);
    reveal_strlit("-b:v");
    assert("-b:v"@ =~= seq!['-', 'b', ':', 'v']);
    reveal_strlit("-c:a");
    assert("-c:a"@ =~= seq!['-', 'c', ':', 'a']);
    reveal_strlit("-c:v");
    assert("-c:v"@ =~= seq!['-', 'c', ':', 'v']);
    reveal_strlit("-crf");
    assert("-crf"@ =~= seq!['-', 'c', 'r', 'f']);
    reveal_strlit("-i");
    assert("-i"@ =~= seq!['-', 'i']);
    reveal_strlit("-row-mt");
    assert("-row-mt"@ =~= seq!['-', 'r', 'o', 'w', '-', 'm', 't']);
    reveal_strlit("-y");
    assert("-y"@ =~= seq!['-', 'y']);
    reveal_strlit("0");
    assert("0"@ =~= seq!['0']);
    reveal_strlit("1");
    assert("1"@ =~= seq!['1']);
    reveal_strlit("128k");
    assert("128k"@ =~= seq!['1', '2', '8', 'k']);
    reveal_strlit("30");
    assert("30"@ =~= seq!['3', '0']);
    reveal_strlit("libopus");
    assert("libopus"@ =~= seq!['l', 'i', 'b', 'o', 'p', 'u', 's']);
    reveal_strlit("libvpx-vp9");
    assert("libvpx-vp9"@ =~= seq!['l', 'i', 'b', 'v', 'p', 'x', '-', 'v', 'p', '9']);
    assert(ffmpeg_args(Format::Webm, input, output) =~= seq![
        seq!['-', 'y'],
        seq!['-', 'i'],
        input,
        seq!['-', 'c', ':', 'v'],
        seq!['l', 'i', 'b', 'v', 'p', 'x', '-', 'v', 'p', '9'],
        seq!['-', 'c', 'r', 'f'],
        seq!['3', '0'],
        seq!['-', 'b', ':', 'v'],
        seq!['0'],
        seq!['-', 'r', 'o', 'w', '-', 'm', 't'],
        seq!['1'],
        seq!['-', 'c', ':', 'a'],
        seq!['l', 'i', 'b', 'o', 'p', 'u', 's'],
        seq!['-', 'b', ':', 'a'],
        seq!['1', '2', '8', 'k'],
        output,
    ]);
}

proof fn lemma_encoder_webp(input: Seq<char>, output: Seq<char>)
    ensures
        ffmpeg_args(Format::Webp, input, output) == seq![
            seq!['-', 'y'],
            seq!['-', 'i'],
            input,
            seq!['-', 'v', 'c', 'o', 'd', 'e', 'c'],
            seq!['l', 'i', 'b', 'w', 'e', 'b', 'p', '_', 'a', 'n', 'i', 'm'],
            seq!['-', 'l', 'o', 'o', 'p'],
            seq!['0'],
            seq!['-', 'q', ':', 'v'],
            seq!['7', '5'],
            seq!['-', 'p', 'r', 'e', 's', 'e', 't'],
            seq!['p', 'i', 'c', 't', 'u', 'r', 'e'],
            seq!['-', 'a', 'n'],
            output,
        ],
{
    reveal_strlit("-an");
    assert("-an"@ =~= seq!['-', 'a', 'n']);
    reveal_strlit("-i");
    assert("-i"@ =~= seq!['-', 'i']);
    reveal_strlit("-loop");
    assert("-loop"@ =~= seq!['-', 'l', 'o', 'o', 'p']);
    reveal_strlit("-preset");
    assert("-preset"@ =~= seq!['-', 'p', 'r', 'e', 's', 'e', 't']);
    reveal_strlit("-q:v");
    assert("-q:v"@ =~= seq!['-', 'q', ':', 'v']);
    reveal_strlit("-vcodec");
    assert("-vcodec"@ =~= seq!['-', 'v', 'c', 'o', 'd', 'e', 'c']);
    reveal_strlit("-y");
    assert("-y"@ =~= seq!['-', 'y']);
    reveal_strlit("0");
    assert("0"@ =~= seq!['0']);
    reveal_strlit("75");
    assert("75"@ =~= seq!['7', '5']);
    reveal_strlit("libwebp_anim");
    assert("libwebp_anim"@ =~= seq!['l', 'i', 'b', 'w', 'e', 'b', 'p', '_', 'a', 'n', 'i', 'm']);
    reveal_strlit("picture");
    assert("picture"@ =~= seq!['p', 'i', 'c', 't', 'u', 'r', 'e']);
    assert(ffmpeg_args(Format::Webp, input, output) =~= seq![
        seq!['-', 'y'],
        seq!['-', 'i'],
        input,
        seq!['-', 'v', 'c', 'o', 'd', 'e', 'c'],
        seq!['l', 'i', 'b', 'w', 'e', 'b', 'p', '_', 'a', 'n', 'i', 'm'],
        seq!['-', 'l', 'o', 'o', 'p'],
        seq!['0'],
        seq!['-', 'q', ':', 'v'],
        seq!['7', '5'],
        seq!['-', 'p', 'r', 'e', 's', 'e', 't'],
        seq!['p', 'i', 'c', 't', 'u', 'r', 'e'],
        seq!['-', 'a', 'n'],
        output,
    ]);
}

/// Every `ffmpeg` command line starts with `-y -i <input>` and ends with the
/// output path, whatever the format.
pub proof fn lemma_ffmpeg_args_frame(f: Format, input: Seq<char>, output: Seq<char>)
    ensures
        ffmpeg_args(f, input, output).len() == codec_flags(f).len() + 4,
        ffmpeg_args(f, input, output)[0] == "-y"@,
        ffmpeg_args(f, input, output)[1] == "-i"@,
        ffmpeg_args(f, input, output)[2] == input,
        ffmpeg_args(f, input, output).last() == output,
{
}

} // verus!
